//! URLs as this crate sees them: the parts of a parsed URL that proxy
//! resolution reads, held as plain text.

use crate::bindings::{parse_url, url_parsed};
use crate::error::{
    bad_scheme_error, builder, builder_error, url_bad_scheme, ErrorSource, ProxyError, ProxyErrorView,
};
use crate::text::text_view;
use vstd::prelude::*;

verus! {

/// Why a text was not accepted as a URL.
#[derive(Clone, Copy, Debug, PartialEq, Eq, Structural)]
pub enum UrlParseError {
    /// The text has no scheme, and there is no base to resolve it against.
    RelativeUrlWithoutBase,
    /// Any other failure of the URL parser.
    Malformed,
}

/// A parsed URL.
#[derive(Debug, PartialEq, Eq)]
pub struct Url {
    /// The whole URL in its normalized form.
    pub serialization: String,
    /// The scheme, in lower case and without the colon.
    pub scheme: String,
    /// The user name as written, still percent-encoded; empty if there is none.
    pub username: String,
    /// The password as written, still percent-encoded, if there is one.
    pub password: Option<String>,
    /// Host and port as they stand in the URL: `host` or `host:port`.
    pub host_port: String,
    /// Whether the URL has a host at all.
    pub has_host: bool,
}

/// The mathematical value of a [`Url`].
pub struct UrlView {
    pub serialization: Seq<char>,
    pub scheme: Seq<char>,
    pub username: Seq<char>,
    pub password: Option<Seq<char>>,
    pub host_port: Seq<char>,
    pub has_host: bool,
}

impl View for Url {
    type V = UrlView;

    open spec fn view(&self) -> UrlView {
        UrlView {
            serialization: self.serialization@,
            scheme: self.scheme@,
            username: self.username@,
            password: text_view(self.password),
            host_port: self.host_port@,
            has_host: self.has_host,
        }
    }
}

impl Clone for Url {
    fn clone(&self) -> (copy: Self)
        ensures
            copy == *self,
    {
        Url {
            serialization: self.serialization.clone(),
            scheme: self.scheme.clone(),
            username: self.username.clone(),
            password: match &self.password {
                Some(p) => Some(p.clone()),
                None => None,
            },
            host_port: self.host_port.clone(),
            has_host: self.has_host,
        }
    }
}

/// The view of a URL or of the error that stands in its place.
pub open spec fn url_result_view(r: Result<Url, ProxyError>) -> Result<UrlView, ProxyErrorView> {
    match r {
        Ok(url) => Ok(url@),
        Err(e) => Err(e@),
    }
}

/// A parsed URL is usable in a request only if it has a host.
pub open spec fn usable_url(url: UrlView) -> Result<UrlView, ProxyErrorView> {
    if url.has_host {
        Ok(url)
    } else {
        Err(bad_scheme_error(url))
    }
}

/// The URL that a text stands for: it must parse, and must have a host.
pub open spec fn url_of_text(text: Seq<char>) -> Result<UrlView, ProxyErrorView> {
    match url_parsed(text) {
        Ok(url) => usable_url(url),
        Err(e) => Err(builder_error(ErrorSource::UrlParse(e))),
    }
}

/// Values that can be turned into a URL that a request can be sent to.
pub trait IntoUrlSealed: Sized {
    /// The value as text.
    spec fn text(&self) -> Seq<char>;

    /// The URL that the value stands for, or why it stands for none.
    spec fn url(&self) -> Result<UrlView, ProxyErrorView>;

    /// Besides being a URL, the value must have a host, so that it makes
    /// sense to send a request to it.
    fn into_url(self) -> (r: Result<Url, ProxyError>)
        ensures
            url_result_view(r) == self.url(),
    ;

    /// The value as text.
    fn as_str(&self) -> (s: &str)
        ensures
            s@ == self.text(),
    ;
}

impl IntoUrlSealed for Url {
    open spec fn text(&self) -> Seq<char> {
        self.serialization@
    }

    open spec fn url(&self) -> Result<UrlView, ProxyErrorView> {
        usable_url(self@)
    }

    fn into_url(self) -> (r: Result<Url, ProxyError>) {
        if self.has_host {
            Ok(self)
        } else {
            Err(url_bad_scheme(self))
        }
    }

    fn as_str(&self) -> (s: &str) {
        self.serialization.as_str()
    }
}

impl<'a> IntoUrlSealed for &'a str {
    open spec fn text(&self) -> Seq<char> {
        self@
    }

    open spec fn url(&self) -> Result<UrlView, ProxyErrorView> {
        url_of_text(self@)
    }

    fn into_url(self) -> (r: Result<Url, ProxyError>) {
        match parse_url(self) {
            Ok(url) => url.into_url(),
            Err(e) => Err(builder(ErrorSource::UrlParse(e))),
        }
    }

    fn as_str(&self) -> (s: &str) {
        self
    }
}

} // verus!
