//! The errors of this crate.

use crate::into_url::{Url, UrlParseError, UrlView};
use vstd::prelude::*;
use vstd::string::*;

verus! {

/// What an error is about.
#[derive(Clone, Copy, Debug, PartialEq, Eq, Structural)]
pub enum Kind {
    Builder,
    Request,
    Redirect,
    Body,
    Decode,
    Upgrade,
}

/// What caused an error.
#[derive(Clone, Copy, Debug, PartialEq, Eq, Structural)]
pub enum ErrorSource {
    /// The text is not a URL.
    UrlParse(UrlParseError),
    /// The URL has no host, so its scheme cannot be used for a request.
    BadScheme,
    /// Host and port of the URL do not form an authority.
    InvalidAuthority,
    /// The proxy's own scheme is neither `http` nor `https`.
    UnsupportedScheme,
}

/// An error of proxy resolution.
#[derive(Debug, PartialEq, Eq)]
pub struct ProxyError {
    pub kind: Kind,
    pub source: Option<ErrorSource>,
    pub url: Option<Url>,
}

/// The mathematical value of a [`ProxyError`].
pub struct ProxyErrorView {
    pub kind: Kind,
    pub source: Option<ErrorSource>,
    pub url: Option<UrlView>,
}

impl View for ProxyError {
    type V = ProxyErrorView;

    open spec fn view(&self) -> ProxyErrorView {
        ProxyErrorView {
            kind: self.kind,
            source: self.source,
            url: match self.url {
                Some(u) => Some(u@),
                None => None,
            },
        }
    }
}

/// The platform could not report its proxy settings.
#[derive(Debug, PartialEq, Eq)]
pub struct PlatformFetchError {
    /// The platform's own description of the failure.
    pub message: String,
}

/// The words that describe a kind of error.
pub open spec fn kind_text(kind: Kind) -> Seq<char> {
    match kind {
        Kind::Builder => "builder error"@,
        Kind::Request => "error sending request"@,
        Kind::Body => "request or response body error"@,
        Kind::Decode => "error decoding response body"@,
        Kind::Redirect => "error following redirect"@,
        Kind::Upgrade => "error upgrading connection"@,
    }
}

/// The text that describes an error: its kind, then the URL it is about
/// where it has one.
pub open spec fn error_text(e: ProxyErrorView) -> Seq<char> {
    match e.url {
        Some(u) => kind_text(e.kind) + " for url ("@ + u.serialization + ")"@,
        None => kind_text(e.kind),
    }
}

/// An error of kind `Builder` with the given cause and no URL.
pub open spec fn builder_error(source: ErrorSource) -> ProxyErrorView {
    ProxyErrorView { kind: Kind::Builder, source: Some(source), url: None }
}

/// The error for a URL that has no host.
pub open spec fn bad_scheme_error(url: UrlView) -> ProxyErrorView {
    ProxyErrorView { kind: Kind::Builder, source: Some(ErrorSource::BadScheme), url: Some(url) }
}

impl ProxyError {
    /// An error of the given kind and cause, about no URL in particular.
    pub fn new(kind: Kind, source: Option<ErrorSource>) -> (e: ProxyError)
        ensures
            e@ == (ProxyErrorView { kind, source, url: None }),
    {
        ProxyError { kind, source, url: None }
    }

    /// The same error, now about `url`.
    pub fn with_url(self, url: Url) -> (e: ProxyError)
        ensures
            e@ == (ProxyErrorView { url: Some(url@), ..self@ }),
    {
        ProxyError { kind: self.kind, source: self.source, url: Some(url) }
    }

    /// The text that describes this error.
    pub fn message(&self) -> (text: String)
        ensures
            text@ == error_text(self@),
    {
        let kind = match self.kind {
            Kind::Builder => "builder error",
            Kind::Request => "error sending request",
            Kind::Body => "request or response body error",
            Kind::Decode => "error decoding response body",
            Kind::Redirect => "error following redirect",
            Kind::Upgrade => "error upgrading connection",
        };
        let mut text = String::from_str(kind);
        if let Some(url) = &self.url {
            text.append(" for url (");
            text.append(url.serialization.as_str());
            text.append(")");
        }
        text
    }
}

/// An error of kind `Builder` with the given cause.
pub fn builder(source: ErrorSource) -> (e: ProxyError)
    ensures
        e@ == builder_error(source),
{
    ProxyError::new(Kind::Builder, Some(source))
}

/// The error for a URL that has no host.
pub fn url_bad_scheme(url: Url) -> (e: ProxyError)
    ensures
        e@ == bad_scheme_error(url@),
{
    ProxyError::new(Kind::Builder, Some(ErrorSource::BadScheme)).with_url(url)
}

} // verus!
