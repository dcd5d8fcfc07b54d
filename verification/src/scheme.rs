//! Proxy addresses: what a validated address holds, and how a text becomes
//! one.

use crate::bindings::{is_authority, parse_authority, percent_decode_lossy, percent_decoded};
use crate::error::{builder, builder_error, ErrorSource, ProxyError, ProxyErrorView};
use crate::into_url::{url_of_text, IntoUrlSealed, Url, UrlParseError, UrlView};
use crate::text::{same_text, text_view};
use crate::util::{basic_auth_credentials, basic_auth_text, encode_basic_auth};
use vstd::prelude::*;
use vstd::string::*;

verus! {

/// A proxy to send requests through: the scheme to speak to it, its
/// authority (`host` or `host:port`), and the value of the authentication
/// header to send to it, if any.
#[derive(Debug, PartialEq, Eq)]
pub enum ProxyScheme {
    Http { auth: Option<String>, host: String },
    Https { auth: Option<String>, host: String },
}

/// The mathematical value of a [`ProxyScheme`].
pub enum ProxySchemeView {
    Http { auth: Option<Seq<char>>, host: Seq<char> },
    Https { auth: Option<Seq<char>>, host: Seq<char> },
}

impl ProxySchemeView {
    /// The proxy's authority.
    pub open spec fn host(self) -> Seq<char> {
        match self {
            ProxySchemeView::Http { host, .. } => host,
            ProxySchemeView::Https { host, .. } => host,
        }
    }

    /// The value of the authentication header, if there is one.
    pub open spec fn auth(self) -> Option<Seq<char>> {
        match self {
            ProxySchemeView::Http { auth, .. } => auth,
            ProxySchemeView::Https { auth, .. } => auth,
        }
    }

    /// The same proxy with another authentication header.
    pub open spec fn with_auth(self, auth: Option<Seq<char>>) -> ProxySchemeView {
        match self {
            ProxySchemeView::Http { host, .. } => ProxySchemeView::Http { auth, host },
            ProxySchemeView::Https { host, .. } => ProxySchemeView::Https { auth, host },
        }
    }

    /// The same proxy, with `update` as its authentication header if it had
    /// none.
    pub open spec fn or_auth(self, update: Option<Seq<char>>) -> ProxySchemeView {
        if self.auth() is None {
            self.with_auth(update)
        } else {
            self
        }
    }

    /// The invariant of a proxy address: its authority is one.
    pub open spec fn wf(self) -> bool {
        is_authority(self.host())
    }
}

impl View for ProxyScheme {
    type V = ProxySchemeView;

    open spec fn view(&self) -> ProxySchemeView {
        match self {
            ProxyScheme::Http { auth, host } => ProxySchemeView::Http {
                auth: text_view(*auth),
                host: host@,
            },
            ProxyScheme::Https { auth, host } => ProxySchemeView::Https {
                auth: text_view(*auth),
                host: host@,
            },
        }
    }
}

/// The view of a proxy address or of the error that stands in its place.
pub open spec fn scheme_result_view(r: Result<ProxyScheme, ProxyError>) -> Result<
    ProxySchemeView,
    ProxyErrorView,
> {
    match r {
        Ok(scheme) => Ok(scheme@),
        Err(e) => Err(e@),
    }
}

/// The proxy that speaks plain HTTP at `host`, if `host` is an authority.
pub open spec fn http_proxy(host: Seq<char>) -> Result<ProxySchemeView, ProxyErrorView> {
    if is_authority(host) {
        Ok(ProxySchemeView::Http { auth: None, host })
    } else {
        Err(builder_error(ErrorSource::InvalidAuthority))
    }
}

/// The proxy that speaks HTTPS at `host`, if `host` is an authority.
pub open spec fn https_proxy(host: Seq<char>) -> Result<ProxySchemeView, ProxyErrorView> {
    if is_authority(host) {
        Ok(ProxySchemeView::Https { auth: None, host })
    } else {
        Err(builder_error(ErrorSource::InvalidAuthority))
    }
}

/// The authentication header that the user-info of a URL asks for. Only a
/// URL with a password carries credentials; user name and password are
/// percent-decoded before they are encoded for the header.
pub open spec fn url_auth(url: UrlView) -> Option<Seq<char>> {
    match url.password {
        Some(password) => Some(
            basic_auth_text(percent_decoded(url.username), Some(percent_decoded(password))),
        ),
        None => None,
    }
}

/// The proxy that a URL names. Only scheme, host, port and credentials of
/// the URL count; a scheme other than `http` and `https` is refused.
pub open spec fn proxy_of_url(url: UrlView) -> Result<ProxySchemeView, ProxyErrorView> {
    let plain = if url.scheme == "http"@ {
        http_proxy(url.host_port)
    } else if url.scheme == "https"@ {
        https_proxy(url.host_port)
    } else {
        Err(builder_error(ErrorSource::UnsupportedScheme))
    };
    match plain {
        Ok(proxy) => Ok(
            match url_auth(url) {
                Some(header) => proxy.with_auth(Some(header)),
                None => proxy,
            },
        ),
        Err(e) => Err(e),
    }
}

/// Whether an error says that the text may only lack its scheme: it was a
/// relative URL, or what stood in front of its first colon was no scheme of
/// a URL with a host.
pub open spec fn may_lack_scheme(e: ProxyErrorView) -> bool {
    e.source == Some(ErrorSource::UrlParse(UrlParseError::RelativeUrlWithoutBase)) || e.source
        == Some(ErrorSource::BadScheme)
}

/// `address` with `http://` in front of it.
pub open spec fn with_http_scheme(address: Seq<char>) -> Seq<char> {
    "http://"@ + address
}

/// The URL that an address is read as. Where the address is no URL only
/// for want of a scheme, it is read once more with `http://` in front. The
/// error is always that of the first reading.
pub open spec fn address_url(address: Seq<char>) -> Result<UrlView, ProxyErrorView> {
    match url_of_text(address) {
        Ok(url) => Ok(url),
        Err(e) => if may_lack_scheme(e) {
            match url_of_text(with_http_scheme(address)) {
                Ok(url) => Ok(url),
                Err(_) => Err(e),
            }
        } else {
            Err(e)
        },
    }
}

/// The proxy that an address names: that of the URL it is read as.
pub open spec fn validated(address: Seq<char>) -> Result<ProxySchemeView, ProxyErrorView> {
    match address_url(address) {
        Ok(url) => proxy_of_url(url),
        Err(e) => Err(e),
    }
}

/// User name and password that the user-info of a URL carries, both
/// percent-decoded. Only a URL with a password carries credentials.
pub open spec fn url_credentials(url: UrlView) -> Option<(Seq<char>, Seq<char>)> {
    match url.password {
        Some(password) => Some((percent_decoded(url.username), percent_decoded(password))),
        None => None,
    }
}

/// Whether the authentication header of `proxy`, when decoded, gives
/// `credentials`.
pub open spec fn carries(proxy: ProxySchemeView, credentials: (Seq<char>, Seq<char>)) -> bool {
    proxy.auth() matches Some(header) && basic_auth_credentials(header) == Some(credentials)
}

/// Whether `proxy`, made from `url`, gives back the credentials of `url`
/// when its authentication header is decoded. Nothing is asked where the
/// URL carries no credentials, nor where the user name, percent-decoded,
/// holds a colon: the header parts user name and password at its first
/// colon.
pub open spec fn keeps_credentials(proxy: ProxySchemeView, url: UrlView) -> bool {
    url_credentials(url) matches Some(credentials) ==> credentials.0.contains(':') || carries(
        proxy,
        credentials,
    )
}

/// A proxy that validation accepted holds an authority.
pub proof fn lemma_validated_wf(address: Seq<char>)
    ensures
        validated(address) matches Ok(proxy) ==> proxy.wf(),
{
}

impl Clone for ProxyScheme {
    fn clone(&self) -> (copy: Self)
        ensures
            copy == *self,
    {
        match self {
            ProxyScheme::Http { auth, host } => ProxyScheme::Http {
                auth: match auth {
                    Some(a) => Some(a.clone()),
                    None => None,
                },
                host: host.clone(),
            },
            ProxyScheme::Https { auth, host } => ProxyScheme::Https {
                auth: match auth {
                    Some(a) => Some(a.clone()),
                    None => None,
                },
                host: host.clone(),
            },
        }
    }
}

impl ProxyScheme {
    /// The invariant of a proxy address: its authority is one.
    pub open spec fn wf(&self) -> bool {
        self@.wf()
    }

    /// Proxy traffic via the specified authority over HTTP.
    pub fn http(host: &str) -> (r: Result<ProxyScheme, ProxyError>)
        ensures
            scheme_result_view(r) == http_proxy(host@),
    {
        match parse_authority(host) {
            Some(authority) => Ok(ProxyScheme::Http { auth: None, host: authority }),
            None => Err(builder(ErrorSource::InvalidAuthority)),
        }
    }

    /// Proxy traffic via the specified authority over HTTPS.
    pub fn https(host: &str) -> (r: Result<ProxyScheme, ProxyError>)
        ensures
            scheme_result_view(r) == https_proxy(host@),
    {
        match parse_authority(host) {
            Some(authority) => Ok(ProxyScheme::Https { auth: None, host: authority }),
            None => Err(builder(ErrorSource::InvalidAuthority)),
        }
    }

    /// Use a username and password when connecting to the proxy server.
    pub fn with_basic_auth(self, username: &str, password: &str) -> (r: ProxyScheme)
        ensures
            r@ == self@.with_auth(Some(basic_auth_text(username@, Some(password@)))),
            !username@.contains(':') ==> carries(r@, (username@, password@)),
    {
        let mut scheme = self;
        scheme.set_basic_auth(username, password);
        scheme
    }

    /// Replaces the authentication header by the one for `username` and
    /// `password`.
    pub fn set_basic_auth(&mut self, username: &str, password: &str)
        ensures
            final(self)@ == old(self)@.with_auth(Some(basic_auth_text(username@, Some(password@)))),
            !username@.contains(':') ==> carries(final(self)@, (username@, password@)),
    {
        let header = encode_basic_auth(username, password);
        self.set_custom_http_auth(header);
    }

    /// Replaces the authentication header by `header_value`.
    pub fn set_custom_http_auth(&mut self, header_value: String)
        ensures
            final(self)@ == old(self)@.with_auth(Some(header_value@)),
    {
        match self {
            ProxyScheme::Http { auth, .. } => {
                *auth = Some(header_value);
            },
            ProxyScheme::Https { auth, .. } => {
                *auth = Some(header_value);
            },
        }
    }

    /// Takes `update` as the authentication header where there was none.
    pub fn if_no_auth(self, update: &Option<String>) -> (r: ProxyScheme)
        ensures
            r@ == self@.or_auth(text_view(*update)),
    {
        let mut scheme = self;
        let missing = match &scheme {
            ProxyScheme::Http { auth, .. } => auth.is_none(),
            ProxyScheme::Https { auth, .. } => auth.is_none(),
        };
        if missing {
            if let Some(header) = update {
                scheme.set_custom_http_auth(header.clone());
            }
        }
        scheme
    }

    /// Convert a URL into a proxy scheme.
    ///
    /// Supported schemes: HTTP, HTTPS. Path, query and fragment of the URL
    /// are left behind.
    pub fn parse(url: Url) -> (r: Result<ProxyScheme, ProxyError>)
        ensures
            scheme_result_view(r) == proxy_of_url(url@),
            r matches Ok(proxy) ==> proxy.wf() && keeps_credentials(proxy@, url@),
    {
        let plain = if same_text(url.scheme.as_str(), "http") {
            ProxyScheme::http(url.host_port.as_str())
        } else if same_text(url.scheme.as_str(), "https") {
            ProxyScheme::https(url.host_port.as_str())
        } else {
            Err(builder(ErrorSource::UnsupportedScheme))
        };
        let mut scheme = match plain {
            Ok(scheme) => scheme,
            Err(e) => {
                return Err(e);
            },
        };
        if let Some(password) = &url.password {
            let decoded_username = percent_decode_lossy(url.username.as_str());
            let decoded_password = percent_decode_lossy(password.as_str());
            scheme = scheme.with_basic_auth(decoded_username.as_str(), decoded_password.as_str());
        }
        Ok(scheme)
    }
}

/// Values that name a proxy.
pub trait IntoProxyScheme: Sized {
    /// The address as text.
    spec fn address(&self) -> Seq<char>;

    /// The proxy that the address names, or the reason why it names none.
    /// Where the address carries credentials, the authentication header of
    /// the proxy gives them back when it is decoded.
    fn into_proxy_scheme(self) -> (r: Result<ProxyScheme, ProxyError>)
        ensures
            scheme_result_view(r) == validated(self.address()),
            r matches Ok(proxy) ==> proxy.wf() && (address_url(self.address()) matches Ok(url)
                && keeps_credentials(proxy@, url)),
    ;
}

impl<'a> IntoProxyScheme for &'a str {
    open spec fn address(&self) -> Seq<char> {
        self@
    }

    fn into_proxy_scheme(self) -> (r: Result<ProxyScheme, ProxyError>) {
        let url = match self.into_url() {
            Ok(url) => url,
            Err(e) => {
                let retry = match e.source {
                    Some(ErrorSource::UrlParse(UrlParseError::RelativeUrlWithoutBase)) => true,
                    Some(ErrorSource::BadScheme) => true,
                    _ => false,
                };
                if !retry {
                    return Err(e);
                }
                // the issue could have been caused by a missing scheme, so we try adding http://
                let try_this = String::from_str("http://").concat(self);
                match try_this.as_str().into_url() {
                    Ok(url) => url,
                    Err(_) => {
                        return Err(e);
                    },
                }
            },
        };
        ProxyScheme::parse(url)
    }
}

impl IntoProxyScheme for String {
    open spec fn address(&self) -> Seq<char> {
        self@
    }

    fn into_proxy_scheme(self) -> (r: Result<ProxyScheme, ProxyError>) {
        self.as_str().into_proxy_scheme()
    }
}

impl IntoProxyScheme for Url {
    open spec fn address(&self) -> Seq<char> {
        self.serialization@
    }

    fn into_proxy_scheme(self) -> (r: Result<ProxyScheme, ProxyError>) {
        self.serialization.as_str().into_proxy_scheme()
    }
}

} // verus!
