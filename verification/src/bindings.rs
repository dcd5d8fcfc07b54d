//! The calls this crate makes into the crates it builds on.
//!
//! Nothing in this module is proved. Each function states what its crate's
//! source and documentation say of the call it makes, and the rest of the
//! crate is verified against those statements.

use crate::into_url::{Url, UrlParseError, UrlView};
use crate::system::SystemProxyMap;
use arc_swap::ArcSwapOption;
use base64::prelude::{Engine, BASE64_STANDARD};
use base64::write::EncoderWriter;
use percent_encoding::percent_decode;
use std::io::Write;
use std::str::FromStr;
use std::sync::Arc;
use url::Position;
use vstd::prelude::*;
use vstd::utf8::{decode_utf8, valid_utf8};

verus! {

/// What `url::Url::parse` makes of a text: the parts of the URL, or the
/// reason for the refusal. The URL standard's parsing algorithm decides it.
pub uninterp spec fn url_parsed(input: Seq<char>) -> Result<UrlView, UrlParseError>;

/// The view of what [`parse_url`] returns.
pub open spec fn parsed_view(parsed: Result<Url, UrlParseError>) -> Result<UrlView, UrlParseError> {
    match parsed {
        Ok(url) => Ok(url@),
        Err(e) => Err(e),
    }
}

/// Calls `url::Url::parse` and copies out of the URL what this crate reads:
/// `as_str`, `scheme`, `username`, `password`, the slice from
/// `Position::BeforeHost` to `Position::AfterPort`, and `has_host`. Of the
/// parser's errors only `RelativeUrlWithoutBase` is told apart. The contract
/// claims no more than that the outcome is a function of the text.
#[verifier::external_body]
pub(crate) fn parse_url(input: &str) -> (parsed: Result<Url, UrlParseError>)
    ensures
        parsed_view(parsed) == url_parsed(input@),
{
    match url::Url::parse(input) {
        Ok(u) => Ok(Url {
            serialization: u.as_str().to_string(),
            scheme: u.scheme().to_string(),
            username: u.username().to_string(),
            password: u.password().map(str::to_string),
            host_port: u[Position::BeforeHost..Position::AfterPort].to_string(),
            has_host: u.has_host(),
        }),
        Err(url::ParseError::RelativeUrlWithoutBase) => Err(UrlParseError::RelativeUrlWithoutBase),
        Err(_) => Err(UrlParseError::Malformed),
    }
}

/// The text that the standard base64 alphabet, with padding, gives for
/// `input`.
pub uninterp spec fn base64_standard_text(input: Seq<u8>) -> Seq<char>;

/// The bytes that a text stands for in the standard base64 alphabet with
/// padding, if it is such a text.
pub uninterp spec fn base64_standard_bytes(text: Seq<char>) -> Option<Seq<u8>>;

/// The view of bytes that may be there.
pub open spec fn bytes_view(bytes: Option<Vec<u8>>) -> Option<Seq<u8>> {
    match bytes {
        Some(b) => Some(b@),
        None => None,
    }
}

/// Writes `input` through a `base64::write::EncoderWriter` over the engine
/// `BASE64_STANDARD` into a byte vector, lets the writer finish as it is
/// dropped, and hands the vector on as text. By the crate's documentation the
/// vector then holds the base64 encoding of all of `input`, which is ASCII.
/// The contract also claims that the same engine decodes that text to the
/// bytes that went in: encoding and decoding are inverse to each other, as
/// RFC 4648 defines them and as the crate's round-trip tests check.
#[verifier::external_body]
pub(crate) fn base64_standard(input: &[u8]) -> (text: String)
    ensures
        text@ == base64_standard_text(input@),
        base64_standard_bytes(text@) == Some(input@),
{
    let mut encoded: Vec<u8> = Vec::new();
    {
        let mut encoder = EncoderWriter::new(&mut encoded, &BASE64_STANDARD);
        let _ = encoder.write_all(input);
    }
    String::from_utf8(encoded).unwrap_or_default()
}

/// Calls `decode` of the engine `BASE64_STANDARD`. A text that the engine
/// refuses gives `None`.
#[verifier::external_body]
pub(crate) fn base64_standard_decode(text: &str) -> (bytes: Option<Vec<u8>>)
    ensures
        bytes_view(bytes) == base64_standard_bytes(text@),
{
    match BASE64_STANDARD.decode(text) {
        Ok(bytes) => Some(bytes),
        Err(_) => None,
    }
}

/// Calls `String::from_utf8`: the text that the bytes encode, if they are
/// valid UTF-8.
#[verifier::external_body]
pub(crate) fn utf8_text(bytes: Vec<u8>) -> (text: Option<String>)
    ensures
        text is Some == valid_utf8(bytes@),
        text matches Some(t) ==> t@ == decode_utf8(bytes@),
{
    match String::from_utf8(bytes) {
        Ok(text) => Some(text),
        Err(_) => None,
    }
}

/// Whether `http::uri::Authority` accepts `text`: the rules of the `http`
/// crate for what may stand between `//` and the path of a URI.
pub uninterp spec fn is_authority(text: Seq<char>) -> bool;

/// Calls `http::uri::Authority::from_str` and hands back the accepted
/// authority as text (`Authority::as_str`). The contract claims that the
/// crate keeps an accepted text as it was given, and that whether a text is
/// accepted depends on the text alone.
#[verifier::external_body]
pub(crate) fn parse_authority(text: &str) -> (authority: Option<String>)
    ensures
        authority is Some == is_authority(text@),
        authority matches Some(a) ==> a@ == text@,
{
    match http::uri::Authority::from_str(text) {
        Ok(authority) => Some(authority.as_str().to_string()),
        Err(_) => None,
    }
}

/// What percent-decoding makes of `text`: each `%` that two hexadecimal
/// digits follow gives the byte they name, every other byte stays, and the
/// bytes are read as UTF-8 with U+FFFD in place of what is not UTF-8.
pub uninterp spec fn percent_decoded(text: Seq<char>) -> Seq<char>;

/// Calls `percent_encoding::percent_decode` on the bytes of `text` and then
/// `decode_utf8_lossy` on what it returns. The contract claims no more than
/// that the outcome is a function of the text.
#[verifier::external_body]
pub(crate) fn percent_decode_lossy(text: &str) -> (decoded: String)
    ensures
        decoded@ == percent_decoded(text@),
{
    percent_decode(text.as_bytes()).decode_utf8_lossy().into_owned()
}

/// Calls `Arc::clone`: another handle to the value that `value` points to.
#[verifier::external_body]
pub(crate) fn share<T>(value: &Arc<T>) -> (handle: Arc<T>)
    ensures
        handle == *value,
{
    Arc::clone(value)
}

/// A cell that holds the current snapshot of the platform's proxy settings,
/// or nothing: an `arc_swap::ArcSwapOption`. Every holder of a shared
/// reference may read it and may store into it, at any time and without
/// waiting for the others. What it holds is therefore no function of the
/// cell as a value, and no contract speaks of it.
#[verifier::external_body]
pub struct SharedProxyCache {
    cell: ArcSwapOption<SystemProxyMap>,
}

impl SharedProxyCache {
    /// Calls `ArcSwapOption::empty`: a cell that holds nothing.
    #[verifier::external_body]
    pub(crate) fn empty() -> (shared: SharedProxyCache) {
        SharedProxyCache { cell: ArcSwapOption::empty() }
    }

    /// Calls `ArcSwapAny::load_full`: a handle to what the cell holds at the
    /// moment of the call.
    #[verifier::external_body]
    pub(crate) fn load(&self) -> (snapshot: Option<Arc<SystemProxyMap>>) {
        self.cell.load_full()
    }

    /// Calls `ArcSwapAny::store`: loads from now on see `snapshot`, until the
    /// next store.
    #[verifier::external_body]
    pub(crate) fn store(&self, snapshot: Option<Arc<SystemProxyMap>>) {
        self.cell.store(snapshot)
    }
}

} // verus!
