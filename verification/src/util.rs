//! Small pieces that the rest of the crate shares: the scheme prefix of an
//! address and the value of a Basic authentication header.

use crate::bindings::{
    base64_standard, base64_standard_bytes, base64_standard_decode, base64_standard_text, utf8_text,
};
use crate::system::Environment;
use crate::text::{chars_of, first_index, index_from, lemma_first_index_is};
use vstd::prelude::*;
use vstd::string::*;
use vstd::utf8::{decode_utf8, encode_utf8, encode_utf8_decode_utf8, encode_utf8_valid_utf8, valid_utf8};

verus! {

/// Whether `address` begins with a scheme of `len` characters: a run, not
/// empty, without `:` or `/`, and right after it `://`.
pub open spec fn has_type_prefix(address: Seq<char>, len: int) -> bool {
    &&& 0 < len
    &&& len + 3 <= address.len()
    &&& address[len] == ':'
    &&& address[len + 1] == '/'
    &&& address[len + 2] == '/'
    &&& forall|j: int| 0 <= j < len ==> address[j] != ':' && address[j] != '/'
}

/// The scheme that `address` names in front of `://`, if it names one.
pub open spec fn type_prefix(address: Seq<char>) -> Option<Seq<char>> {
    if exists|len: int| has_type_prefix(address, len) {
        Some(address.take(choose|len: int| has_type_prefix(address, len)))
    } else {
        None
    }
}

/// An address has at most one scheme prefix.
pub proof fn lemma_type_prefix_unique(address: Seq<char>, a: int, b: int)
    requires
        has_type_prefix(address, a),
        has_type_prefix(address, b),
    ensures
        a == b,
{
}

/// What a Basic authentication header begins with.
pub open spec fn basic_prefix() -> Seq<char> {
    seq!['B', 'a', 's', 'i', 'c', ' ']
}

/// The password, or the empty text where there is none.
pub open spec fn secret(password: Option<Seq<char>>) -> Seq<char> {
    match password {
        Some(p) => p,
        None => Seq::empty(),
    }
}

/// The value of a Basic authentication header for the given credentials:
/// the word `Basic`, a blank, and the base64 text of `username:password` in
/// UTF-8. Without a password nothing follows the colon.
pub open spec fn basic_auth_text(username: Seq<char>, password: Option<Seq<char>>) -> Seq<char> {
    basic_prefix() + base64_standard_text(encode_utf8(username + seq![':'] + secret(password)))
}

/// User name and password that a text gives when it is split at its first
/// colon.
pub open spec fn split_credentials(text: Seq<char>) -> Option<(Seq<char>, Seq<char>)> {
    let at = first_index(text, ':') as int;
    if at < text.len() {
        Some((text.take(at), text.skip(at + 1)))
    } else {
        None
    }
}

/// The credentials that the value of a Basic authentication header carries:
/// what follows `Basic ` is decoded from base64 and read as UTF-8, and the
/// first colon parts user name and password.
pub open spec fn basic_auth_credentials(header: Seq<char>) -> Option<(Seq<char>, Seq<char>)> {
    if basic_prefix().is_prefix_of(header) {
        match base64_standard_bytes(header.skip(6)) {
            Some(bytes) => if valid_utf8(bytes) {
                split_credentials(decode_utf8(bytes))
            } else {
                None
            },
            None => None,
        }
    } else {
        None
    }
}

/// A user name without a colon and a password, written with a colon between
/// them, are what splitting at the first colon gives back.
pub proof fn lemma_split_credentials(username: Seq<char>, password: Seq<char>)
    requires
        !username.contains(':'),
    ensures
        split_credentials(username + seq![':'] + password) == Some((username, password)),
{
    let text = username + seq![':'] + password;
    let at = username.len() as int;
    assert forall|j: int| 0 <= j < at implies text[j] != ':' by {
        assert(text[j] == username[j]);
        if username[j] == ':' {
            assert(username.contains(':'));
        }
    }
    assert(text[at] == ':');
    lemma_first_index_is(text, ':', at);
    assert(text.take(at) == username);
    assert(text.skip(at + 1) == password);
}

/// The scheme in front of `://` in `address`, where the text before the
/// first `://` is not empty and holds neither `:` nor `/`.
pub fn extract_type_prefix(address: &str) -> (prefix: Option<&str>)
    ensures
        match prefix {
            Some(p) => type_prefix(address@) == Some(p@),
            None => type_prefix(address@) is None,
        },
{
    let chars = chars_of(address);
    let n = chars.len();
    let mut i: usize = 0;
    while i < n && chars[i] != ':' && chars[i] != '/'
        invariant
            i <= n,
            n == chars.len(),
            forall|j: int| 0 <= j < i ==> chars@[j] != ':' && chars@[j] != '/',
        decreases n - i,
    {
        i += 1;
    }
    if 0 < i && n - i >= 3 && chars[i] == ':' && chars[i + 1] == '/' && chars[i + 2] == '/' {
        assert(has_type_prefix(address@, i as int));
        proof {
            let len = choose|len: int| has_type_prefix(address@, len);
            lemma_type_prefix_unique(address@, i as int, len);
        }
        Some(address.substring_char(0, i))
    } else {
        assert forall|len: int| !has_type_prefix(address@, len) by {
            if has_type_prefix(address@, len) {
                if len < i {
                    assert(chars@[len] != ':');
                } else if len > i {
                    assert(i < n);
                    assert(chars@[i as int] == ':' || chars@[i as int] == '/');
                }
            }
        }
        None
    }
}

/// The view of a password that may be there.
pub open spec fn password_view(password: Option<&str>) -> Option<Seq<char>> {
    match password {
        Some(p) => Some(p@),
        None => None,
    }
}

/// The value of a Basic authentication header for a user name and, where
/// there is one, a password. Decoded, the header gives the same user name
/// and password back, unless the user name holds a colon.
pub fn basic_auth(username: &str, password: Option<&str>) -> (header: String)
    ensures
        header@ == basic_auth_text(username@, password_view(password)),
        !username@.contains(':') ==> basic_auth_credentials(header@) == Some(
            (username@, secret(password_view(password))),
        ),
{
    let mut credentials = String::from_str(username);
    credentials.append(":");
    if let Some(p) = password {
        credentials.append(p);
    }
    proof {
        reveal_strlit(":");
        reveal_strlit("Basic ");
        assert(":"@ == seq![':']);
        assert("Basic "@ == basic_prefix());
        assert(username@ + seq![':'] + Seq::<char>::empty() == username@ + seq![':']);
    }
    let encoded = base64_standard(credentials.as_str().as_bytes());
    let header = String::from_str("Basic ").concat(encoded.as_str());
    proof {
        assert(header@.skip(6) == encoded@);
        encode_utf8_valid_utf8(credentials@);
        encode_utf8_decode_utf8(credentials@);
        if !username@.contains(':') {
            lemma_split_credentials(username@, secret(password_view(password)));
        }
    }
    header
}

/// The value of a Basic authentication header for a user name and a
/// password. Decoded, the header gives the same user name and password
/// back, unless the user name holds a colon.
pub fn encode_basic_auth(username: &str, password: &str) -> (header: String)
    ensures
        header@ == basic_auth_text(username@, Some(password@)),
        !username@.contains(':') ==> basic_auth_credentials(header@) == Some(
            (username@, password@),
        ),
{
    basic_auth(username, Some(password))
}

/// User name and password that the value of a Basic authentication header
/// carries, if it is such a value.
pub fn decode_basic_auth(header: &str) -> (credentials: Option<(String, String)>)
    ensures
        match credentials {
            Some((username, password)) => basic_auth_credentials(header@) == Some(
                (username@, password@),
            ),
            None => basic_auth_credentials(header@) is None,
        },
{
    let chars = chars_of(header);
    let n = chars.len();
    if !(n >= 6 && chars[0] == 'B' && chars[1] == 'a' && chars[2] == 's' && chars[3] == 'i'
        && chars[4] == 'c' && chars[5] == ' ') {
        assert(!basic_prefix().is_prefix_of(header@)) by {
            if basic_prefix().is_prefix_of(header@) {
                assert(header@.subrange(0, 6) == basic_prefix());
                assert(forall|j: int| 0 <= j < 6 ==> header@[j] == header@.subrange(0, 6)[j]);
            }
        }
        return None;
    }
    assert(basic_prefix().is_prefix_of(header@)) by {
        assert(header@.subrange(0, 6) =~= basic_prefix());
    }
    let encoded = header.substring_char(6, n);
    assert(encoded@ == header@.skip(6));
    let bytes = match base64_standard_decode(encoded) {
        Some(bytes) => bytes,
        None => {
            return None;
        },
    };
    let text = match utf8_text(bytes) {
        Some(text) => text,
        None => {
            return None;
        },
    };
    let letters = chars_of(text.as_str());
    let at = index_from(&letters, 0, ':');
    assert(letters@.skip(0) == letters@);
    if at < letters.len() {
        let username = String::from_str(text.as_str().substring_char(0, at));
        let password = String::from_str(text.as_str().substring_char(at + 1, letters.len()));
        assert(username@ == text@.take(at as int));
        assert(password@ == text@.skip(at + 1));
        Some((username, password))
    } else {
        None
    }
}

/// Whether the process runs as a CGI program, which it does where
/// `REQUEST_METHOD` is set. `HTTP_PROXY` cannot be trusted there: a request
/// header of that name would set it.
pub fn is_cgi(env: &Environment) -> (cgi: bool)
    ensures
        cgi == env@.request_method,
{
    env.request_method
}

} // verus!
