use system_proxy::error::{builder, url_bad_scheme, ErrorSource, Kind, ProxyError};
use system_proxy::into_url::{Url, UrlParseError};
use system_proxy::system::Environment;
use system_proxy::text::{chars_of, is_blank, is_whitespace_char, same_text};
use system_proxy::util::{basic_auth, decode_basic_auth, encode_basic_auth, extract_type_prefix, is_cgi};

#[test]
fn type_prefix_is_what_stands_before_the_separator() {
    assert_eq!(extract_type_prefix("http://proxy.example:8080"), Some("http"));
    assert_eq!(extract_type_prefix("socks5://host"), Some("socks5"));
    assert_eq!(extract_type_prefix("x://"), Some("x"));
    assert_eq!(extract_type_prefix("é://host"), Some("é"));
}

#[test]
fn type_prefix_must_not_be_empty() {
    assert_eq!(extract_type_prefix("://host"), None);
}

#[test]
fn type_prefix_holds_no_colon_or_slash() {
    assert_eq!(extract_type_prefix("a:b://host"), None);
    assert_eq!(extract_type_prefix("a/b://host"), None);
    assert_eq!(extract_type_prefix("host:8080/x://y"), None);
}

#[test]
fn no_separator_no_type_prefix() {
    assert_eq!(extract_type_prefix(""), None);
    assert_eq!(extract_type_prefix("proxy.example:8080"), None);
    assert_eq!(extract_type_prefix("http:/host"), None);
    assert_eq!(extract_type_prefix("http:"), None);
    assert_eq!(extract_type_prefix("http:/"), None);
    assert_eq!(extract_type_prefix("http"), None);
}

#[test]
fn basic_auth_encodes_user_and_password() {
    assert_eq!(encode_basic_auth("user", "pass"), "Basic dXNlcjpwYXNz");
    assert_eq!(encode_basic_auth("Aladdin", "open sesame"), "Basic QWxhZGRpbjpvcGVuIHNlc2FtZQ==");
    assert_eq!(encode_basic_auth("", "secret"), "Basic OnNlY3JldA==");
    assert_eq!(basic_auth("user", Some("pass")), "Basic dXNlcjpwYXNz");
    assert_eq!(basic_auth("jürgen", Some("pässwort")), "Basic asO8cmdlbjpww6Rzc3dvcnQ=");
}

#[test]
fn basic_auth_without_password_ends_with_the_colon() {
    assert_eq!(basic_auth("user", None), "Basic dXNlcjo=");
}

#[test]
fn basic_auth_decodes_to_what_was_encoded() {
    assert_eq!(
        decode_basic_auth(&encode_basic_auth("user", "pass")),
        Some(("user".to_string(), "pass".to_string()))
    );
    assert_eq!(
        decode_basic_auth(&encode_basic_auth("", "p:w")),
        Some((String::new(), "p:w".to_string()))
    );
    assert_eq!(decode_basic_auth(&basic_auth("user", None)), Some(("user".to_string(), String::new())));
    assert_eq!(
        decode_basic_auth(&encode_basic_auth("jürgen", "pässwort")),
        Some(("jürgen".to_string(), "pässwort".to_string()))
    );
}

#[test]
fn decode_refuses_what_is_no_basic_header() {
    assert_eq!(decode_basic_auth(""), None);
    assert_eq!(decode_basic_auth("Basic"), None);
    assert_eq!(decode_basic_auth("Bearer dXNlcjpwYXNz"), None);
    assert_eq!(decode_basic_auth("basic dXNlcjpwYXNz"), None);
    assert_eq!(decode_basic_auth("Basic not base64!"), None);
    // "user" without a colon
    assert_eq!(decode_basic_auth("Basic dXNlcg=="), None);
    // bytes that are not UTF-8
    assert_eq!(decode_basic_auth("Basic /w=="), None);
}

#[test]
fn decode_reads_a_header_from_elsewhere() {
    assert_eq!(
        decode_basic_auth("Basic QWxhZGRpbjpvcGVuIHNlc2FtZQ=="),
        Some(("Aladdin".to_string(), "open sesame".to_string()))
    );
}

#[test]
fn cgi_is_where_request_method_is_set() {
    let mut env = Environment::new();
    assert!(!is_cgi(&env));
    env.request_method = true;
    assert!(is_cgi(&env));
}

#[test]
fn white_space_is_the_unicode_property() {
    for c in [
        '\t', '\n', '\u{b}', '\u{c}', '\r', ' ', '\u{85}', '\u{a0}', '\u{1680}', '\u{2000}', '\u{2005}',
        '\u{200a}', '\u{2028}', '\u{2029}', '\u{202f}', '\u{205f}', '\u{3000}',
    ] {
        assert!(is_whitespace_char(c), "{:?}", c);
    }
    for c in ['a', '0', '\u{8}', '\u{e}', '\u{1f}', '\u{84}', '\u{86}', '\u{180e}', '\u{200b}', '\u{feff}'] {
        assert!(!is_whitespace_char(c), "{:?}", c);
    }
}

#[test]
fn white_space_agrees_with_the_standard_library() {
    let mut n: u32 = 0;
    while n <= 0x10FFFF {
        if let Some(c) = char::from_u32(n) {
            assert_eq!(is_whitespace_char(c), c.is_whitespace(), "U+{:04X}", n);
        }
        n += 1;
    }
}

#[test]
fn blank_is_empty_or_white_space_only() {
    assert!(is_blank(""));
    assert!(is_blank(" "));
    assert!(is_blank(" \t\r\n\u{3000}"));
    assert!(!is_blank("a"));
    assert!(!is_blank("  a  "));
    assert!(!is_blank("\u{200b}"));
}

#[test]
fn blank_agrees_with_trim() {
    for s in ["", " ", "\u{a0}\u{2003}", " x", "x ", "\u{feff}", "\n\n", "http://"] {
        assert_eq!(is_blank(s), s.trim().is_empty(), "{:?}", s);
    }
}

#[test]
fn chars_are_taken_in_order() {
    assert_eq!(chars_of(""), Vec::<char>::new());
    assert_eq!(chars_of("aé=b;c"), vec!['a', 'é', '=', 'b', ';', 'c']);
}

#[test]
fn same_text_compares_characters() {
    assert!(same_text("", ""));
    assert!(same_text("http", "http"));
    assert!(!same_text("http", "https"));
    assert!(!same_text("http", "httq"));
    assert!(!same_text("é", "e"));
}

#[test]
fn error_messages() {
    let kinds = [
        (Kind::Builder, "builder error"),
        (Kind::Request, "error sending request"),
        (Kind::Body, "request or response body error"),
        (Kind::Decode, "error decoding response body"),
        (Kind::Redirect, "error following redirect"),
        (Kind::Upgrade, "error upgrading connection"),
    ];
    for (kind, text) in kinds {
        assert_eq!(ProxyError::new(kind, None).message(), text);
    }
}

#[test]
fn error_with_url() {
    let url = Url {
        serialization: "mailto:a@b.example".to_string(),
        scheme: "mailto".to_string(),
        username: String::new(),
        password: None,
        host_port: String::new(),
        has_host: false,
    };
    let e = ProxyError::new(Kind::Request, Some(ErrorSource::BadScheme)).with_url(url.clone());
    assert_eq!(e.kind, Kind::Request);
    assert_eq!(e.source, Some(ErrorSource::BadScheme));
    assert_eq!(e.url, Some(url.clone()));
    assert_eq!(e.message(), "error sending request for url (mailto:a@b.example)");
    let e = url_bad_scheme(url.clone());
    assert_eq!(e, ProxyError { kind: Kind::Builder, source: Some(ErrorSource::BadScheme), url: Some(url) });
}

#[test]
fn builder_errors_have_no_url() {
    let e = builder(ErrorSource::UrlParse(UrlParseError::Malformed));
    assert_eq!(
        e,
        ProxyError { kind: Kind::Builder, source: Some(ErrorSource::UrlParse(UrlParseError::Malformed)), url: None }
    );
    assert_eq!(e.message(), "builder error");
}
