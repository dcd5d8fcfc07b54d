use system_proxy::error::PlatformFetchError;
use system_proxy::platform::parse_platform_values;
use system_proxy::platform_macos::{on_change, parse_setting_from_dynamic_store, PROXY_KEY};
use system_proxy::platform_windows::Lookup;
use system_proxy::scheme::ProxyScheme;
use system_proxy::text::{integer_to_text, natural_to_text};

fn text(value: &str) -> Option<String> {
    Some(value.to_string())
}

#[test]
fn numbers_are_written_in_decimal() {
    for n in [0u64, 1, 9, 10, 11, 99, 100, 101, 3128, 65535, 4294967295, u64::MAX] {
        assert_eq!(natural_to_text(n), n.to_string());
    }
    for n in [0i32, 1, -1, 9, -9, 10, -10, 8080, -8080, 65535, i32::MAX, i32::MIN, i32::MIN + 1] {
        assert_eq!(integer_to_text(n), n.to_string());
    }
}

#[test]
fn dynamic_store_setting_with_host_and_port() {
    assert_eq!(
        parse_setting_from_dynamic_store(Some(1), text("proxy.example"), Some(8080), "http"),
        text("http=proxy.example:8080")
    );
    assert_eq!(
        parse_setting_from_dynamic_store(Some(1), text("10.0.0.1"), Some(3128), "https"),
        text("https=10.0.0.1:3128")
    );
}

#[test]
fn dynamic_store_setting_without_port() {
    assert_eq!(parse_setting_from_dynamic_store(Some(1), text("proxy.example"), None, "http"), text("http=proxy.example"));
}

#[test]
fn dynamic_store_setting_without_host() {
    assert_eq!(parse_setting_from_dynamic_store(Some(1), None, Some(8080), "http"), None);
    assert_eq!(parse_setting_from_dynamic_store(Some(1), None, None, "http"), None);
}

#[test]
fn dynamic_store_setting_that_is_switched_off() {
    assert_eq!(parse_setting_from_dynamic_store(Some(0), text("proxy.example"), Some(8080), "http"), None);
    assert_eq!(parse_setting_from_dynamic_store(Some(2), text("proxy.example"), Some(8080), "http"), None);
    assert_eq!(parse_setting_from_dynamic_store(Some(-1), text("proxy.example"), Some(8080), "http"), None);
    assert_eq!(parse_setting_from_dynamic_store(None, text("proxy.example"), Some(8080), "http"), None);
}

#[test]
fn macos_settings_are_joined() {
    let join = system_proxy::platform_macos::get_from_platform_impl;
    assert_eq!(join(text("http=a:1"), text("https=b:2")), text("http=a:1;https=b:2"));
    assert_eq!(join(text("http=a:1"), None), text("http=a:1"));
    assert_eq!(join(None, text("https=b:2")), text("https=b:2"));
    assert_eq!(join(None, None), None);
}

#[test]
fn macos_settings_are_what_the_parser_reads() {
    let http = parse_setting_from_dynamic_store(Some(1), text("a.example"), Some(1), "http");
    let https = parse_setting_from_dynamic_store(Some(1), text("b.example"), None, "https");
    let map = parse_platform_values(system_proxy::platform_macos::get_from_platform_impl(http, https));
    assert_eq!(map.get("http"), Some(&ProxyScheme::Http { auth: None, host: "a.example:1".to_string() }));
    assert_eq!(map.get("https"), Some(&ProxyScheme::Http { auth: None, host: "b.example".to_string() }));
}

#[test]
fn change_of_the_proxy_key_is_told() {
    assert_eq!(PROXY_KEY, "State:/Network/Global/Proxies");
    assert!(!on_change(&vec![]));
    assert!(!on_change(&vec!["State:/Network/Global/DNS".to_string()]));
    assert!(on_change(&vec![PROXY_KEY.to_string()]));
    assert!(on_change(&vec!["State:/Network/Global/DNS".to_string(), PROXY_KEY.to_string(), "x".to_string()]));
    assert!(!on_change(&vec!["State:/Network/Global/Proxies ".to_string()]));
}

#[test]
fn windows_settings_that_are_complete() {
    let get = system_proxy::platform_windows::get_from_platform_impl;
    assert_eq!(
        get(Lookup::Found(()), Lookup::Found(1), Lookup::Found("10.0.0.1:3128".to_string())),
        Ok(text("10.0.0.1:3128"))
    );
    assert_eq!(
        get(Lookup::Found(()), Lookup::Found(7), Lookup::Found("http=a:1;https=b:2".to_string())),
        Ok(text("http=a:1;https=b:2"))
    );
}

#[test]
fn windows_settings_that_are_missing_or_off() {
    let get = system_proxy::platform_windows::get_from_platform_impl;
    let server = || Lookup::Found("10.0.0.1:3128".to_string());
    assert_eq!(get(Lookup::NotFound, Lookup::Found(1), server()), Ok(None));
    assert_eq!(get(Lookup::Found(()), Lookup::NotFound, server()), Ok(None));
    assert_eq!(get(Lookup::Found(()), Lookup::Found(0), server()), Ok(None));
    assert_eq!(get(Lookup::Found(()), Lookup::Found(1), Lookup::NotFound), Ok(None));
    assert_eq!(get(Lookup::Found(()), Lookup::Found(1), Lookup::Found(String::new())), Ok(None));
    // a value that is not looked at may be unreadable
    assert_eq!(get(Lookup::Found(()), Lookup::Found(0), Lookup::Failed("denied".to_string())), Ok(None));
    assert_eq!(get(Lookup::NotFound, Lookup::Failed("denied".to_string()), Lookup::NotFound), Ok(None));
}

#[test]
fn windows_settings_that_cannot_be_read() {
    let get = system_proxy::platform_windows::get_from_platform_impl;
    let failed = |message: &str| Err(PlatformFetchError { message: message.to_string() });
    assert_eq!(
        get(Lookup::Failed("key".to_string()), Lookup::Failed("enable".to_string()), Lookup::NotFound),
        failed("key")
    );
    assert_eq!(
        get(Lookup::Found(()), Lookup::Failed("enable".to_string()), Lookup::Failed("server".to_string())),
        failed("enable")
    );
    assert_eq!(get(Lookup::Found(()), Lookup::Found(1), Lookup::Failed("server".to_string())), failed("server"));
}
