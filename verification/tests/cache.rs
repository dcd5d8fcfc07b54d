use std::sync::Arc;
use system_proxy::error::PlatformFetchError;
use system_proxy::into_url::IntoUrlSealed;
use system_proxy::platform::{
    background_proxy_watcher, parse_platform_values, resolve_from_env, resolve_from_system_proxy,
    resolve_proxy_from_url, start_background_watcher, WatcherHandle,
};
use system_proxy::scheme::ProxyScheme;
use system_proxy::system::{get_proxy_cache, update_proxy_cache, Environment, ProxyCache, SystemProxyMap};

fn http(host: &str) -> ProxyScheme {
    ProxyScheme::Http { auth: None, host: host.to_string() }
}

fn https(host: &str) -> ProxyScheme {
    ProxyScheme::Https { auth: None, host: host.to_string() }
}

fn reported(raw: &str) -> Result<Option<String>, PlatformFetchError> {
    Ok(Some(raw.to_string()))
}

fn failed() -> Result<Option<String>, PlatformFetchError> {
    Err(PlatformFetchError { message: "no access".to_string() })
}

fn map_of(raw: &str) -> SystemProxyMap {
    parse_platform_values(Some(raw.to_string()))
}

#[test]
fn first_read_fetches_and_parses() {
    let mut cache = ProxyCache::new();
    assert!(!cache.is_initialized());
    let snapshot = get_proxy_cache(&mut cache, || reported("http=10.0.0.1:3128"));
    assert!(cache.is_initialized());
    assert_eq!(snapshot.get("http"), Some(&http("10.0.0.1:3128")));
    assert_eq!(snapshot.get("https"), None);
}

#[test]
fn later_reads_fetch_nothing() {
    let mut cache = ProxyCache::new();
    let mut fetches = 0;
    let first = get_proxy_cache(&mut cache, || {
        fetches += 1;
        reported("http=10.0.0.1:3128")
    });
    let second = get_proxy_cache(&mut cache, || {
        fetches += 1;
        reported("http=other.example:1")
    });
    assert_eq!(fetches, 1);
    assert!(Arc::ptr_eq(&first, &second));
    assert_eq!(second.get("http"), Some(&http("10.0.0.1:3128")));
}

#[test]
fn failed_first_fetch_gives_an_empty_snapshot() {
    let mut cache = ProxyCache::new();
    let snapshot = get_proxy_cache(&mut cache, failed);
    assert!(cache.is_initialized());
    assert_eq!(snapshot.get("http"), None);
    assert_eq!(snapshot.get("https"), None);
    let snapshot = get_proxy_cache(&mut ProxyCache::new(), || Ok(None));
    assert_eq!(snapshot.get("http"), None);
}

#[test]
fn update_before_the_first_read_is_dropped() {
    let mut cache = ProxyCache::new();
    update_proxy_cache(&mut cache, map_of("http=early.example:1"));
    assert!(!cache.is_initialized());
    let snapshot = get_proxy_cache(&mut cache, || reported("http=10.0.0.1:3128"));
    assert_eq!(snapshot.get("http"), Some(&http("10.0.0.1:3128")));
}

#[test]
fn update_replaces_the_snapshot_as_a_whole() {
    let mut cache = ProxyCache::new();
    let old = get_proxy_cache(&mut cache, || reported("http=old.example:1;ftp=old.example:2"));
    update_proxy_cache(&mut cache, map_of("https=new.example:3"));
    let new = get_proxy_cache(&mut cache, failed);
    // the new generation holds nothing of the old one
    assert_eq!(new.get("http"), None);
    assert_eq!(new.get("ftp"), None);
    assert_eq!(new.get("https"), Some(&http("new.example:3")));
    // and a snapshot that was handed out stays what it was
    assert_eq!(old.get("http"), Some(&http("old.example:1")));
    assert_eq!(old.get("ftp"), Some(&http("old.example:2")));
    assert_eq!(old.get("https"), None);
}

#[test]
fn copy_of_a_cache_shares_the_snapshot() {
    let mut cache = ProxyCache::new();
    let snapshot = get_proxy_cache(&mut cache, || reported("http=10.0.0.1:3128"));
    let mut copy = cache.clone();
    assert!(copy.is_initialized());
    assert!(Arc::ptr_eq(&snapshot, &get_proxy_cache(&mut copy, failed)));
    update_proxy_cache(&mut copy, SystemProxyMap::new());
    assert_eq!(get_proxy_cache(&mut copy, failed).get("http"), None);
    assert_eq!(get_proxy_cache(&mut cache, failed).get("http"), Some(&http("10.0.0.1:3128")));
    assert!(!ProxyCache::new().clone().is_initialized());
}

#[test]
fn watcher_starts_once() {
    let mut handle = WatcherHandle::new();
    assert!(!handle.running());
    assert!(start_background_watcher(&mut handle));
    assert!(handle.running());
    assert!(!start_background_watcher(&mut handle));
    assert!(!start_background_watcher(&mut handle));
    assert!(handle.running());
}

#[test]
fn watcher_publishes_what_was_fetched() {
    let mut cache = ProxyCache::new();
    get_proxy_cache(&mut cache, || reported("http=old.example:1"));
    assert!(background_proxy_watcher(&mut cache, reported("https=https://new.example:2")));
    let snapshot = get_proxy_cache(&mut cache, failed);
    assert_eq!(snapshot.get("http"), None);
    assert_eq!(snapshot.get("https"), Some(&https("new.example:2")));
}

#[test]
fn watcher_publishes_an_empty_map_when_nothing_is_configured() {
    let mut cache = ProxyCache::new();
    get_proxy_cache(&mut cache, || reported("http=old.example:1"));
    assert!(background_proxy_watcher(&mut cache, Ok(None)));
    assert_eq!(get_proxy_cache(&mut cache, failed).get("http"), None);
}

#[test]
fn watcher_keeps_the_snapshot_after_a_failed_fetch() {
    let mut cache = ProxyCache::new();
    let before = get_proxy_cache(&mut cache, || reported("http=old.example:1"));
    assert!(!background_proxy_watcher(&mut cache, failed()));
    let after = get_proxy_cache(&mut cache, failed);
    assert!(Arc::ptr_eq(&before, &after));
    assert_eq!(after.get("http"), Some(&http("old.example:1")));
}

#[test]
fn watcher_publishes_nothing_into_a_cache_that_was_never_read() {
    let mut cache = ProxyCache::new();
    assert!(!background_proxy_watcher(&mut cache, reported("http=new.example:1")));
    assert!(!cache.is_initialized());
}

#[test]
fn watcher_clears_the_map_on_a_malformed_list() {
    let mut cache = ProxyCache::new();
    get_proxy_cache(&mut cache, || reported("http=old.example:1"));
    assert!(background_proxy_watcher(&mut cache, reported("http=new.example:1;https")));
    assert_eq!(get_proxy_cache(&mut cache, failed).get("http"), None);
}

#[test]
fn end_to_end() {
    let mut env = Environment::new();
    env.https_proxy_upper = Some("https://p.example:3128".to_string());
    let env = SystemProxyMap::from_environment(&env);
    let mut cache = ProxyCache::new();
    let mut watcher = WatcherHandle::new();

    let target = "http://a.com".into_url().unwrap();
    let resolution =
        resolve_proxy_from_url(&mut watcher, &env, &mut cache, &target, || reported("http=10.0.0.1:3128"));
    assert_eq!(resolution.proxy, Some(http("10.0.0.1:3128")));
    assert!(resolution.start_watcher);

    let target = "https://a.com".into_url().unwrap();
    let resolution =
        resolve_proxy_from_url(&mut watcher, &env, &mut cache, &target, || reported("http=10.0.0.1:3128"));
    assert_eq!(resolution.proxy, Some(https("p.example:3128")));
    assert!(!resolution.start_watcher);
}

#[test]
fn environment_wins_over_the_platform_scheme_by_scheme() {
    let mut env = Environment::new();
    env.https_proxy_upper = Some("https://p.example:3128".to_string());
    let env = SystemProxyMap::from_environment(&env);
    let mut cache = ProxyCache::new();
    let mut watcher = WatcherHandle::new();
    let platform = "http=10.0.0.1:3128;https=10.0.0.2:3128";

    let target = "https://a.com/x".into_url().unwrap();
    let resolution = resolve_proxy_from_url(&mut watcher, &env, &mut cache, &target, || reported(platform));
    assert_eq!(resolution.proxy, Some(https("p.example:3128")));
    // the environment had the answer: the platform was not asked
    assert!(!cache.is_initialized());

    let target = "http://a.com/x".into_url().unwrap();
    let resolution = resolve_proxy_from_url(&mut watcher, &env, &mut cache, &target, || reported(platform));
    assert_eq!(resolution.proxy, Some(http("10.0.0.1:3128")));
    assert!(cache.is_initialized());
}

#[test]
fn no_entry_means_a_direct_connection() {
    let env = SystemProxyMap::from_environment(&Environment::new());
    let mut cache = ProxyCache::new();
    let mut watcher = WatcherHandle::new();
    let target = "https://a.com".into_url().unwrap();
    let resolution = resolve_proxy_from_url(&mut watcher, &env, &mut cache, &target, || reported("http=10.0.0.1:3128"));
    assert_eq!(resolution.proxy, None);
    let target = "ftp://a.com".into_url().unwrap();
    let resolution = resolve_proxy_from_url(&mut watcher, &env, &mut cache, &target, failed);
    assert_eq!(resolution.proxy, None);
    assert!(!resolution.start_watcher);
}

#[test]
fn resolver_sees_what_the_watcher_published() {
    let env = SystemProxyMap::new();
    let mut cache = ProxyCache::new();
    let mut watcher = WatcherHandle::new();
    let target = "http://a.com".into_url().unwrap();
    let first = resolve_proxy_from_url(&mut watcher, &env, &mut cache, &target, || reported("http=old.example:1"));
    assert_eq!(first.proxy, Some(http("old.example:1")));
    assert!(background_proxy_watcher(&mut cache, reported("http=new.example:2")));
    let second = resolve_proxy_from_url(&mut watcher, &env, &mut cache, &target, failed);
    assert_eq!(second.proxy, Some(http("new.example:2")));
}

#[test]
fn halves_of_the_resolver() {
    let mut env = SystemProxyMap::new();
    assert!(env.insert_proxy("http", "env.example:1".to_string()));
    let target = "http://a.com".into_url().unwrap();
    assert_eq!(resolve_from_env(&env, &target), Some(http("env.example:1")));
    let secure = "https://a.com".into_url().unwrap();
    assert_eq!(resolve_from_env(&env, &secure), None);
    let mut cache = ProxyCache::new();
    assert_eq!(
        resolve_from_system_proxy(&mut cache, &secure, || reported("secure.example:2")),
        Some(http("secure.example:2"))
    );
    assert_eq!(resolve_from_system_proxy(&mut cache, &target, failed), Some(http("secure.example:2")));
}
