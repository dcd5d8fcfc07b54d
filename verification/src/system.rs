//! The per-protocol map of proxies, and the map that the environment asks
//! for.

use crate::bindings::share;
pub use crate::bindings::SharedProxyCache;
use crate::error::PlatformFetchError;
use crate::platform::{get_from_platform, parse_platform_values, platform_values_map};
use crate::scheme::{validated, IntoProxyScheme, ProxyScheme, ProxySchemeView};
use crate::text::{blank, is_blank, text_view};
use crate::util::is_cgi;
use std::sync::Arc;
use vstd::hash_map::StringHashMap;
use vstd::prelude::*;
use vstd::string::*;

verus! {

/// The variables of the process environment that proxy resolution reads, as
/// they stood when they were read. A variable that is unset, or whose value
/// is not Unicode, is `None`.
#[derive(Debug)]
pub struct Environment {
    /// `ALL_PROXY`
    pub all_proxy_upper: Option<String>,
    /// `all_proxy`
    pub all_proxy_lower: Option<String>,
    /// `HTTP_PROXY`
    pub http_proxy_upper: Option<String>,
    /// `http_proxy`
    pub http_proxy_lower: Option<String>,
    /// `HTTPS_PROXY`
    pub https_proxy_upper: Option<String>,
    /// `https_proxy`
    pub https_proxy_lower: Option<String>,
    /// Whether `REQUEST_METHOD` is set, whatever its value.
    pub request_method: bool,
}

/// The mathematical value of an [`Environment`].
pub struct EnvironmentView {
    pub all_proxy_upper: Option<Seq<char>>,
    pub all_proxy_lower: Option<Seq<char>>,
    pub http_proxy_upper: Option<Seq<char>>,
    pub http_proxy_lower: Option<Seq<char>>,
    pub https_proxy_upper: Option<Seq<char>>,
    pub https_proxy_lower: Option<Seq<char>>,
    pub request_method: bool,
}

impl View for Environment {
    type V = EnvironmentView;

    open spec fn view(&self) -> EnvironmentView {
        EnvironmentView {
            all_proxy_upper: text_view(self.all_proxy_upper),
            all_proxy_lower: text_view(self.all_proxy_lower),
            http_proxy_upper: text_view(self.http_proxy_upper),
            http_proxy_lower: text_view(self.http_proxy_lower),
            https_proxy_upper: text_view(self.https_proxy_upper),
            https_proxy_lower: text_view(self.https_proxy_lower),
            request_method: self.request_method,
        }
    }
}

impl Environment {
    /// An environment in which none of the variables is set.
    pub fn new() -> (env: Environment)
        ensures
            env@ == (EnvironmentView {
                all_proxy_upper: None,
                all_proxy_lower: None,
                http_proxy_upper: None,
                http_proxy_lower: None,
                https_proxy_upper: None,
                https_proxy_lower: None,
                request_method: false,
            }),
    {
        Environment {
            all_proxy_upper: None,
            all_proxy_lower: None,
            http_proxy_upper: None,
            http_proxy_lower: None,
            https_proxy_upper: None,
            https_proxy_lower: None,
            request_method: false,
        }
    }

    /// Whether `HTTP_PROXY` is set and goes unheeded because the process
    /// runs as a CGI program, which is worth a warning.
    pub fn ignores_http_proxy(&self) -> (ignored: bool)
        ensures
            ignored == (self@.request_method && self@.http_proxy_upper is Some),
    {
        is_cgi(self) && self.http_proxy_upper.is_some()
    }
}

/// A map from protocol to the proxy to use for it.
pub type SchemeMap = Map<Seq<char>, ProxySchemeView>;

/// The proxy that an address contributes to a map: none if the address is
/// empty or white space only, none if it is not a valid proxy address.
pub open spec fn proxy_candidate(addr: Seq<char>) -> Option<ProxySchemeView> {
    if blank(addr) {
        None
    } else {
        match validated(addr) {
            Ok(proxy) => Some(proxy),
            Err(_) => None,
        }
    }
}

/// `map` with `proxy`, if there is one, as the entry of `key`.
pub open spec fn with_entry(map: SchemeMap, key: Seq<char>, proxy: Option<ProxySchemeView>) -> SchemeMap {
    match proxy {
        Some(p) => map.insert(key, p),
        None => map,
    }
}

/// The proxy that a variable contributes: that of its value, if it is set.
pub open spec fn variable_candidate(value: Option<Seq<char>>) -> Option<ProxySchemeView> {
    match value {
        Some(addr) => proxy_candidate(addr),
        None => None,
    }
}

/// The first of two choices that is there.
pub open spec fn or_else(first: Option<ProxySchemeView>, second: Option<ProxySchemeView>) -> Option<
    ProxySchemeView,
> {
    if first is Some {
        first
    } else {
        second
    }
}

/// What the environment asks for both protocols alike: `ALL_PROXY`, else
/// `all_proxy`.
pub open spec fn environment_all(env: EnvironmentView) -> Option<ProxySchemeView> {
    or_else(variable_candidate(env.all_proxy_upper), variable_candidate(env.all_proxy_lower))
}

/// The proxy that the environment asks for `http`: `HTTP_PROXY`, else
/// `http_proxy`, else what holds for all protocols. Under CGI, where
/// `REQUEST_METHOD` is set, the two `http` variables do not count.
pub open spec fn environment_http(env: EnvironmentView) -> Option<ProxySchemeView> {
    if env.request_method {
        environment_all(env)
    } else {
        or_else(
            variable_candidate(env.http_proxy_upper),
            or_else(variable_candidate(env.http_proxy_lower), environment_all(env)),
        )
    }
}

/// The proxy that the environment asks for `https`: `HTTPS_PROXY`, else
/// `https_proxy`, else what holds for all protocols.
pub open spec fn environment_https(env: EnvironmentView) -> Option<ProxySchemeView> {
    or_else(
        variable_candidate(env.https_proxy_upper),
        or_else(variable_candidate(env.https_proxy_lower), environment_all(env)),
    )
}

/// The map that the environment asks for.
pub open spec fn environment_map(env: EnvironmentView) -> SchemeMap {
    with_entry(
        with_entry(Map::empty(), "http"@, environment_http(env)),
        "https"@,
        environment_https(env),
    )
}

/// The value of a variable, with an empty or white-space value taken as
/// unset.
pub open spec fn without_blank(value: Option<Seq<char>>) -> Option<Seq<char>> {
    match value {
        Some(v) => if blank(v) {
            None
        } else {
            value
        },
        None => None,
    }
}

/// A variable whose value is empty or white space only counts as unset: the
/// environment's map is the one it would be without every such variable.
pub proof fn lemma_blank_variable_is_unset(env: EnvironmentView)
    ensures
        environment_map(env) == environment_map(
            EnvironmentView {
                all_proxy_upper: without_blank(env.all_proxy_upper),
                all_proxy_lower: without_blank(env.all_proxy_lower),
                http_proxy_upper: without_blank(env.http_proxy_upper),
                http_proxy_lower: without_blank(env.http_proxy_lower),
                https_proxy_upper: without_blank(env.https_proxy_upper),
                https_proxy_lower: without_blank(env.https_proxy_lower),
                request_method: env.request_method,
            },
        ),
{
}

/// Under CGI, where `REQUEST_METHOD` is set, `HTTP_PROXY` and `http_proxy`
/// have no say: the environment's map is the one it would be without them.
pub proof fn lemma_cgi_ignores_http_proxy(env: EnvironmentView)
    requires
        env.request_method,
    ensures
        environment_map(env) == environment_map(
            EnvironmentView { http_proxy_upper: None, http_proxy_lower: None, ..env },
        ),
{
}

/// A map from protocol (`http`, `https`, ...) to the proxy to use for it.
/// Every proxy in it is a validated one.
pub struct SystemProxyMap {
    entries: StringHashMap<ProxyScheme>,
}

impl View for SystemProxyMap {
    type V = SchemeMap;

    closed spec fn view(&self) -> SchemeMap {
        self.entries@.map_values(|p: ProxyScheme| p@)
    }
}

impl SystemProxyMap {
    #[verifier::type_invariant]
    spec fn valid(self) -> bool {
        forall|k: Seq<char>| self.entries@.contains_key(k) ==> (#[trigger] self.entries@[k]).wf()
    }

    /// The empty map.
    pub fn new() -> (map: SystemProxyMap)
        ensures
            map@ == SchemeMap::empty(),
    {
        let map = SystemProxyMap { entries: StringHashMap::new() };
        assert(map@ =~= SchemeMap::empty());
        map
    }

    /// The proxy for protocol `k`, if the map has one.
    pub fn get(&self, k: &str) -> (proxy: Option<&ProxyScheme>)
        ensures
            match proxy {
                Some(p) => self@.contains_key(k@) && p@ == self@[k@] && p.wf(),
                None => !self@.contains_key(k@),
            },
    {
        proof {
            use_type_invariant(self);
        }
        self.entries.get(k)
    }

    /// Removes every entry.
    pub fn clear(&mut self)
        ensures
            final(self)@ == SchemeMap::empty(),
    {
        self.entries = StringHashMap::new();
        assert(self@ =~= SchemeMap::empty());
    }

    /// The map that the environment asks for.
    pub fn from_environment(env: &Environment) -> (proxies: SystemProxyMap)
        ensures
            proxies@ == environment_map(env@),
    {
        let mut proxies = SystemProxyMap::new();

        if !(proxies.insert_from_env("http", &env.all_proxy_upper) && proxies.insert_from_env(
            "https",
            &env.all_proxy_upper,
        )) {
            proxies.insert_from_env("http", &env.all_proxy_lower);
            proxies.insert_from_env("https", &env.all_proxy_lower);
        }

        if is_cgi(env) {
            // HTTP_PROXY is ignored in CGI
        } else if !proxies.insert_from_env("http", &env.http_proxy_upper) {
            proxies.insert_from_env("http", &env.http_proxy_lower);
        }

        if !proxies.insert_from_env("https", &env.https_proxy_upper) {
            proxies.insert_from_env("https", &env.https_proxy_lower);
        }
        proof {
            reveal_strlit("http");
            reveal_strlit("https");
            assert("http"@.len() != "https"@.len());
        }
        assert(proxies@ =~= environment_map(env@));
        proxies
    }

    /// Inserts the proxy that a variable's value names, if the variable is
    /// set. Says whether an entry was inserted.
    pub fn insert_from_env(&mut self, scheme: &str, value: &Option<String>) -> (inserted: bool)
        ensures
            final(self)@ == with_entry(old(self)@, scheme@, variable_candidate(text_view(*value))),
            inserted == variable_candidate(text_view(*value)) is Some,
    {
        if let Some(val) = value {
            self.insert_proxy(scheme, val.clone())
        } else {
            false
        }
    }

    /// Inserts the proxy that `addr` names as the entry of `scheme`. An
    /// address that is empty or white space only is not accepted, nor one
    /// that is no valid proxy address; the map then stays as it is. Says
    /// whether an entry was inserted.
    pub fn insert_proxy(&mut self, scheme: &str, addr: String) -> (inserted: bool)
        ensures
            final(self)@ == with_entry(old(self)@, scheme@, proxy_candidate(addr@)),
            inserted == proxy_candidate(addr@) is Some,
    {
        if is_blank(addr.as_str()) {
            // do not accept empty or whitespace proxy address
            false
        } else {
            match addr.into_proxy_scheme() {
                Ok(proxy) => {
                    proof {
                        use_type_invariant(&*self);
                    }
                    let ghost before = self.entries@;
                    let mut entries = StringHashMap::new();
                    std::mem::swap(&mut self.entries, &mut entries);
                    entries.insert(String::from_str(scheme), proxy);
                    self.entries = entries;
                    assert(self.entries@.map_values(|p: ProxyScheme| p@) =~= before.map_values(
                        |p: ProxyScheme| p@,
                    ).insert(scheme@, proxy@));
                    true
                },
                Err(_) => false,
            }
        }
    }
}

/// The cache of the platform's proxy settings: nothing before the first
/// read, from then on the snapshot that was published last. A snapshot is
/// never changed; a new one takes its place.
pub struct ProxyCache {
    snapshot: Option<Arc<SystemProxyMap>>,
}

impl View for ProxyCache {
    type V = Option<SchemeMap>;

    closed spec fn view(&self) -> Option<SchemeMap> {
        match self.snapshot {
            Some(map) => Some(map@),
            None => None,
        }
    }
}

impl Clone for ProxyCache {
    /// Another cache that holds the same snapshot.
    fn clone(&self) -> (copy: Self)
        ensures
            copy@ == self@,
    {
        ProxyCache {
            snapshot: match &self.snapshot {
                Some(map) => Some(share(map)),
                None => None,
            },
        }
    }
}

impl ProxyCache {
    /// A cache that has not been read yet.
    pub fn new() -> (cache: ProxyCache)
        ensures
            cache@ is None,
    {
        ProxyCache { snapshot: None }
    }

    /// Whether the cache holds a snapshot.
    pub fn is_initialized(&self) -> (initialized: bool)
        ensures
            initialized == self@ is Some,
    {
        self.snapshot.is_some()
    }

    /// The cache that holds `snapshot`, or nothing.
    pub(crate) fn from_snapshot(snapshot: Option<Arc<SystemProxyMap>>) -> (cache: ProxyCache)
        ensures
            cache@ == match snapshot {
                Some(map) => Some(map@),
                None => None,
            },
    {
        ProxyCache { snapshot }
    }

    /// The snapshot that the cache holds, if it holds one.
    pub(crate) fn into_snapshot(self) -> (snapshot: Option<Arc<SystemProxyMap>>)
        ensures
            self@ == match snapshot {
                Some(map) => Some(map@),
                None => None,
            },
    {
        self.snapshot
    }
}

/// What the platform's settings are taken to be after an attempt to fetch
/// them, as text.
pub open spec fn fetched_values(fetched: Result<Option<String>, PlatformFetchError>) -> Option<
    Seq<char>,
> {
    match fetched {
        Ok(Some(raw)) => Some(raw@),
        _ => None,
    }
}

/// The current snapshot of the cache. The first call fetches the platform's
/// settings, once, and publishes the map they stand for; every later call
/// hands out the snapshot that is there and fetches nothing.
pub fn get_proxy_cache<F: FnOnce() -> Result<Option<String>, PlatformFetchError>>(
    cache: &mut ProxyCache,
    fetch: F,
) -> (snapshot: Arc<SystemProxyMap>)
    requires
        fetch.requires(()),
    ensures
        final(cache)@ == Some(snapshot@),
        match old(cache)@ {
            Some(map) => snapshot@ == map,
            None => exists|fetched: Result<Option<String>, PlatformFetchError>|
                fetch.ensures((), fetched) && snapshot@ == platform_values_map(
                    fetched_values(fetched),
                ),
        },
{
    match &cache.snapshot {
        Some(map) => share(map),
        None => {
            let fetched = fetch();
            let ghost seen = fetched;
            let map = Arc::new(parse_platform_values(get_from_platform(fetched)));
            cache.snapshot = Some(share(&map));
            assert(fetch.ensures((), seen) && map@ == platform_values_map(fetched_values(seen)));
            map
        },
    }
}

/// Publishes `proxy_map` as the new snapshot, in place of the one that was
/// there. A cache that has not been read yet stays as it is: the update is
/// dropped.
pub fn update_proxy_cache(cache: &mut ProxyCache, proxy_map: SystemProxyMap)
    ensures
        final(cache)@ == match old(cache)@ {
            Some(_) => Some(proxy_map@),
            None => None,
        },
{
    if cache.snapshot.is_some() {
        cache.snapshot = Some(Arc::new(proxy_map));
    }
}

impl SharedProxyCache {
    /// A cache that has not been read yet, to be shared between the threads
    /// that resolve proxies and the one that watches the platform.
    pub fn new() -> (shared: SharedProxyCache) {
        SharedProxyCache::empty()
    }

    /// The current snapshot. Readers never wait for a writer: the cell is
    /// read once, [`get_proxy_cache`] decides on what was read, and only a
    /// first read stores what it fetched. Which snapshot is current depends
    /// on what the other holders of the cache have stored, so nothing is
    /// promised of it here; what is done with the state that was read is
    /// what [`get_proxy_cache`] promises of every state.
    pub fn get<F: FnOnce() -> Result<Option<String>, PlatformFetchError>>(&self, fetch: F) -> (snapshot:
        Arc<SystemProxyMap>)
        requires
            fetch.requires(()),
    {
        let mut cache = ProxyCache::from_snapshot(self.load());
        let first = !cache.is_initialized();
        let snapshot = get_proxy_cache(&mut cache, fetch);
        if first {
            self.store(cache.into_snapshot());
        }
        snapshot
    }

    /// Publishes `new_map` as the new snapshot, as a whole and in one step,
    /// unless the cache has not been read yet: [`update_proxy_cache`] decides
    /// on what the cell held when it was read. What a later read finds
    /// depends on the other holders of the cache too, so nothing is promised
    /// of it here.
    pub fn replace(&self, new_map: SystemProxyMap) {
        let mut cache = ProxyCache::from_snapshot(self.load());
        if cache.is_initialized() {
            update_proxy_cache(&mut cache, new_map);
            self.store(cache.into_snapshot());
        }
    }
}

} // verus!
