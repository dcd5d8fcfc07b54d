//! The platform's half of proxy resolution: how the one text that the
//! platform gives for its settings is read into a map, what the watcher does
//! when the settings change, and how a request finds its proxy.

use crate::error::PlatformFetchError;
use crate::into_url::{Url, UrlView};
use crate::scheme::{validated, with_http_scheme, ProxyScheme, ProxySchemeView};
use crate::system::{
    fetched_values, get_proxy_cache, proxy_candidate, update_proxy_cache, with_entry, ProxyCache,
    SchemeMap, SharedProxyCache, SystemProxyMap,
};
use crate::text::{
    chars_of, index_from, is_whitespace, join, lemma_first_index, lemma_join_first, lemma_split_join,
    piece_end, single_delimiter, split, text_view,
};
use crate::util::{extract_type_prefix, type_prefix};
use vstd::prelude::*;
use vstd::string::*;

verus! {

/// The address of a per-protocol entry as it is validated: as written where
/// it names a scheme itself, else with `http://` in front.
pub open spec fn qualified(address: Seq<char>) -> Seq<char> {
    if type_prefix(address) is Some {
        address
    } else {
        with_http_scheme(address)
    }
}

/// The map that a list of `protocol=address` segments adds to `map`. Each
/// segment must split at `=` into exactly two parts; the first that does not
/// makes the whole result empty, whatever came before and comes after it. An
/// address that is not valid is left out, and the list goes on.
pub open spec fn protocol_list(segments: Seq<Seq<char>>, map: SchemeMap) -> SchemeMap
    decreases segments.len(),
{
    if segments.len() == 0 {
        map
    } else {
        let parts = split(segments[0], '=');
        if parts.len() == 2 {
            protocol_list(
                segments.drop_first(),
                with_entry(map, parts[0], proxy_candidate(qualified(parts[1]))),
            )
        } else {
            Map::empty()
        }
    }
}

/// The map of a single address that holds for every protocol. One that
/// names a scheme is entered once, under that scheme; one that names none
/// is read as an `http://` address and entered under `http` and `https`.
pub open spec fn single_address(raw: Seq<char>) -> SchemeMap {
    match type_prefix(raw) {
        Some(scheme) => with_entry(Map::empty(), scheme, proxy_candidate(raw)),
        None => with_entry(
            with_entry(Map::empty(), "http"@, proxy_candidate(with_http_scheme(raw))),
            "https"@,
            proxy_candidate(with_http_scheme(raw)),
        ),
    }
}

/// The map that the platform's text stands for: with a `=` in it the text is
/// a list of `protocol=address` segments with `;` between them, without one
/// it is a single address.
pub open spec fn platform_map(raw: Seq<char>) -> SchemeMap {
    if raw.contains('=') {
        protocol_list(split(raw, ';'), Map::empty())
    } else {
        single_address(raw)
    }
}

/// The map for what the platform reported; empty where it reported nothing.
pub open spec fn platform_values_map(platform_values: Option<Seq<char>>) -> SchemeMap {
    match platform_values {
        Some(raw) => platform_map(raw),
        None => Map::empty(),
    }
}

/// The segment that stands for an entry, a protocol and an address, in a
/// per-protocol list.
pub open spec fn entry_text(entry: (Seq<char>, Seq<char>)) -> Seq<char> {
    entry.0 + seq!['='] + entry.1
}

/// The segments that stand for a list of entries.
pub open spec fn entry_texts(entries: Seq<(Seq<char>, Seq<char>)>) -> Seq<Seq<char>> {
    entries.map_values(|entry: (Seq<char>, Seq<char>)| entry_text(entry))
}

/// `map` with the entries entered one after the other, each address
/// validated by itself; an address that is not valid adds nothing.
pub open spec fn entries_map(entries: Seq<(Seq<char>, Seq<char>)>, map: SchemeMap) -> SchemeMap
    decreases entries.len(),
{
    if entries.len() == 0 {
        map
    } else {
        entries_map(
            entries.drop_first(),
            with_entry(map, entries[0].0, proxy_candidate(qualified(entries[0].1))),
        )
    }
}

/// Whether a text can stand as protocol or address in a per-protocol list:
/// it holds neither `=` nor `;`.
pub open spec fn plain(text: Seq<char>) -> bool {
    !text.contains('=') && !text.contains(';')
}

/// A list of segments, each written as `protocol=address`, adds to a map
/// exactly its entries.
pub proof fn lemma_protocol_list_entries(entries: Seq<(Seq<char>, Seq<char>)>, map: SchemeMap)
    requires
        forall|i: int| 0 <= i < entries.len() ==> plain((#[trigger] entries[i]).0) && plain(entries[i].1),
    ensures
        protocol_list(entry_texts(entries), map) == entries_map(entries, map),
    decreases entries.len(),
{
    let segments = entry_texts(entries);
    if entries.len() > 0 {
        let entry = entries[0];
        let parts = seq![entry.0, entry.1];
        assert(join(parts, '=') == entry_text(entry)) by {
            assert(parts.drop_first() == seq![entry.1]);
            assert(join(parts.drop_first(), '=') == entry.1);
        }
        lemma_split_join(parts, '=');
        assert(split(segments[0], '=') == parts);
        assert(segments.drop_first() == entry_texts(entries.drop_first()));
        assert forall|i: int| 0 <= i < entries.drop_first().len() implies plain(
            (#[trigger] entries.drop_first()[i]).0,
        ) && plain(entries.drop_first()[i].1) by {
            assert(entries.drop_first()[i] == entries[i + 1]);
        }
        lemma_protocol_list_entries(
            entries.drop_first(),
            with_entry(map, entry.0, proxy_candidate(qualified(entry.1))),
        );
    }
}

/// The platform's text for a list of entries, `protocol=address` with `;`
/// between them, stands for the map with exactly those entries, each
/// validated by itself.
pub proof fn lemma_platform_list(entries: Seq<(Seq<char>, Seq<char>)>)
    requires
        entries.len() >= 1,
        forall|i: int| 0 <= i < entries.len() ==> plain((#[trigger] entries[i]).0) && plain(entries[i].1),
    ensures
        platform_map(join(entry_texts(entries), ';')) == entries_map(entries, Map::empty()),
{
    let segments = entry_texts(entries);
    let raw = join(segments, ';');
    assert forall|k: int| 0 <= k < segments.len() implies !(#[trigger] segments[k]).contains(';') by {
        let entry = entries[k];
        let segment = segments[k];
        if segment.contains(';') {
            let j = choose|j: int| 0 <= j < segment.len() && segment[j] == ';';
            if j < entry.0.len() {
                assert(entry.0[j] == ';');
                assert(entry.0.contains(';'));
            } else if j > entry.0.len() {
                assert(entry.1[j - entry.0.len() - 1] == ';');
                assert(entry.1.contains(';'));
            }
        }
    }
    lemma_split_join(segments, ';');
    assert(raw.contains('=')) by {
        lemma_join_first(segments, ';');
        let at = entries[0].0.len() as int;
        assert(segments[0][at] == '=');
        assert(raw[at] == '=');
    }
    lemma_protocol_list_entries(entries, Map::empty());
}

/// A segment that does not split at `=` into exactly two parts makes the
/// result of the whole list empty.
pub proof fn lemma_protocol_list_malformed(segments: Seq<Seq<char>>, map: SchemeMap, k: int)
    requires
        0 <= k < segments.len(),
        split(segments[k], '=').len() != 2,
    ensures
        protocol_list(segments, map) == SchemeMap::empty(),
    decreases segments.len(),
{
    let parts = split(segments[0], '=');
    if k > 0 && parts.len() == 2 {
        assert(segments.drop_first()[k - 1] == segments[k]);
        lemma_protocol_list_malformed(
            segments.drop_first(),
            with_entry(map, parts[0], proxy_candidate(qualified(parts[1]))),
            k - 1,
        );
    }
}

/// A per-protocol text with a segment that does not split at `=` into
/// exactly two parts stands for the empty map, however well the other
/// segments are formed.
pub proof fn lemma_platform_malformed(raw: Seq<char>, k: int)
    requires
        raw.contains('='),
        0 <= k < split(raw, ';').len(),
        split(split(raw, ';')[k], '=').len() != 2,
    ensures
        platform_map(raw) == SchemeMap::empty(),
{
    lemma_protocol_list_malformed(split(raw, ';'), Map::empty(), k);
}

/// A single address that names no scheme is read as an `http://` address,
/// and the proxy it names is entered under `http` and under `https` alike.
pub proof fn lemma_platform_single(raw: Seq<char>)
    requires
        !raw.contains('='),
        type_prefix(raw) is None,
    ensures
        platform_map(raw) == match validated(with_http_scheme(raw)) {
            Ok(proxy) => SchemeMap::empty().insert("http"@, proxy).insert("https"@, proxy),
            Err(_) => SchemeMap::empty(),
        },
{
    reveal_strlit("http://");
    let address = with_http_scheme(raw);
    assert(address[0] == 'h');
    assert(!is_whitespace(address[0]));
}

/// What is taken as the platform's settings after an attempt to fetch them:
/// a failed attempt counts as no settings.
pub fn get_from_platform(fetched: Result<Option<String>, PlatformFetchError>) -> (platform_values:
    Option<String>)
    ensures
        platform_values == match fetched {
            Ok(values) => values,
            Err(_) => None,
        },
{
    match fetched {
        Ok(values) => values,
        Err(_) => None,
    }
}

/// Reads what the platform reported into a map.
pub fn parse_platform_values(platform_values: Option<String>) -> (proxies: SystemProxyMap)
    ensures
        proxies@ == platform_values_map(text_view(platform_values)),
{
    match platform_values {
        Some(raw) => parse_platform_values_impl(raw),
        None => SystemProxyMap::new(),
    }
}

/// Reads the platform's text into a map.
pub fn parse_platform_values_impl(platform_values: String) -> (proxies: SystemProxyMap)
    ensures
        proxies@ == platform_map(platform_values@),
{
    let mut proxies = SystemProxyMap::new();
    let text = platform_values.as_str();
    let chars = chars_of(text);
    let n = chars.len();
    proof {
        assert(chars@.skip(0) == chars@);
        lemma_first_index(chars@, '=');
    }
    if index_from(&chars, 0, '=') < n {
        // per-protocol settings.
        let mut start: usize = 0;
        let mut more = true;
        while more
            invariant
                chars@ == text@,
                n == chars.len(),
                start <= n,
                more ==> platform_map(text@) == protocol_list(
                    split(chars@.skip(start as int), ';'),
                    proxies@,
                ),
                !more ==> platform_map(text@) == proxies@,
            decreases
                    (if more {
                        n - start + 1
                    } else {
                        0
                    }),
        {
            let end = piece_end(&chars, start, ';');
            let ghost segments = split(chars@.skip(start as int), ';');
            let ghost before = proxies@;
            assert(segments[0] == chars@.subrange(start as int, end as int));
            match single_delimiter(&chars, start, end, '=') {
                Some(at) => {
                    let protocol = text.substring_char(start, at);
                    let address = text.substring_char(at + 1, end);
                    // If address doesn't specify an explicit protocol as protocol://address
                    // then default to HTTP
                    let address = if extract_type_prefix(address).is_some() {
                        String::from_str(address)
                    } else {
                        String::from_str("http://").concat(address)
                    };
                    proxies.insert_proxy(protocol, address);
                    if end < n {
                        assert(segments.drop_first() == split(chars@.skip(end + 1), ';'));
                        start = end + 1;
                    } else {
                        assert(segments.drop_first().len() == 0);
                        assert(protocol_list(segments.drop_first(), proxies@) == proxies@);
                        more = false;
                    }
                },
                None => {
                    // Contains invalid protocol setting, just break the loop
                    // And make proxies to be empty.
                    proxies.clear();
                    assert(protocol_list(segments, before) == SchemeMap::empty());
                    more = false;
                },
            }
        }
    } else {
        if let Some(scheme) = extract_type_prefix(text) {
            // Explicit protocol has been specified
            proxies.insert_proxy(scheme, String::from_str(text));
        } else {
            // No explicit protocol has been specified, default to HTTP
            proxies.insert_proxy("http", String::from_str("http://").concat(text));
            proxies.insert_proxy("https", String::from_str("http://").concat(text));
        }
    }
    proxies
}

/// Whether the background watcher has been started. Once running, it runs
/// for as long as the process does.
pub struct WatcherHandle {
    running: bool,
}

impl WatcherHandle {
    /// The handle of a watcher that has not been started.
    pub fn new() -> (handle: WatcherHandle)
        ensures
            !handle.is_running(),
    {
        WatcherHandle { running: false }
    }

    /// Whether the watcher has been started.
    pub closed spec fn is_running(&self) -> bool {
        self.running
    }

    /// Whether the watcher has been started.
    pub fn running(&self) -> (running: bool)
        ensures
            running == self.is_running(),
    {
        self.running
    }
}

/// Marks the watcher as started and says whether the caller has to start it
/// now, which is so for the first call only.
pub fn start_background_watcher(handle: &mut WatcherHandle) -> (spawn: bool)
    ensures
        final(handle).is_running(),
        spawn == !old(handle).is_running(),
{
    let spawn = !handle.running;
    handle.running = true;
    spawn
}

/// The cache after the watcher has dealt with one notification of a change.
/// What was fetched is read into a map and published; after a failed fetch
/// the cache keeps what it has. A cache that was never read keeps nothing.
pub open spec fn watched(
    cache: Option<SchemeMap>,
    fetched: Result<Option<String>, PlatformFetchError>,
) -> Option<SchemeMap> {
    match (cache, fetched) {
        (Some(_), Ok(_)) => Some(platform_values_map(fetched_values(fetched))),
        _ => cache,
    }
}

/// The watcher's work on one notification that the platform's settings have
/// changed: `fetched` is what fetching them gave. Says whether a new
/// snapshot was published.
pub fn background_proxy_watcher(
    cache: &mut ProxyCache,
    fetched: Result<Option<String>, PlatformFetchError>,
) -> (published: bool)
    ensures
        final(cache)@ == watched(old(cache)@, fetched),
        published == (old(cache)@ is Some && fetched is Ok),
{
    match fetched {
        Ok(platform_values) => {
            let published = cache.is_initialized();
            update_proxy_cache(cache, parse_platform_values(platform_values));
            published
        },
        Err(_) => false,
    }
}

/// The proxy of a map for the scheme of a URL.
pub open spec fn lookup(map: SchemeMap, target_url: UrlView) -> Option<ProxySchemeView> {
    if map.contains_key(target_url.scheme) {
        Some(map[target_url.scheme])
    } else {
        None
    }
}

/// The view of a proxy that may be there.
pub open spec fn proxy_view(proxy: Option<ProxyScheme>) -> Option<ProxySchemeView> {
    match proxy {
        Some(p) => Some(p@),
        None => None,
    }
}

/// What a call of the resolver decided.
#[derive(Debug, PartialEq, Eq)]
pub struct Resolution {
    /// The proxy to send the request through; `None` for a direct connection.
    pub proxy: Option<ProxyScheme>,
    /// Whether the caller has to start the background watcher now.
    pub start_watcher: bool,
}

/// The proxy for a request to `target_url`. The environment's map decides
/// where it has an entry for the URL's scheme; else the current snapshot of
/// the platform's settings does, and the cache is read only then. The
/// watcher is marked as started in any case.
pub fn resolve_proxy_from_url<F: FnOnce() -> Result<Option<String>, PlatformFetchError>>(
    watcher: &mut WatcherHandle,
    env: &SystemProxyMap,
    cache: &mut ProxyCache,
    target_url: &Url,
    fetch: F,
) -> (resolution: Resolution)
    requires
        fetch.requires(()),
    ensures
        final(watcher).is_running(),
        resolution.start_watcher == !old(watcher).is_running(),
        resolution.proxy matches Some(p) ==> p.wf(),
        lookup(env@, target_url@) is Some ==> {
            &&& proxy_view(resolution.proxy) == lookup(env@, target_url@)
            &&& final(cache)@ == old(cache)@
        },
        lookup(env@, target_url@) is None ==> {
            &&& final(cache)@ matches Some(snapshot) && proxy_view(resolution.proxy) == lookup(
                snapshot,
                target_url@,
            )
            &&& old(cache)@ is Some ==> final(cache)@ == old(cache)@
            &&& old(cache)@ is None ==> exists|fetched: Result<Option<String>, PlatformFetchError>|
                fetch.ensures((), fetched) && final(cache)@ == Some(
                    platform_values_map(fetched_values(fetched)),
                )
        },
{
    let start_watcher = start_background_watcher(watcher);
    let proxy = match resolve_from_env(env, target_url) {
        Some(proxy) => Some(proxy),
        None => resolve_from_system_proxy(cache, target_url, fetch),
    };
    Resolution { proxy, start_watcher }
}

/// The proxy that the environment's map has for the scheme of `target_url`.
pub fn resolve_from_env(env: &SystemProxyMap, target_url: &Url) -> (proxy: Option<ProxyScheme>)
    ensures
        proxy_view(proxy) == lookup(env@, target_url@),
        proxy matches Some(p) ==> p.wf(),
{
    match env.get(target_url.scheme.as_str()) {
        Some(proxy) => Some(proxy.clone()),
        None => None,
    }
}

/// The proxy that the current snapshot of the platform's settings has for
/// the scheme of `target_url`.
pub fn resolve_from_system_proxy<F: FnOnce() -> Result<Option<String>, PlatformFetchError>>(
    cache: &mut ProxyCache,
    target_url: &Url,
    fetch: F,
) -> (proxy: Option<ProxyScheme>)
    requires
        fetch.requires(()),
    ensures
        final(cache)@ matches Some(snapshot) && proxy_view(proxy) == lookup(snapshot, target_url@),
        proxy matches Some(p) ==> p.wf(),
        old(cache)@ is Some ==> final(cache)@ == old(cache)@,
        old(cache)@ is None ==> exists|fetched: Result<Option<String>, PlatformFetchError>|
            fetch.ensures((), fetched) && final(cache)@ == Some(
                platform_values_map(fetched_values(fetched)),
            ),
{
    let system_proxy_cache = get_proxy_cache(cache, fetch);
    resolve_from_env(&system_proxy_cache, target_url)
}

impl SharedProxyCache {
    /// The watcher's work on one notification, on a cache that is shared:
    /// the cell is read once, [`background_proxy_watcher`] decides on what
    /// was read, and a new snapshot is stored as a whole. Whether one is
    /// published depends on whether the cache has been read before, which is
    /// for its other holders to say; after a failed fetch none is.
    pub fn watch(&self, fetched: Result<Option<String>, PlatformFetchError>) -> (published: bool)
        ensures
            published ==> fetched is Ok,
    {
        let mut cache = ProxyCache::from_snapshot(self.load());
        let published = background_proxy_watcher(&mut cache, fetched);
        if published {
            self.store(cache.into_snapshot());
        }
        published
    }

    /// The proxy for a request to `target_url`, with a cache that is shared.
    /// The environment's map decides where it has an entry for the URL's
    /// scheme, and the cache is not touched then. Else the snapshot that is
    /// current decides, and which one that is depends on what the other
    /// holders of the cache have stored.
    pub fn resolve<F: FnOnce() -> Result<Option<String>, PlatformFetchError>>(
        &self,
        watcher: &mut WatcherHandle,
        env: &SystemProxyMap,
        target_url: &Url,
        fetch: F,
    ) -> (resolution: Resolution)
        requires
            fetch.requires(()),
        ensures
            final(watcher).is_running(),
            resolution.start_watcher == !old(watcher).is_running(),
            resolution.proxy matches Some(p) ==> p.wf(),
            lookup(env@, target_url@) is Some ==> proxy_view(resolution.proxy) == lookup(
                env@,
                target_url@,
            ),
    {
        let start_watcher = start_background_watcher(watcher);
        let proxy = match resolve_from_env(env, target_url) {
            Some(proxy) => Some(proxy),
            None => {
                let snapshot = self.get(fetch);
                resolve_from_env(&snapshot, target_url)
            },
        };
        Resolution { proxy, start_watcher }
    }
}

} // verus!
