//! What macOS reports of its proxy settings, once the values have been read
//! out of the system's configuration store: how they become the one text
//! that the platform parser reads.

use crate::text::{integer_text, integer_to_text, same_text, text_view};
use vstd::prelude::*;
use vstd::string::*;

verus! {

/// The key of the configuration store under which the proxy settings stand.
pub const PROXY_KEY: &'static str = "State:/Network/Global/Proxies";

/// The segment for one protocol: `scheme=host:port`, or `scheme=host` where
/// no port is set.
pub open spec fn setting_text(scheme: Seq<char>, host: Seq<char>, port: Option<i32>) -> Seq<char> {
    match port {
        Some(p) => scheme + seq!['='] + host + seq![':'] + integer_text(p as int),
        None => scheme + seq!['='] + host,
    }
}

/// The segment that the settings of one protocol give: none unless the
/// protocol's proxy is switched on, which the flag `1` says, and a host is
/// set.
pub open spec fn dynamic_store_setting(
    enabled: Option<i32>,
    host: Option<Seq<char>>,
    port: Option<i32>,
    scheme: Seq<char>,
) -> Option<Seq<char>> {
    if enabled == Some(1i32) {
        match host {
            Some(h) => Some(setting_text(scheme, h, port)),
            None => None,
        }
    } else {
        None
    }
}

/// The text for the settings of `http` and `https` together: both segments
/// with `;` between them, or the one that is there.
pub open spec fn platform_text(http: Option<Seq<char>>, https: Option<Seq<char>>) -> Option<Seq<char>> {
    match (http, https) {
        (Some(a), Some(b)) => Some(a + seq![';'] + b),
        (Some(a), None) => Some(a),
        (None, _) => https,
    }
}

/// The segment for one protocol, from the values that the configuration
/// store holds for it: the flag that switches the proxy on, its host and its
/// port.
pub fn parse_setting_from_dynamic_store(
    enabled: Option<i32>,
    host: Option<String>,
    port: Option<i32>,
    scheme: &str,
) -> (setting: Option<String>)
    ensures
        text_view(setting) == dynamic_store_setting(enabled, text_view(host), port, scheme@),
{
    let proxy_enabled = match enabled {
        Some(flag) => flag == 1,
        None => false,
    };
    if proxy_enabled {
        proof {
            reveal_strlit("=");
            reveal_strlit(":");
            assert("="@ =~= seq!['=']);
            assert(":"@ =~= seq![':']);
        }
        return match (host, port) {
            (Some(proxy_host), Some(proxy_port)) => {
                let mut setting = String::from_str(scheme);
                setting.append("=");
                setting.append(proxy_host.as_str());
                setting.append(":");
                setting.append(integer_to_text(proxy_port).as_str());
                Some(setting)
            },
            (Some(proxy_host), None) => {
                let mut setting = String::from_str(scheme);
                setting.append("=");
                setting.append(proxy_host.as_str());
                Some(setting)
            },
            (None, Some(_)) => None,
            (None, None) => None,
        };
    }
    None
}

/// The one text for the platform's settings, from the segments of `http` and
/// `https`.
pub fn get_from_platform_impl(http_proxy_config: Option<String>, https_proxy_config: Option<String>) -> (
    platform_values: Option<String>
)
    ensures
        text_view(platform_values) == platform_text(
            text_view(http_proxy_config),
            text_view(https_proxy_config),
        ),
{
    match (http_proxy_config, https_proxy_config) {
        (Some(http_config), Some(https_config)) => {
            proof {
                reveal_strlit(";");
                assert(";"@ =~= seq![';']);
            }
            let mut both = http_config;
            both.append(";");
            both.append(https_config.as_str());
            Some(both)
        },
        (Some(http_config), None) => Some(http_config),
        (None, https_proxy_config) => https_proxy_config,
    }
}

/// Whether a change of the keys in `changed_keys` concerns the proxy
/// settings, so that the watcher has to be told.
pub fn on_change(changed_keys: &Vec<String>) -> (notify: bool)
    ensures
        notify == exists|i: int| 0 <= i < changed_keys.len() && (#[trigger] changed_keys[i])@ == PROXY_KEY@,
{
    let mut i: usize = 0;
    while i < changed_keys.len()
        invariant
            i <= changed_keys.len(),
            forall|j: int| 0 <= j < i ==> (#[trigger] changed_keys[j])@ != PROXY_KEY@,
        decreases changed_keys.len() - i,
    {
        if same_text(changed_keys[i].as_str(), PROXY_KEY) {
            return true;
        }
        i += 1;
    }
    false
}

} // verus!
