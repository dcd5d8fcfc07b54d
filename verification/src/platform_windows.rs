//! What Windows reports of its proxy settings, once the values have been
//! read out of the registry: which of them count.

use crate::error::PlatformFetchError;
use vstd::prelude::*;

verus! {

/// What looking for a key or a value in the registry gave.
#[derive(Debug, PartialEq, Eq)]
pub enum Lookup<T> {
    /// It is there.
    Found(T),
    /// There is no such key or value.
    NotFound,
    /// It could not be read; the text says why.
    Failed(String),
}

/// The failure that a lookup reports, if it failed.
pub open spec fn lookup_failure<T>(lookup: Lookup<T>) -> Option<Seq<char>> {
    match lookup {
        Lookup::Failed(message) => Some(message@),
        _ => None,
    }
}

/// The proxy server that the internet settings of the current user name.
/// There is none where the settings are missing, where `ProxyEnable` is
/// missing or zero, and where `ProxyServer` is missing or empty. A key or
/// value that is there and cannot be read is a failure: that of the
/// settings' key first, then that of `ProxyEnable`, then, if the proxy is
/// switched on, that of `ProxyServer`.
pub open spec fn registry_setting(
    internet_settings: Lookup<()>,
    proxy_enable: Lookup<u32>,
    proxy_server: Lookup<String>,
) -> Result<Option<Seq<char>>, Seq<char>> {
    match internet_settings {
        Lookup::NotFound => Ok(None),
        Lookup::Failed(message) => Err(message@),
        Lookup::Found(_) => match proxy_enable {
            Lookup::Failed(message) => Err(message@),
            Lookup::NotFound => Ok(None),
            Lookup::Found(enable) => if enable == 0 {
                Ok(None)
            } else {
                match proxy_server {
                    Lookup::Failed(message) => Err(message@),
                    Lookup::NotFound => Ok(None),
                    Lookup::Found(server) => if server@.len() == 0 {
                        Ok(None)
                    } else {
                        Ok(Some(server@))
                    },
                }
            },
        },
    }
}

/// The view of what [`get_from_platform_impl`] returns.
pub open spec fn fetched_view(fetched: Result<Option<String>, PlatformFetchError>) -> Result<
    Option<Seq<char>>,
    Seq<char>,
> {
    match fetched {
        Ok(Some(server)) => Ok(Some(server@)),
        Ok(None) => Ok(None),
        Err(e) => Err(e.message@),
    }
}

/// The platform's settings, from what the registry holds under the internet
/// settings of the current user: the key itself, the value `ProxyEnable` and
/// the value `ProxyServer`.
pub fn get_from_platform_impl(
    internet_settings: Lookup<()>,
    proxy_enable: Lookup<u32>,
    proxy_server: Lookup<String>,
) -> (fetched: Result<Option<String>, PlatformFetchError>)
    ensures
        fetched_view(fetched) == registry_setting(internet_settings, proxy_enable, proxy_server),
{
    match internet_settings {
        Lookup::Found(_) => {},
        // If the key itself is not found, we can consider it as proxy not configured.
        Lookup::NotFound => {
            return Ok(None);
        },
        // For other errors opening the key (e.g., permissions), propagate the error.
        Lookup::Failed(message) => {
            return Err(PlatformFetchError { message });
        },
    }
    let enable: u32 = match proxy_enable {
        Lookup::Found(enable) => enable,
        // If ProxyEnable value is not found, assume proxy is disabled.
        Lookup::NotFound => 0,
        Lookup::Failed(message) => {
            return Err(PlatformFetchError { message });
        },
    };
    if enable == 0 {
        return Ok(None);
    }
    let server = match proxy_server {
        Lookup::Found(server) => server,
        // If ProxyServer value is not found, assume no proxy server is configured.
        Lookup::NotFound => {
            return Ok(None);
        },
        Lookup::Failed(message) => {
            return Err(PlatformFetchError { message });
        },
    };
    if server.as_str().is_empty() {
        return Ok(None);
    }
    Ok(Some(server))
}

} // verus!
