//! Proxy resolution for an HTTP client: validated proxy addresses, the
//! per-protocol maps built from the environment and from the platform's
//! settings, and the cache that keeps the platform's half fresh.

pub mod bindings;
pub mod error;
pub mod into_url;
pub mod platform;
pub mod platform_macos;
pub mod platform_windows;
pub mod scheme;
pub mod system;
pub mod text;
pub mod util;
