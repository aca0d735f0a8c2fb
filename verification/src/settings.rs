//! The settings of the monitor and their defaults.
use vstd::prelude::*;

verus! {

/// The port the HTTP server listens on where none is configured.
pub const DEFAULT_PORT: u16 = 3000;

/// Seconds between two connection attempts where none is configured.
pub const DEFAULT_RETRY_INTERVAL: u64 = 10;

/// Seconds between two forwardings of the state where none is configured.
pub const DEFAULT_FORWARD_INTERVAL: u64 = 120;

/// Seconds between two timeout checks where none is configured.
pub const DEFAULT_TIMEOUT_CHECK: u64 = 10;

/// The configured value of a setting, or `default` where the setting is
/// missing or unreadable.
pub fn configured_or<T: Copy>(configured: Option<T>, default: T) -> (value: T)
    ensures
        value == match configured {
            Some(v) => v,
            None => default,
        },
{
    match configured {
        Some(v) => v,
        None => default,
    }
}

} // verus!
