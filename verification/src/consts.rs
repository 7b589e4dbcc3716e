//! Named configuration constants of the bridge.  Their values are
//! load-bearing: the pacing delays respect the device's turnaround time and
//! the expiry window tells a consumer when a published value has gone stale.

use vstd::prelude::*;

verus! {

/// Staleness window, in seconds, advertised in every descriptor message.
pub const EXPIRES_AFTER_SECONDS: u64 = 300;

/// Pause between two probe reads of the discovery scanner, in milliseconds.
pub const SCAN_DELAY_MS: u64 = 500;

/// Pause after polling one point before moving to the next, in milliseconds.
pub const POLL_DELAY_MS: u64 = 850;

/// Capacity of the publishing actor's mailbox.
pub const MAILBOX_CAPACITY: usize = 8;

/// One past the highest register address the discovery scanner probes.
pub const SCAN_RANGE_END: u16 = 500;

} // verus!
