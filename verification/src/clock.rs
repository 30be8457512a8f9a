//! Access to the process clock.
//!
//! The cache and the rate limiter work on explicit timestamps in
//! nanoseconds; their convenience entry points read the clock through
//! [`now_nanos`] and hand the reading to the timestamped core.

use vstd::prelude::*;

verus! {

/// Relies on std::time::SystemTime::now: a reading of the system clock,
/// converted to whole nanoseconds since the Unix epoch. A reading before
/// the epoch comes back as zero and one beyond the range of `u64` as
/// `u64::MAX`. Nothing is assumed of the value: callers state what holds
/// for every reading.
#[verifier::external_body]
pub fn now_nanos() -> u64 {
    match std::time::SystemTime::now().duration_since(std::time::UNIX_EPOCH) {
        Ok(d) => u64::try_from(d.as_nanos()).unwrap_or(u64::MAX),
        Err(_) => 0,
    }
}

} // verus!
