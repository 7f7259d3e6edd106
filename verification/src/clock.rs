//! Plain-value time arithmetic, and the one place the library reads the
//! wall clock. Instants are carried as integer counts of seconds (or, for
//! the request throttle, milliseconds) since the Unix epoch, so every
//! computation on them can be verified.

use vstd::prelude::*;
use std::time::SystemTime;
use std::time::UNIX_EPOCH;

verus! {

/// Mathematical saturating subtraction: `a - b`, floored at zero.
pub open spec fn sat_sub(a: int, b: int) -> int {
    if a < b {
        0
    } else {
        a - b
    }
}

/// `dur1 - dur2` would fail if `dur2 > dur1`; this returns a zero-length
/// duration in that case.
pub fn safe_duration_sub(dur1: u64, dur2: u64) -> (r: u64)
    ensures
        r == sat_sub(dur1 as int, dur2 as int),
{
    if dur1 < dur2 {
        0
    } else {
        dur1 - dur2
    }
}

/// Relies on std::time::SystemTime::now: the current wall-clock time,
/// converted to whole seconds since the Unix epoch (zero if the clock
/// reads earlier than the epoch). Nothing can be promised of the value.
#[verifier::external_body]
pub(crate) fn now_secs() -> u64 {
    match SystemTime::now().duration_since(UNIX_EPOCH) {
        Ok(d) => d.as_secs(),
        Err(_) => 0,
    }
}

} // verus!
