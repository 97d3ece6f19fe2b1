//! The wall clock, read through the outside time library.
//!
//! Scheduling decisions take the current time as an explicit argument and
//! are verified for every value of it; this module only supplies that
//! value.

use vstd::prelude::*;

verus! {

/// Relies on chrono's `Utc::now` and `DateTime::timestamp`: whole seconds
/// between the Unix epoch and the current wall-clock time.  The value is
/// time-dependent, so nothing is promised of it; `Utc::now` aborts on a
/// system clock set before the epoch.
#[verifier::external_body]
fn unix_timestamp_raw() -> (r: i64) {
    chrono::Utc::now().timestamp()
}

/// The current time as whole seconds since the Unix epoch; a clock reading
/// before the epoch clamps to zero.
pub fn now_unix() -> (r: u64) {
    let t = unix_timestamp_raw();
    if t < 0 {
        0
    } else {
        t as u64
    }
}

} // verus!
