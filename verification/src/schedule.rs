//! The pending refresh, if any, and its human-readable rendering.
//!
//! At most one scheduled refresh exists at a time: either a wall-clock
//! instant, or the next crossing out of the designated maps.

use crate::text::{decimal_chars, u64_to_string};
use vstd::prelude::*;

verus! {

/// A pending refresh: fire once the wall clock passes the instant (seconds
/// since the Unix epoch), or on the next qualifying map crossing.
#[derive(Debug, Clone, Copy, PartialEq, Eq, Structural)]
pub enum ScheduledRefresh {
    OnNormalMapEnter,
    OnTime(u64),
}

/// Countdown wording for a remaining delay of `delta` seconds: whole minutes
/// rounded up when at least a minute is left, seconds below that, and a
/// placeholder once the instant has passed.
pub open spec fn countdown_chars(delta: int) -> Seq<char> {
    if delta >= 60 {
        decimal_chars((delta / 60 + 1) as nat) + " minutes"@
    } else if delta >= 2 {
        decimal_chars(delta as nat) + " seconds"@
    } else if delta == 1 {
        decimal_chars(1nat) + " second"@
    } else {
        "starts soon.."@
    }
}

/// Renders a remaining delay of `delta` seconds.
pub fn countdown_str(delta: i64) -> (r: String)
    ensures
        r@ == countdown_chars(delta as int),
{
    if delta >= 60 {
        let minutes = (delta as u64) / 60 + 1;
        let mut s = u64_to_string(minutes);
        s.append(" minutes");
        s
    } else if delta >= 2 {
        let mut s = u64_to_string(delta as u64);
        s.append(" seconds");
        s
    } else if delta == 1 {
        let mut s = u64_to_string(1);
        s.append(" second");
        s
    } else {
        String::from_str("starts soon..")
    }
}

/// The remaining delay from `now` to `t`, clamped into `i64`.
pub open spec fn spec_delta(t: u64, now: u64) -> int {
    if t <= now {
        0
    } else if t - now > i64::MAX {
        i64::MAX as int
    } else {
        t - now
    }
}

/// Wording of a scheduled refresh as shown to the user at time `now`.
pub open spec fn schedule_chars(sr: Option<ScheduledRefresh>, now: u64) -> Seq<char> {
    match sr {
        None => "not planned"@,
        Some(ScheduledRefresh::OnNormalMapEnter) => "on normal map enter"@,
        Some(ScheduledRefresh::OnTime(t)) => "in "@ + countdown_chars(spec_delta(t, now)),
    }
}

/// Renders the scheduled refresh for display at time `now`.
pub fn scheduled_refresh_text(scheduled_refresh: &Option<ScheduledRefresh>, now: u64) -> (r:
    String)
    ensures
        r@ == schedule_chars(*scheduled_refresh, now),
{
    match scheduled_refresh {
        None => String::from_str("not planned"),
        Some(ScheduledRefresh::OnNormalMapEnter) => String::from_str("on normal map enter"),
        Some(ScheduledRefresh::OnTime(t)) => {
            let delta: i64 = if *t <= now {
                0
            } else if *t - now > i64::MAX as u64 {
                i64::MAX
            } else {
                (*t - now) as i64
            };
            let mut s = String::from_str("in ");
            let c = countdown_str(delta);
            s.append(c.as_str());
            s
        },
    }
}

} // verus!
