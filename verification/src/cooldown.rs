//! The cooldown oracle: turns the human-readable status page text into a
//! remaining cooldown.
//!
//! The page is searched for the fixed sentence "Time until next refresh
//! available is N minute…"; on a match the remaining duration is N minutes
//! plus a small safety buffer, and on no match (or a failed fetch) a fixed
//! default cooldown is assumed.  The sentence is an observed convention of
//! the remote service, not a guaranteed protocol.

use crate::response::{FailureReason, KpResponse};
use crate::text::{chars_vec, digits_value, is_digit, is_digit_char, matches_at, parse_digits,
    seq_matches_at};
use vstd::prelude::*;

verus! {

/// Fallback cooldown, in seconds, assumed when the page text gives none.
pub const DEFAULT_RETRY_FREQUENCY_S: u64 = 5 * 60;

/// Safety buffer, in seconds, added to a parsed cooldown so that the retry
/// does not land just inside the cooldown boundary under clock skew.
pub const COOLDOWN_BUFFER_S: u64 = 30;

/// The fixed sentence that precedes the minute count.
pub open spec fn cooldown_prefix() -> Seq<char> {
    "Time until next refresh available is "@
}

/// The word that must follow the minute count.
pub open spec fn cooldown_suffix() -> Seq<char> {
    " minute"@
}

/// `[j, e)` is the maximal digit run starting at `j`.
pub open spec fn digit_run(s: Seq<char>, j: int, e: int) -> bool {
    &&& 0 <= j <= e <= s.len()
    &&& forall|k: int| j <= k < e ==> is_digit_char(s[k])
    &&& (e == s.len() || !is_digit_char(s[e]))
}

/// The cooldown sentence occurs at `i`, with its digit run ending at `e`.
pub open spec fn cooldown_match(s: Seq<char>, i: int, e: int) -> bool {
    let j = i + cooldown_prefix().len();
    &&& matches_at(s, cooldown_prefix(), i)
    &&& digit_run(s, j, e)
    &&& e > j
    &&& matches_at(s, cooldown_suffix(), e)
}

/// The leftmost occurrence of the cooldown sentence.
pub open spec fn first_cooldown_match(s: Seq<char>, i: int, e: int) -> bool {
    &&& cooldown_match(s, i, e)
    &&& forall|i2: int, e2: int| i2 < i ==> !cooldown_match(s, i2, e2)
}

/// Some cooldown sentence occurs in `s`.
pub open spec fn has_cooldown_match(s: Seq<char>) -> bool {
    exists|i: int, e: int| first_cooldown_match(s, i, e)
}

/// Remaining seconds announced by the leftmost cooldown sentence:
/// the minute count times sixty, plus the safety buffer.
pub open spec fn cooldown_value(s: Seq<char>) -> nat {
    let (i, e) = choose|i: int, e: int| first_cooldown_match(s, i, e);
    60 * digits_value(s.subrange(i + cooldown_prefix().len(), e)) + 30
}

/// The remaining cooldown read from page text `s`: `None` when no cooldown
/// sentence occurs or the announced value does not fit in a `u64` of
/// seconds.
pub open spec fn spec_extract_duration(s: Seq<char>) -> Option<u64> {
    if has_cooldown_match(s) && cooldown_value(s) <= u64::MAX {
        Some(cooldown_value(s) as u64)
    } else {
        None
    }
}

/// A digit run starting at a given position ends at only one place.
proof fn lemma_digit_run_unique(s: Seq<char>, j: int, e1: int, e2: int)
    requires
        digit_run(s, j, e1),
        digit_run(s, j, e2),
    ensures
        e1 == e2,
{
    if e1 < e2 {
        assert(is_digit_char(s[e1]));
    }
    if e2 < e1 {
        assert(is_digit_char(s[e2]));
    }
}

/// There is only one leftmost occurrence of the cooldown sentence.
proof fn lemma_first_match_unique(s: Seq<char>, i1: int, e1: int, i2: int, e2: int)
    requires
        first_cooldown_match(s, i1, e1),
        first_cooldown_match(s, i2, e2),
    ensures
        i1 == i2,
        e1 == e2,
{
    if i1 < i2 {
        assert(!cooldown_match(s, i1, e1));
    }
    if i2 < i1 {
        assert(!cooldown_match(s, i2, e2));
    }
    lemma_digit_run_unique(s, i1 + cooldown_prefix().len(), e1, e2);
}

/// Reads the remaining cooldown out of the status page text.
pub fn extract_duration(text: &str) -> (r: Option<u64>)
    ensures
        r == spec_extract_duration(text@),
{
    proof {
        reveal_strlit("Time until next refresh available is ");
    }
    let hay = chars_vec(text);
    let prefix = chars_vec("Time until next refresh available is ");
    let suffix = chars_vec(" minute");
    let n = hay.len();
    if prefix.len() > n {
        return None;
    }
    let mut i: usize = 0;
    while i <= n - prefix.len()
        invariant
            hay@ == text@,
            prefix@ == cooldown_prefix(),
            suffix@ == cooldown_suffix(),
            n == hay@.len(),
            1 <= prefix@.len() <= n,
            0 <= i <= n - prefix@.len() + 1,
            forall|i2: int, e2: int| i2 < i ==> !cooldown_match(hay@, i2, e2),
        decreases n - prefix@.len() + 1 - i,
    {
        if seq_matches_at(&hay, &prefix, i) {
            let j = i + prefix.len();
            let mut e = j;
            while e < n && is_digit(hay[e])
                invariant
                    hay@.len() == n,
                    j <= e <= n,
                    forall|k: int| j <= k < e ==> is_digit_char(hay@[k]),
                decreases n - e,
            {
                e += 1;
            }
            proof {
                assert(digit_run(hay@, j as int, e as int));
            }
            if e > j && seq_matches_at(&hay, &suffix, e) {
                proof {
                    assert(cooldown_match(hay@, i as int, e as int));
                    assert(first_cooldown_match(hay@, i as int, e as int));
                    assert(has_cooldown_match(hay@));
                    let (ci, ce) = choose|ci: int, ce: int| first_cooldown_match(hay@, ci, ce);
                    lemma_first_match_unique(hay@, i as int, e as int, ci, ce);
                }
                let minutes = parse_digits(&hay, j, e);
                let ghost dv = digits_value(hay@.subrange(j as int, e as int));
                match minutes {
                    Some(m) => {
                        match m.checked_mul(60) {
                            Some(t) => {
                                match t.checked_add(30) {
                                    Some(secs) => {
                                        return Some(secs);
                                    },
                                    None => {
                                        return None;
                                    },
                                }
                            },
                            None => {
                                return None;
                            },
                        }
                    },
                    None => {
                        proof {
                            assert(60 * dv >= dv) by (nonlinear_arith);
                        }
                        return None;
                    },
                }
            } else {
                proof {
                    assert forall|e2: int| !cooldown_match(hay@, i as int, e2) by {
                        if cooldown_match(hay@, i as int, e2) {
                            lemma_digit_run_unique(hay@, j as int, e as int, e2);
                        }
                    }
                }
            }
        }
        i += 1;
    }
    proof {
        assert forall|i2: int, e2: int| !cooldown_match(hay@, i2, e2) by {
            if cooldown_match(hay@, i2, e2) {
                assert(i2 + cooldown_prefix().len() <= hay@.len());
            }
        }
    }
    None
}

/// The outcome assumed when the remaining cooldown is unknown.
pub open spec fn spec_default_cooldown_response() -> KpResponse {
    KpResponse::Failure(FailureReason::RefreshCooldown(DEFAULT_RETRY_FREQUENCY_S as u64))
}

/// The conservative cooldown outcome: retry after the fixed default delay.
pub fn default_cooldown_response() -> (r: KpResponse)
    ensures
        r == spec_default_cooldown_response(),
{
    KpResponse::Failure(FailureReason::RefreshCooldown(DEFAULT_RETRY_FREQUENCY_S))
}

/// The cooldown outcome announced by the status page: the extracted
/// remaining duration, or the default when the page could not be fetched
/// (`None`) or announces none.
pub fn cooldown_response(html: Option<&str>) -> (r: KpResponse)
    ensures
        r == match html {
            Some(h) => match spec_extract_duration(h@) {
                Some(secs) => KpResponse::Failure(FailureReason::RefreshCooldown(secs)),
                None => spec_default_cooldown_response(),
            },
            None => spec_default_cooldown_response(),
        },
{
    match html {
        Some(h) => {
            match extract_duration(h) {
                Some(secs) => KpResponse::Failure(FailureReason::RefreshCooldown(secs)),
                None => default_cooldown_response(),
            }
        },
        None => default_cooldown_response(),
    }
}

} // verus!
