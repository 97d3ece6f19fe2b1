//! Validation of a primary identifier.
//!
//! An identifier is accepted in one of two forms: a short alphanumeric key
//! (3 to 17 characters), or an account name — one or more alphanumeric
//! characters, a dot, and exactly four decimal digits.

use crate::text::{all_digits_in, is_alnum, is_alnum_char, is_digit_char};
use vstd::prelude::*;

verus! {

/// A short alphanumeric key: 3 to 17 letters or digits.
pub open spec fn simple_id(s: Seq<char>) -> bool {
    &&& 3 <= s.len() <= 17
    &&& forall|i: int| 0 <= i < s.len() ==> is_alnum_char(s[i])
}

/// An account name: letters or digits, a dot, then exactly four digits.
pub open spec fn account_id(s: Seq<char>) -> bool {
    &&& s.len() >= 6
    &&& forall|i: int| 0 <= i < s.len() - 5 ==> is_alnum_char(s[i])
    &&& s[s.len() - 5] == '.'
    &&& forall|i: int| s.len() - 4 <= i < s.len() ==> is_digit_char(s[i])
}

/// A well-formed primary identifier.
pub open spec fn valid_kp_id(s: Seq<char>) -> bool {
    simple_id(s) || account_id(s)
}

/// Whether every character of `v` in `[from, to)` is alphanumeric.
fn all_alnum(v: &Vec<char>, from: usize, to: usize) -> (r: bool)
    requires
        from <= to <= v@.len(),
    ensures
        r == forall|i: int| from <= i < to ==> is_alnum_char(v@[i]),
{
    let mut i: usize = from;
    while i < to
        invariant
            from <= i <= to <= v@.len(),
            forall|j: int| from <= j < i ==> is_alnum_char(v@[j]),
        decreases to - i,
    {
        if !is_alnum(v[i]) {
            return false;
        }
        i += 1;
    }
    true
}

/// Whether `s` is a well-formed primary identifier.
pub fn is_valid_kp_id(s: &str) -> (r: bool)
    ensures
        r == valid_kp_id(s@),
{
    let v = crate::text::chars_vec(s);
    let n = v.len();
    let simple = 3 <= n && n <= 17 && all_alnum(&v, 0, n);
    if simple {
        return true;
    }
    if n >= 6 {
        let account = v[n - 5] == '.' && all_alnum(&v, 0, n - 5) && all_digits_in(&v, n - 4, n);
        if account {
            return true;
        }
    }
    false
}

} // verus!
