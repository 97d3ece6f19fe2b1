//! Reading and comparing the plain `major.minor.patch` version strings kept
//! in the persisted configuration, used to decide which one-time migrations
//! still apply.

use crate::text::{all_digits_in, digits_value, find_char, is_digit_char, parse_digits};
use vstd::prelude::*;

verus! {

/// `a` and `b` are the positions of the two dots of a `major.minor.patch`
/// string whose three components are nonempty digit runs.
pub open spec fn version_shape(s: Seq<char>, a: int, b: int) -> bool {
    &&& 1 <= a
    &&& a + 2 <= b
    &&& b + 2 <= s.len()
    &&& s[a] == '.'
    &&& s[b] == '.'
    &&& forall|i: int| 0 <= i < a ==> is_digit_char(s[i])
    &&& forall|i: int| a < i < b ==> is_digit_char(s[i])
    &&& forall|i: int| b < i < s.len() ==> is_digit_char(s[i])
}

/// `s` is a `major.minor.patch` string.
pub open spec fn has_version_shape(s: Seq<char>) -> bool {
    exists|a: int, b: int| version_shape(s, a, b)
}

/// The positions of the two dots of a version string.
pub open spec fn version_dots(s: Seq<char>) -> (int, int) {
    choose|a: int, b: int| version_shape(s, a, b)
}

/// The numeric components of a version string.
pub open spec fn version_triple(s: Seq<char>) -> (nat, nat, nat) {
    let (a, b) = version_dots(s);
    (
        digits_value(s.subrange(0, a)),
        digits_value(s.subrange(a + 1, b)),
        digits_value(s.subrange(b + 1, s.len() as int)),
    )
}

/// A version string has only one decomposition into three digit runs.
proof fn lemma_version_shape_unique(s: Seq<char>, a1: int, b1: int, a2: int, b2: int)
    requires
        version_shape(s, a1, b1),
        version_shape(s, a2, b2),
    ensures
        a1 == a2,
        b1 == b2,
{
    assert(!is_digit_char('.'));
    if a1 < a2 {
        assert(is_digit_char(s[a1]));
    }
    if a2 < a1 {
        assert(is_digit_char(s[a2]));
    }
    if b1 < b2 {
        assert(is_digit_char(s[b1]));
    }
    if b2 < b1 {
        assert(is_digit_char(s[b2]));
    }
}

/// Strict ordering of two version strings: both must be well-formed
/// `major.minor.patch` strings with components that fit in a `u64`, and the
/// first triple must be lexicographically smaller.
pub open spec fn version_lt(x: Seq<char>, y: Seq<char>) -> bool {
    &&& has_version_shape(x)
    &&& has_version_shape(y)
    &&& version_triple(x).0 <= u64::MAX
    &&& version_triple(x).1 <= u64::MAX
    &&& version_triple(x).2 <= u64::MAX
    &&& version_triple(y).0 <= u64::MAX
    &&& version_triple(y).1 <= u64::MAX
    &&& version_triple(y).2 <= u64::MAX
    &&& triple_lt(version_triple(x), version_triple(y))
}

/// Lexicographic order on version triples.
pub open spec fn triple_lt(x: (nat, nat, nat), y: (nat, nat, nat)) -> bool {
    ||| x.0 < y.0
    ||| (x.0 == y.0 && x.1 < y.1)
    ||| (x.0 == y.0 && x.1 == y.1 && x.2 < y.2)
}

/// The numeric components of a `major.minor.patch` string, or `None` if the
/// string is not of that shape or a component does not fit in a `u64`.
pub fn parse_version(s: &str) -> (r: Option<(u64, u64, u64)>)
    ensures
        match r {
            Some(t) => has_version_shape(s@) && version_triple(s@) == (
                t.0 as nat,
                t.1 as nat,
                t.2 as nat,
            ),
            None => !has_version_shape(s@) || version_triple(s@).0 > u64::MAX || version_triple(
                s@,
            ).1 > u64::MAX || version_triple(s@).2 > u64::MAX,
        },
{
    let v = crate::text::chars_vec(s);
    let n = v.len();
    let a = match find_char(&v, '.', 0) {
        Some(a) => a,
        None => {
            proof {
                assert(forall|a: int, b: int| !version_shape(s@, a, b));
            }
            return None;
        },
    };
    if a + 1 >= n {
        proof {
            lemma_no_other_shape(s@, a as int, n as int);
        }
        return None;
    }
    let b = match find_char(&v, '.', a + 1) {
        Some(b) => b,
        None => {
            proof {
                lemma_no_other_shape(s@, a as int, n as int);
            }
            return None;
        },
    };
    let shape_ok = 1 <= a && b - a >= 2 && n - b >= 2 && all_digits_in(&v, 0, a) && all_digits_in(
        &v,
        a + 1,
        b,
    ) && all_digits_in(&v, b + 1, n);
    if !shape_ok {
        proof {
            lemma_dots_pin_shape(s@, a as int, b as int);
        }
        return None;
    }
    proof {
        assert(version_shape(s@, a as int, b as int));
        lemma_triple_at(s@, a as int, b as int);
    }
    let major = parse_digits(&v, 0, a);
    let minor = parse_digits(&v, a + 1, b);
    let patch = parse_digits(&v, b + 1, n);
    match (major, minor, patch) {
        (Some(x), Some(y), Some(z)) => Some((x, y, z)),
        _ => None,
    }
}

/// If the first dot of `s` is at `a` and no dot follows it, or nothing
/// follows `a` at all, then `s` has no version shape.
proof fn lemma_no_other_shape(s: Seq<char>, a: int, n: int)
    requires
        n == s.len(),
        0 <= a < n,
        s[a] == '.',
        forall|j: int| 0 <= j < a ==> s[j] != '.',
        forall|j: int| a < j < n ==> s[j] != '.',
    ensures
        !has_version_shape(s),
{
    assert(!is_digit_char('.'));
    assert forall|a2: int, b2: int| !version_shape(s, a2, b2) by {
        if version_shape(s, a2, b2) {
            if a2 < a {
                assert(s[a2] == '.');
            } else if a2 > a {
                assert(is_digit_char(s[a]));
            } else {
                assert(s[b2] == '.');
            }
        }
    }
}

/// If the first dot of `s` is at `a` and the next dot after it is at `b`,
/// any version shape of `s` uses exactly those positions.
proof fn lemma_dots_pin_shape(s: Seq<char>, a: int, b: int)
    requires
        0 <= a < b < s.len(),
        s[a] == '.',
        s[b] == '.',
        forall|j: int| 0 <= j < a ==> s[j] != '.',
        forall|j: int| a < j < b ==> s[j] != '.',
    ensures
        forall|a2: int, b2: int|
            version_shape(s, a2, b2) ==> a2 == a && b2 == b,
{
    assert(!is_digit_char('.'));
    assert forall|a2: int, b2: int| version_shape(s, a2, b2) implies a2 == a && b2 == b by {
        if a2 < a {
            assert(s[a2] == '.');
        } else if a2 > a {
            assert(is_digit_char(s[a]));
        }
        if b2 < b {
            assert(s[b2] == '.');
        } else if b2 > b {
            assert(is_digit_char(s[b]));
        }
    }
}

/// Pins `version_triple` to the components cut at dot positions `a` and `b`.
proof fn lemma_triple_at(s: Seq<char>, a: int, b: int)
    requires
        version_shape(s, a, b),
    ensures
        has_version_shape(s),
        version_triple(s) == (
            digits_value(s.subrange(0, a)),
            digits_value(s.subrange(a + 1, b)),
            digits_value(s.subrange(b + 1, s.len() as int)),
        ),
{
    let (a2, b2) = version_dots(s);
    lemma_version_shape_unique(s, a, b, a2, b2);
}

/// Whether version string `older` denotes a strictly earlier version than
/// `than`; `false` when either string is not a plain `major.minor.patch`.
pub fn version_older_than(older: &str, than: &str) -> (r: bool)
    ensures
        r == version_lt(older@, than@),
{
    match (parse_version(older), parse_version(than)) {
        (Some(x), Some(y)) => {
            if x.0 != y.0 {
                x.0 < y.0
            } else if x.1 != y.1 {
                x.1 < y.1
            } else {
                x.2 < y.2
            }
        },
        _ => false,
    }
}

} // verus!
