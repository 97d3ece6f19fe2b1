//! Character-level helpers shared by the identifier validator, the cooldown
//! text reader and the human-readable renderings: character classes, decimal
//! digit runs, and substring search over character sequences.

use vstd::prelude::*;

verus! {

/// One decimal digit, `'0'` through `'9'`.
pub open spec fn is_digit_char(c: char) -> bool {
    48 <= (c as u32) && (c as u32) <= 57
}

/// Numeric value of a decimal digit character.
pub open spec fn digit_value(c: char) -> nat
    recommends
        is_digit_char(c),
{
    ((c as u32) - 48) as nat
}

/// An ASCII letter or decimal digit.
pub open spec fn is_alnum_char(c: char) -> bool {
    ||| 97 <= (c as u32) && (c as u32) <= 122
    ||| 65 <= (c as u32) && (c as u32) <= 90
    ||| is_digit_char(c)
}

/// Value of a sequence of decimal digits, most significant first.
pub open spec fn digits_value(s: Seq<char>) -> nat
    decreases s.len(),
{
    if s.len() == 0 {
        0
    } else {
        digits_value(s.drop_last()) * 10 + digit_value(s.last())
    }
}

/// The digit character for a value below ten.
pub open spec fn digit_char(d: nat) -> char {
    if d == 0 {
        '0'
    } else if d == 1 {
        '1'
    } else if d == 2 {
        '2'
    } else if d == 3 {
        '3'
    } else if d == 4 {
        '4'
    } else if d == 5 {
        '5'
    } else if d == 6 {
        '6'
    } else if d == 7 {
        '7'
    } else if d == 8 {
        '8'
    } else {
        '9'
    }
}

/// Decimal rendering of a natural number, most significant digit first.
pub open spec fn decimal_chars(n: nat) -> Seq<char>
    decreases n,
{
    if n < 10 {
        seq![digit_char(n)]
    } else {
        decimal_chars(n / 10).push(digit_char(n % 10))
    }
}

/// `needle` occurs in `hay` starting at index `i`.
pub open spec fn matches_at(hay: Seq<char>, needle: Seq<char>, i: int) -> bool {
    &&& 0 <= i
    &&& i + needle.len() <= hay.len()
    &&& forall|k: int| 0 <= k < needle.len() ==> hay[i + k] == needle[k]
}

/// `needle` occurs somewhere in `hay`.
pub open spec fn contains_seq(hay: Seq<char>, needle: Seq<char>) -> bool {
    exists|i: int| matches_at(hay, needle, i)
}

/// The characters of `s`, in order, as a vector.
pub fn chars_vec(s: &str) -> (r: Vec<char>)
    ensures
        r@ == s@,
{
    let mut r: Vec<char> = Vec::new();
    for c in it: s.chars()
        invariant
            it.seq() == s@,
            r@ =~= it.seq().subrange(0, it.index() as int),
    {
        r.push(c);
    }
    proof {
        assert(r@ =~= s@);
    }
    r
}

/// Whether `c` is a decimal digit.
pub fn is_digit(c: char) -> (r: bool)
    ensures
        r == is_digit_char(c),
{
    let u = c as u32;
    48 <= u && u <= 57
}

/// Whether `c` is an ASCII letter or digit.
pub fn is_alnum(c: char) -> (r: bool)
    ensures
        r == is_alnum_char(c),
{
    let u = c as u32;
    (97 <= u && u <= 122) || (65 <= u && u <= 90) || (48 <= u && u <= 57)
}

/// Whether `needle` occurs in `hay` at index `i`.
pub fn seq_matches_at(hay: &Vec<char>, needle: &Vec<char>, i: usize) -> (r: bool)
    ensures
        r == matches_at(hay@, needle@, i as int),
{
    if i > hay.len() || needle.len() > hay.len() - i {
        return false;
    }
    let mut k: usize = 0;
    while k < needle.len()
        invariant
            0 <= k <= needle.len(),
            i + needle.len() <= hay.len(),
            forall|j: int| 0 <= j < k ==> hay@[i + j] == needle@[j],
        decreases needle.len() - k,
    {
        if hay[i + k] != needle[k] {
            return false;
        }
        k += 1;
    }
    true
}

/// Whether `needle` occurs anywhere in `hay`.
pub fn seq_contains(hay: &Vec<char>, needle: &Vec<char>) -> (r: bool)
    ensures
        r == contains_seq(hay@, needle@),
{
    if needle.len() > hay.len() {
        return false;
    }
    let mut i: usize = 0;
    while i <= hay.len() - needle.len()
        invariant
            needle.len() <= hay.len(),
            0 <= i <= hay.len() - needle.len() + 1,
            forall|j: int| 0 <= j < i ==> !matches_at(hay@, needle@, j),
        decreases hay.len() - needle.len() + 1 - i,
    {
        if seq_matches_at(hay, needle, i) {
            return true;
        }
        i += 1;
    }
    false
}

/// Whether two string slices hold the same characters.
pub fn str_eq(a: &str, b: &str) -> (r: bool)
    ensures
        r == (a@ == b@),
{
    let va = chars_vec(a);
    let vb = chars_vec(b);
    if va.len() != vb.len() {
        proof {
            assert(a@ != b@);
        }
        return false;
    }
    let mut i: usize = 0;
    while i < va.len()
        invariant
            va@ == a@,
            vb@ == b@,
            i <= va@.len(),
            va@.len() == vb@.len(),
            forall|j: int| 0 <= j < i ==> va@[j] == vb@[j],
        decreases va@.len() - i,
    {
        if va[i] != vb[i] {
            proof {
                assert(a@ != b@);
            }
            return false;
        }
        i += 1;
    }
    proof {
        assert(a@ =~= b@);
    }
    true
}

/// Whether every character of `v` in `[from, to)` is a decimal digit.
pub fn all_digits_in(v: &Vec<char>, from: usize, to: usize) -> (r: bool)
    requires
        from <= to <= v@.len(),
    ensures
        r == forall|i: int| from <= i < to ==> is_digit_char(v@[i]),
{
    let mut i: usize = from;
    while i < to
        invariant
            from <= i <= to <= v@.len(),
            forall|j: int| from <= j < i ==> is_digit_char(v@[j]),
        decreases to - i,
    {
        if !is_digit(v[i]) {
            return false;
        }
        i += 1;
    }
    true
}

/// Index of the first occurrence of `c` in `v` at or after `from`.
pub fn find_char(v: &Vec<char>, c: char, from: usize) -> (r: Option<usize>)
    requires
        from <= v@.len(),
    ensures
        match r {
            Some(i) => from <= i < v@.len() && v@[i as int] == c && forall|j: int|
                from <= j < i ==> v@[j] != c,
            None => forall|j: int| from <= j < v@.len() ==> v@[j] != c,
        },
{
    let mut i: usize = from;
    while i < v.len()
        invariant
            from <= i <= v@.len(),
            forall|j: int| from <= j < i ==> v@[j] != c,
        decreases v@.len() - i,
    {
        if v[i] == c {
            return Some(i);
        }
        i += 1;
    }
    None
}

/// Value of the digit run `s[from..to]`, or `None` if it would not fit in
/// a `u64`.
pub fn parse_digits(s: &Vec<char>, from: usize, to: usize) -> (r: Option<u64>)
    requires
        from <= to <= s@.len(),
        forall|i: int| from <= i < to ==> is_digit_char(s@[i]),
    ensures
        match r {
            Some(v) => digits_value(s@.subrange(from as int, to as int)) == v,
            None => digits_value(s@.subrange(from as int, to as int)) > u64::MAX,
        },
{
    let ghost whole = s@.subrange(from as int, to as int);
    let mut acc: u64 = 0;
    let mut i: usize = from;
    while i < to
        invariant
            from <= i <= to <= s@.len(),
            forall|k: int| from <= k < to ==> is_digit_char(s@[k]),
            whole == s@.subrange(from as int, to as int),
            acc == digits_value(s@.subrange(from as int, i as int)),
        decreases to - i,
    {
        let ghost prefix = s@.subrange(from as int, i as int);
        let c = s[i];
        let d: u64 = (c as u32 - 48) as u64;
        proof {
            assert(s@.subrange(from as int, (i + 1) as int).drop_last() =~= prefix);
            assert(s@.subrange(from as int, (i + 1) as int).last() == s@[i as int]);
        }
        let step = match acc.checked_mul(10) {
            Some(t) => t.checked_add(d),
            None => None,
        };
        match step {
            Some(v) => {
                acc = v;
            }
            None => {
                proof {
                    lemma_digits_value_prefix_le(s@.subrange(from as int, to as int), i - from + 1);
                    assert(s@.subrange(from as int, to as int).subrange(0, i - from + 1) =~= s@
                        .subrange(from as int, (i + 1) as int));
                }
                return None;
            }
        }
        i += 1;
    }
    proof {
        assert(s@.subrange(from as int, to as int) =~= s@.subrange(from as int, i as int));
    }
    Some(acc)
}

/// The value of a digit run is at least the value of any of its prefixes.
proof fn lemma_digits_value_prefix_le(s: Seq<char>, n: int)
    requires
        0 <= n <= s.len(),
    ensures
        digits_value(s.subrange(0, n)) <= digits_value(s),
    decreases s.len() - n,
{
    if n == s.len() {
        assert(s.subrange(0, n) =~= s);
    } else {
        lemma_digits_value_prefix_le(s, n + 1);
        let p = s.subrange(0, n + 1);
        assert(p.drop_last() =~= s.subrange(0, n));
        assert(digits_value(s.subrange(0, n)) <= digits_value(p));
    }
}

/// The digit string for a value below ten.
pub fn digit_str(d: u64) -> (r: &'static str)
    requires
        d < 10,
    ensures
        r@ =~= seq![digit_char(d as nat)],
{
    proof {
        reveal_strlit("0");
        reveal_strlit("1");
        reveal_strlit("2");
        reveal_strlit("3");
        reveal_strlit("4");
        reveal_strlit("5");
        reveal_strlit("6");
        reveal_strlit("7");
        reveal_strlit("8");
        reveal_strlit("9");
    }
    match d {
        0 => "0",
        1 => "1",
        2 => "2",
        3 => "3",
        4 => "4",
        5 => "5",
        6 => "6",
        7 => "7",
        8 => "8",
        _ => "9",
    }
}

/// Decimal rendering of `n`.
pub fn u64_to_string(n: u64) -> (r: String)
    ensures
        r@ == decimal_chars(n as nat),
    decreases n,
{
    if n < 10 {
        String::from_str(digit_str(n))
    } else {
        let mut s = u64_to_string(n / 10);
        s.append(digit_str(n % 10));
        proof {
            assert(s@ =~= decimal_chars((n / 10) as nat).push(digit_char((n % 10) as nat)));
        }
        s
    }
}

} // verus!
