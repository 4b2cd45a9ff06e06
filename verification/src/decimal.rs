//! Decimal rendering and parsing of integers, as `Display` and `FromStr` do
//! for the primitive integer types.

use vstd::prelude::*;
use crate::text::{chars_of, string_of};

verus! {

/// The ASCII digit for `d`.
pub open spec fn digit_char(d: int) -> char
    recommends
        0 <= d < 10,
{
    ((d + 48) as u32) as char
}

/// Whether `c` is an ASCII digit.
pub open spec fn is_digit(c: char) -> bool {
    '0' <= c <= '9'
}

/// The value of the ASCII digit `c`.
pub open spec fn digit_value(c: char) -> int {
    (c as u32) - 48
}

/// Decimal digits of `n`, without leading zeros.
pub open spec fn nat_decimal(n: nat) -> Seq<char>
    decreases n,
{
    if n < 10 {
        seq![digit_char(n as int)]
    } else {
        nat_decimal(n / 10).push(digit_char((n % 10) as int))
    }
}

/// Decimal rendering of `i`, with a leading `-` when negative
/// (`i64::to_string`).
pub open spec fn int_decimal(i: int) -> Seq<char> {
    if i < 0 {
        seq!['-'] + nat_decimal((-i) as nat)
    } else {
        nat_decimal(i as nat)
    }
}

/// Whether every character of `s` is an ASCII digit.
pub open spec fn all_digits(s: Seq<char>) -> bool {
    forall|i: int| 0 <= i < s.len() ==> is_digit(#[trigger] s[i])
}

/// Value of the digit string `s`, most significant digit first.
pub open spec fn digits_value(s: Seq<char>) -> int
    decreases s.len(),
{
    if s.len() == 0 {
        0
    } else {
        digits_value(s.drop_last()) * 10 + digit_value(s.last())
    }
}

/// Value of a non-empty digit string, or `None`.
pub open spec fn parse_digits(s: Seq<char>) -> Option<int> {
    if s.len() > 0 && all_digits(s) {
        Some(digits_value(s))
    } else {
        None
    }
}

/// The integer that `FromStr` for a primitive integer type reads from `s`,
/// before the range check: an optional sign (`-` only when `signed`) and at
/// least one ASCII digit.
pub open spec fn parse_integer(s: Seq<char>, signed: bool) -> Option<int> {
    if s.len() == 0 {
        None
    } else if (s[0] == '+' || s[0] == '-') && s.len() == 1 {
        None
    } else if s[0] == '+' {
        parse_digits(s.drop_first())
    } else if s[0] == '-' && signed {
        match parse_digits(s.drop_first()) {
            Some(v) => Some(-v),
            None => None,
        }
    } else {
        parse_digits(s)
    }
}

/// `u16::from_str`.
pub open spec fn parse_u16(s: Seq<char>) -> Option<u16> {
    match parse_integer(s, false) {
        Some(v) => if 0 <= v <= u16::MAX {
            Some(v as u16)
        } else {
            None
        },
        None => None,
    }
}

/// `i64::from_str`.
pub open spec fn parse_i64(s: Seq<char>) -> Option<i64> {
    match parse_integer(s, true) {
        Some(v) => if i64::MIN <= v <= i64::MAX {
            Some(v as i64)
        } else {
            None
        },
        None => None,
    }
}

proof fn lemma_digits_value_nonneg(s: Seq<char>)
    requires
        all_digits(s),
    ensures
        digits_value(s) >= 0,
    decreases s.len(),
{
    if s.len() > 0 {
        lemma_digits_value_nonneg(s.drop_last());
    }
}

/// Value of `s[from..]` read as digits, capped: `None` once it exceeds
/// `limit` or a non-digit appears.
fn digits_up_to(s: &[char], from: usize, limit: u64) -> (r: Option<u64>)
    requires
        from < s@.len(),
        limit >= 9,
    ensures
        match r {
            Some(v) => all_digits(s@.skip(from as int)) && v == digits_value(s@.skip(from as int))
                && v <= limit,
            None => !all_digits(s@.skip(from as int)) || digits_value(s@.skip(from as int))
                > limit,
        },
{
    let ghost t = s@.skip(from as int);
    let mut acc: u64 = 0;
    let mut i: usize = from;
    while i < s.len()
        invariant
            from <= i <= s@.len(),
            t == s@.skip(from as int),
            all_digits(s@.subrange(from as int, i as int)),
            acc == digits_value(s@.subrange(from as int, i as int)),
            acc <= limit,
            limit >= 9,
        decreases s@.len() - i,
    {
        let c = s[i];
        let ghost pre = s@.subrange(from as int, i as int);
        let ghost next = s@.subrange(from as int, i + 1);
        assert(next.drop_last() == pre);
        if !('0' <= c && c <= '9') {
            assert(t[i - from] == c);
            return None;
        }
        let d: u64 = ((c as u32) - 48) as u64;
        if acc > (limit - d) / 10 {
            proof {
                lemma_digits_value_nonneg(s@.subrange(from as int, i as int));
                assert(digits_value(next) > limit) by (nonlinear_arith)
                    requires
                        digits_value(next) == acc * 10 + d,
                        acc > (limit - d) / 10,
                        0 <= d <= 9,
                        d <= limit || acc > 0,
                ;
                if all_digits(t) {
                    assert(t.take(i + 1 - from) == next);
                    lemma_digits_prefix_value(t, (i + 1 - from) as nat, limit as int);
                }
            }
            return None;
        }
        assert(acc * 10 + d <= limit) by (nonlinear_arith)
            requires
                acc <= (limit - d) / 10,
                d <= limit,
        ;
        acc = acc * 10 + d;
        i += 1;
    }
    assert(s@.subrange(from as int, s@.len() as int) == t);
    Some(acc)
}

/// A digit string is worth at least as much as any of its prefixes.
proof fn lemma_digits_prefix_value(t: Seq<char>, k: nat, limit: int)
    requires
        k <= t.len(),
        all_digits(t),
        digits_value(t.take(k as int)) > limit,
        limit >= 0,
    ensures
        digits_value(t) > limit,
    decreases t.len(),
{
    if k < t.len() {
        let u = t.drop_last();
        assert(u.take(k as int) == t.take(k as int));
        lemma_digits_prefix_value(u, k, limit);
        lemma_digits_value_nonneg(u);
        assert(digits_value(t) >= digits_value(u));
    } else {
        assert(t.take(k as int) == t);
    }
}


/// Executable [`parse_u16`].
pub fn parse_u16_chars(s: &[char]) -> (r: Option<u16>)
    ensures
        r == parse_u16(s@),
{
    if s.len() == 0 {
        return None;
    }
    if (s[0] == '+' || s[0] == '-') && s.len() == 1 {
        return None;
    }
    let from: usize = if s[0] == '+' { 1 } else { 0 };
    assert(from == 0 ==> s@.skip(0) == s@);
    match digits_up_to(s, from, 65535) {
        Some(v) => Some(v as u16),
        None => None,
    }
}

/// Executable [`parse_i64`].
pub fn parse_i64_chars(s: &[char]) -> (r: Option<i64>)
    ensures
        r == parse_i64(s@),
{
    if s.len() == 0 {
        return None;
    }
    if (s[0] == '+' || s[0] == '-') && s.len() == 1 {
        return None;
    }
    let negative = s[0] == '-';
    let from: usize = if s[0] == '+' || negative { 1 } else { 0 };
    assert(from == 0 ==> s@.skip(0) == s@);
    let limit: u64 = if negative { 0x8000_0000_0000_0000 } else { 0x7fff_ffff_ffff_ffff };
    match digits_up_to(s, from, limit) {
        Some(v) => {
            if negative {
                if v == 0x8000_0000_0000_0000 {
                    Some(i64::MIN)
                } else {
                    Some(-(v as i64))
                }
            } else {
                Some(v as i64)
            }
        },
        None => None,
    }
}

/// Executable [`parse_u16`] on a string slice.
pub fn parse_u16_str(s: &str) -> (r: Option<u16>)
    ensures
        r == parse_u16(s@),
{
    let cs = chars_of(s);
    parse_u16_chars(&cs)
}

/// Decimal digits of `n`.
pub fn nat_decimal_chars(n: u64) -> (r: Vec<char>)
    ensures
        r@ == nat_decimal(n as nat),
{
    let mut out: Vec<char> = Vec::new();
    let mut m: u64 = n;
    while m >= 10
        invariant
            nat_decimal(n as nat) == nat_decimal(m as nat) + out@,
        decreases m,
    {
        let d: u64 = m % 10;
        let c: char = ((d + 48) as u8) as char;
        let ghost before = out@;
        out.insert(0, c);
        assert(out@ == seq![c] + before);
        assert(nat_decimal(m as nat) == nat_decimal((m / 10) as nat).push(c));
        assert(nat_decimal((m / 10) as nat).push(c) + before == nat_decimal((m / 10) as nat) + (
        seq![c] + before));
        m = m / 10;
    }
    let c: char = ((m + 48) as u8) as char;
    let ghost before = out@;
    out.insert(0, c);
    assert(out@ == seq![c] + before);
    assert(nat_decimal(m as nat) == seq![c]);
    out
}

/// `i64::to_string`.
pub fn i64_to_string(i: i64) -> (r: String)
    ensures
        r@ == int_decimal(i as int),
{
    if i < 0 {
        let mag: u64 = if i == i64::MIN {
            0x8000_0000_0000_0000
        } else {
            (-i) as u64
        };
        let digits = nat_decimal_chars(mag);
        let mut all: Vec<char> = Vec::new();
        all.push('-');
        let mut rest = digits;
        all.append(&mut rest);
        assert(all@ == seq!['-'] + digits@);
        string_of(&all)
    } else {
        let digits = nat_decimal_chars(i as u64);
        string_of(&digits)
    }
}

/// `u64::to_string` (and, by widening, `u16` and `usize`).
pub fn u64_to_string(n: u64) -> (r: String)
    ensures
        r@ == nat_decimal(n as nat),
{
    let digits = nat_decimal_chars(n);
    string_of(&digits)
}

} // verus!
