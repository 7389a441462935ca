//! Durations written as amounts with units, such as `1h20m30s`.

use crate::number::{
    all_digits, digits_to_u64, digits_value, is_digit, is_digit_char,
};
use vstd::prelude::*;

verus! {

/// How many milliseconds one of the unit `c` lasts: seconds, minutes, hours
/// and days have a unit.
pub open spec fn unit_millis(c: char) -> Option<nat> {
    if c == 's' {
        Some(1_000)
    } else if c == 'm' {
        Some(60_000)
    } else if c == 'h' {
        Some(3_600_000)
    } else if c == 'd' {
        Some(86_400_000)
    } else {
        None
    }
}

/// The first position at or after `i` that holds no digit, or the length of
/// `s`.
pub open spec fn digits_end(s: Seq<char>, i: int) -> int
    decreases s.len() - i,
{
    if 0 <= i < s.len() && is_digit(s[i]) {
        digits_end(s, i + 1)
    } else {
        i
    }
}

/// The milliseconds that `s` denotes from position `i` on: one or more
/// pairs of an amount in digits and a unit, up to the end of `s`, summed.
/// Anything else denotes nothing.
pub open spec fn millis_from(s: Seq<char>, i: int) -> Option<nat>
    decreases s.len() - i,
    via millis_from_decreases
{
    let e = digits_end(s, i);
    if 0 <= i < e < s.len() && unit_millis(s[e]).is_some() {
        let here = digits_value(s.subrange(i, e)) * unit_millis(s[e]).unwrap();
        if e + 1 == s.len() {
            Some(here)
        } else {
            match millis_from(s, e + 1) {
                Some(rest) => Some(here + rest),
                None => None,
            }
        }
    } else {
        None
    }
}

#[via_fn]
proof fn millis_from_decreases(s: Seq<char>, i: int) {
}

/// What a word denotes as a duration in milliseconds, where the sum fits 64
/// bits.
pub open spec fn parse_to_millis_spec(s: Seq<char>) -> Option<u64> {
    match millis_from(s, 0) {
        Some(total) => if total <= u64::MAX {
            Some(total as u64)
        } else {
            None
        },
        None => None,
    }
}

/// `digits_end` moves forward over digits only and stops at a character
/// that is none, or at the end.
pub proof fn lemma_digits_end(s: Seq<char>, i: int)
    requires
        0 <= i <= s.len(),
    ensures
        i <= digits_end(s, i) <= s.len(),
        all_digits(s.subrange(i, digits_end(s, i))),
        digits_end(s, i) < s.len() ==> !is_digit(s[digits_end(s, i)]),
    decreases s.len() - i,
{
    if i < s.len() && is_digit(s[i]) {
        lemma_digits_end(s, i + 1);
        let e = digits_end(s, i);
        assert forall|j: int| 0 <= j < e - i implies is_digit(#[trigger] s.subrange(i, e)[j]) by {
            if j > 0 {
                assert(s.subrange(i, e)[j] == s.subrange(i + 1, e)[j - 1]);
            }
        }
    }
}

/// How many milliseconds one of the unit `c` lasts.
pub fn unit_of(c: char) -> (millis: Option<u64>)
    ensures
        millis.is_some() == unit_millis(c).is_some(),
        millis matches Some(m) ==> m == unit_millis(c).unwrap() && 1 <= m <= 86_400_000,
{
    if c == 's' {
        Some(1_000)
    } else if c == 'm' {
        Some(60_000)
    } else if c == 'h' {
        Some(3_600_000)
    } else if c == 'd' {
        Some(86_400_000)
    } else {
        None
    }
}

/// Moves `i` past the digits that start there.
fn digits_end_in(v: &Vec<char>, i: usize) -> (r: usize)
    requires
        i <= v.len(),
    ensures
        r == digits_end(v@, i as int),
        i <= r <= v.len(),
{
    let mut r: usize = i;
    while r < v.len() && is_digit_char(v[r])
        invariant
            i <= r <= v.len(),
            digits_end(v@, i as int) == digits_end(v@, r as int),
        decreases v.len() - r,
    {
        r += 1;
    }
    r
}

/// Parses a duration such as `1h20m30s` into milliseconds.
pub fn parse_to_millis(v: &Vec<char>) -> (r: Option<u64>)
    ensures
        r == parse_to_millis_spec(v@),
{
    let mut total: u64 = 0;
    let mut i: usize = 0;
    loop
        invariant
            i < v.len() || (i == 0 && v.len() == 0),
            millis_from(v@, 0) == (match millis_from(v@, i as int) {
                Some(rest) => Some((total + rest) as nat),
                None => None,
            }),
        decreases v.len() - i,
    {
        let e: usize = digits_end_in(v, i);
        if e == i || e >= v.len() {
            return None;
        }
        let unit: u64 = match unit_of(v[e]) {
            Some(unit) => unit,
            None => {
                return None;
            },
        };
        proof {
            lemma_digits_end(v@, i as int);
        }
        let ghost here = digits_value(v@.subrange(i as int, e as int)) * unit;
        assert(digits_value(v@.subrange(i as int, e as int)) <= here) by (nonlinear_arith)
            requires
                here == digits_value(v@.subrange(i as int, e as int)) * unit,
                unit >= 1,
        ;
        let amount: u64 = match digits_to_u64(v, i, e) {
            Some(amount) => amount,
            None => {
                return None;
            },
        };
        let sum: u128 = total as u128 + (amount as u128) * (unit as u128);
        if sum > u64::MAX as u128 {
            return None;
        }
        total = sum as u64;
        if e + 1 == v.len() {
            return Some(total);
        }
        i = e + 1;
    }
}

} // verus!
