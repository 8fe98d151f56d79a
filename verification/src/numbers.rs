//! Decimal integer parsing, as `str::parse` does it for Rust's integer types.

use vstd::prelude::*;
use crate::text::chars_of;

verus! {

/// An ASCII decimal digit.
pub open spec fn is_ascii_digit(c: char) -> bool {
    '0' <= c && c <= '9'
}

/// Every character is an ASCII decimal digit.
pub open spec fn all_digits(s: Seq<char>) -> bool {
    forall|i: int| 0 <= i < s.len() ==> is_ascii_digit(#[trigger] s[i])
}

/// The value of a run of decimal digits (the empty run is 0).
pub open spec fn digits_value(s: Seq<char>) -> nat
    decreases s.len(),
{
    if s.len() == 0 {
        0
    } else {
        digits_value(s.drop_last()) * 10 + ((s.last() as int - 48) as nat)
    }
}

/// The digits after an optional leading sign.
pub open spec fn unsigned_body(s: Seq<char>) -> Seq<char> {
    if s.len() > 0 && s[0] == '+' {
        s.skip(1)
    } else {
        s
    }
}

/// What `str::parse` gives for an unsigned type whose largest value is
/// `max`: an optional `+`, then one or more ASCII digits whose value is at
/// most `max`.
pub open spec fn unsigned_from_str(s: Seq<char>, max: nat) -> Option<nat> {
    let body = unsigned_body(s);
    if body.len() > 0 && all_digits(body) && digits_value(body) <= max {
        Some(digits_value(body))
    } else {
        None
    }
}

/// The digits after an optional leading `+` or `-`.
pub open spec fn signed_body(s: Seq<char>) -> Seq<char> {
    if s.len() > 0 && (s[0] == '+' || s[0] == '-') {
        s.skip(1)
    } else {
        s
    }
}

/// What `str::parse` gives for a signed type with range `lo..=hi`: an
/// optional sign, then one or more ASCII digits, the value in range.
pub open spec fn signed_from_str(s: Seq<char>, lo: int, hi: int) -> Option<int> {
    let body = signed_body(s);
    let negative = s.len() > 0 && s[0] == '-';
    let value: int = if negative {
        -(digits_value(body) as int)
    } else {
        digits_value(body) as int
    };
    if body.len() > 0 && all_digits(body) && lo <= value && value <= hi {
        Some(value)
    } else {
        None
    }
}

proof fn lemma_digits_prefix_le(s: Seq<char>, k: int)
    requires
        all_digits(s),
        0 <= k <= s.len(),
    ensures
        digits_value(s.subrange(0, k)) <= digits_value(s),
    decreases s.len(),
{
    if k < s.len() {
        let t = s.drop_last();
        assert(all_digits(t)) by {
            assert forall|i: int| 0 <= i < t.len() implies is_ascii_digit(#[trigger] t[i]) by {
                assert(t[i] == s[i]);
            }
        }
        lemma_digits_prefix_le(t, k);
        assert(t.subrange(0, k) =~= s.subrange(0, k));
        assert(is_ascii_digit(s[s.len() - 1]));
    } else {
        assert(s.subrange(0, k) =~= s);
    }
}

/// The value of the digits of `cs` from position `start` on, when they are
/// one or more ASCII digits worth at most `cap`.
fn parse_digits(cs: &Vec<char>, start: usize, cap: u128) -> (r: Option<u128>)
    requires
        start <= cs.len(),
        cap < 0x1_0000_0000_0000_0000_0000u128,
    ensures
        ({
            let body = cs@.skip(start as int);
            r == if body.len() > 0 && all_digits(body) && digits_value(body) <= cap {
                Some(digits_value(body) as u128)
            } else {
                None::<u128>
            }
        }),
{
    let ghost body = cs@.skip(start as int);
    if start == cs.len() {
        return None;
    }
    let mut value: u128 = 0;
    let mut i: usize = start;
    while i < cs.len()
        invariant
            start <= i <= cs.len(),
            start < cs.len(),
            body == cs@.skip(start as int),
            cap < 0x1_0000_0000_0000_0000_0000u128,
            value <= cap,
            all_digits(cs@.subrange(start as int, i as int)),
            value == digits_value(cs@.subrange(start as int, i as int)),
        decreases cs.len() - i,
    {
        let c = cs[i];
        if !('0' <= c && c <= '9') {
            assert(body[i - start] == c);
            return None;
        }
        let d: u128 = (c as u32 - 48) as u128;
        let ghost prefix = cs@.subrange(start as int, i + 1);
        assert(prefix.drop_last() =~= cs@.subrange(start as int, i as int));
        assert(prefix.last() == c);
        assert(all_digits(prefix)) by {
            assert forall|j: int| 0 <= j < prefix.len() implies is_ascii_digit(#[trigger] prefix[j]) by {
                if j < prefix.len() - 1 {
                    assert(prefix[j] == cs@.subrange(start as int, i as int)[j]);
                }
            }
        }
        let next: u128 = value * 10 + d;
        if next > cap {
            i += 1;
            // Any longer run of digits is worth at least as much.
            proof {
                if all_digits(body) {
                    assert(body.subrange(0, (i - start) as int) =~= prefix);
                    lemma_digits_prefix_le(body, (i - start) as int);
                }
            }
            return None;
        }
        value = next;
        i += 1;
    }
    assert(cs@.subrange(start as int, i as int) =~= body);
    Some(value)
}

/// `s` parsed as a `u64` (what `s.parse::<u64>()` gives).
pub fn parse_u64(s: &str) -> (r: Option<u64>)
    ensures
        r == (match unsigned_from_str(s@, u64::MAX as nat) {
            Some(v) => Some(v as u64),
            None => None::<u64>,
        }),
{
    let cs = chars_of(s);
    let start: usize = if cs.len() > 0 && cs[0] == '+' { 1 } else { 0 };
    assert(cs@.skip(start as int) =~= unsigned_body(s@));
    match parse_digits(&cs, start, 0xFFFF_FFFF_FFFF_FFFFu128) {
        Some(v) => Some(v as u64),
        None => None,
    }
}

/// `s` parsed as a signed integer in `lo..=hi` (`lo <= 0 <= hi`, both
/// within `i64`).
fn parse_signed(s: &str, lo: i64, hi: i64) -> (r: Option<i64>)
    requires
        lo <= 0 <= hi,
    ensures
        r == (match signed_from_str(s@, lo as int, hi as int) {
            Some(v) => Some(v as i64),
            None => None::<i64>,
        }),
{
    let cs = chars_of(s);
    let signed = cs.len() > 0 && (cs[0] == '+' || cs[0] == '-');
    let negative = cs.len() > 0 && cs[0] == '-';
    let start: usize = if signed { 1 } else { 0 };
    assert(cs@.skip(start as int) =~= signed_body(s@));
    let cap: u128 = if negative {
        (0 - (lo as i128)) as u128
    } else {
        hi as u128
    };
    match parse_digits(&cs, start, cap) {
        Some(v) => {
            if negative {
                Some((0 - (v as i128)) as i64)
            } else {
                Some(v as i64)
            }
        },
        None => None,
    }
}

/// `s` parsed as an `i64` (what `s.parse::<i64>()` gives).
pub fn parse_i64(s: &str) -> (r: Option<i64>)
    ensures
        r == (match signed_from_str(s@, i64::MIN as int, i64::MAX as int) {
            Some(v) => Some(v as i64),
            None => None::<i64>,
        }),
{
    parse_signed(s, i64::MIN, i64::MAX)
}

/// `s` parsed as an `i32` (what `s.parse::<i32>()` gives).
pub fn parse_i32(s: &str) -> (r: Option<i32>)
    ensures
        r == (match signed_from_str(s@, i32::MIN as int, i32::MAX as int) {
            Some(v) => Some(v as i32),
            None => None::<i32>,
        }),
{
    match parse_signed(s, i32::MIN as i64, i32::MAX as i64) {
        Some(v) => Some(v as i32),
        None => None,
    }
}

/// `s` parsed as a `usize` (what `s.parse::<usize>()` gives).
pub fn parse_usize(s: &str) -> (r: Option<usize>)
    ensures
        r == (match unsigned_from_str(s@, usize::MAX as nat) {
            Some(v) => Some(v as usize),
            None => None::<usize>,
        }),
{
    let cs = chars_of(s);
    let start: usize = if cs.len() > 0 && cs[0] == '+' { 1 } else { 0 };
    assert(cs@.skip(start as int) =~= unsigned_body(s@));
    match parse_digits(&cs, start, usize::MAX as u128) {
        Some(v) => Some(v as usize),
        None => None,
    }
}

} // verus!
