//! Signed decimal integers, as the timestamp header carries them.

use vstd::prelude::*;

use crate::text::to_chars;

verus! {

/// The number that a run of decimal digits denotes, most significant first.
pub open spec fn digits_value(digits: Seq<char>) -> nat
    decreases digits.len(),
{
    if digits.len() == 0 {
        0
    } else {
        digits_value(digits.drop_last()) * 10 + (digits.last() as int - '0' as int) as nat
    }
}

/// Whether every character is one of `0` to `9`.
pub open spec fn all_digits(text: Seq<char>) -> bool {
    forall|i: int| 0 <= i < text.len() ==> '0' <= #[trigger] text[i] <= '9'
}

/// Whether the text opens with a sign.
pub open spec fn signed(text: Seq<char>) -> bool {
    text.len() > 0 && (text[0] == '-' || text[0] == '+')
}

/// What follows the optional sign.
pub open spec fn unsigned_part(text: Seq<char>) -> Seq<char> {
    if signed(text) {
        text.drop_first()
    } else {
        text
    }
}

/// The integer that `text` denotes: an optional sign, then at least one digit
/// and nothing else, with a value that an `i64` can hold.
pub open spec fn decimal_value(text: Seq<char>) -> Option<i64> {
    let digits = unsigned_part(text);
    let magnitude = digits_value(digits) as int;
    let value = if text.len() > 0 && text[0] == '-' {
        -magnitude
    } else {
        magnitude
    };
    if digits.len() > 0 && all_digits(digits) && i64::MIN <= value <= i64::MAX {
        Some(value as i64)
    } else {
        None
    }
}

/// Reads a signed decimal integer.
pub fn parse_i64(text: &str) -> (value: Option<i64>)
    ensures
        value == decimal_value(text@),
{
    let chars = to_chars(text);
    let negative = chars.len() > 0 && chars[0] == '-';
    let start: usize = if chars.len() > 0 && (chars[0] == '-' || chars[0] == '+') {
        1
    } else {
        0
    };
    if start == chars.len() {
        return None;
    }
    let ghost digits = unsigned_part(text@);
    assert(digits =~= text@.skip(start as int));
    let limit: u64 = 0x8000_0000_0000_0000;
    let mut magnitude: u64 = 0;
    let mut too_large = false;
    let mut i: usize = start;
    assert(digits.take(0) =~= Seq::<char>::empty());
    while i < chars.len()
        invariant
            start <= i <= chars@.len(),
            chars@ == text@,
            digits == text@.skip(start as int),
            digits == unsigned_part(text@),
            limit == 0x8000_0000_0000_0000,
            magnitude <= limit,
            all_digits(digits.take(i - start)),
            too_large ==> digits_value(digits.take(i - start)) > limit,
            !too_large ==> digits_value(digits.take(i - start)) == magnitude,
        decreases chars@.len() - i,
    {
        let ch = chars[i];
        let ghost seen = digits.take(i - start);
        let ghost next = digits.take(i + 1 - start);
        assert(next.drop_last() =~= seen);
        assert(next.last() == ch);
        if ch < '0' || ch > '9' {
            assert(digits[i - start] == ch);
            return None;
        }
        assert forall|j: int| 0 <= j < next.len() implies '0' <= #[trigger] next[j] <= '9' by {
            if j < seen.len() {
                assert(next[j] == seen[j]);
            }
        }
        let digit: u64 = (ch as u64) - ('0' as u64);
        assert(digits_value(next) == digits_value(seen) * 10 + digit);
        if !too_large {
            if magnitude > (limit - digit) / 10 {
                too_large = true;
            } else {
                magnitude = magnitude * 10 + digit;
            }
        }
        i += 1;
    }
    assert(digits.take(i - start) =~= digits);
    if too_large {
        return None;
    }
    if negative {
        if magnitude == limit {
            return Some(i64::MIN);
        }
        Some(-(magnitude as i64))
    } else if magnitude == limit {
        None
    } else {
        Some(magnitude as i64)
    }
}

} // verus!
