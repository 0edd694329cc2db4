//! Identifiers of roles, channels and categories as the configuration stores
//! them: decimal text.

use vstd::prelude::*;
use crate::text::chars_of;

verus! {

/// `c` is one of `0` to `9`.
pub open spec fn is_digit(c: char) -> bool {
    '0' <= c && c <= '9'
}

/// The number that a digit stands for.
pub open spec fn digit_value(c: char) -> int {
    c as int - '0' as int
}

/// Every character of `text` is a digit.
pub open spec fn all_digits(text: Seq<char>) -> bool {
    forall|i: int| 0 <= i < text.len() ==> is_digit(#[trigger] text[i])
}

/// The number that a run of digits writes, the empty run being zero.
pub open spec fn decimal_value(digits: Seq<char>) -> int
    decreases digits.len(),
{
    if digits.len() == 0 {
        0
    } else {
        10 * decimal_value(digits.drop_last()) + digit_value(digits.last())
    }
}

/// `text` without one leading plus sign.
pub open spec fn unsigned_part(text: Seq<char>) -> Seq<char> {
    if text.len() > 0 && text[0] == '+' {
        text.drop_first()
    } else {
        text
    }
}

/// The identifier that `text` writes: decimal digits, one plus sign allowed
/// in front, the number within 64 bits. Any other text writes none.
pub open spec fn parsed_id(text: Seq<char>) -> Option<u64> {
    let digits = unsigned_part(text);
    if digits.len() > 0 && all_digits(digits) && decimal_value(digits) <= u64::MAX {
        Some(decimal_value(digits) as u64)
    } else {
        None
    }
}

/// A run of digits never writes a negative number, and a longer run of the
/// same start writes no smaller one.
pub proof fn lemma_decimal_value_prefix(digits: Seq<char>, n: int)
    requires
        all_digits(digits),
        0 <= n <= digits.len(),
    ensures
        0 <= decimal_value(digits.take(n)) <= decimal_value(digits),
    decreases digits.len() - n,
{
    if n == digits.len() {
        assert(digits.take(n) =~= digits);
        lemma_decimal_value_nonnegative(digits);
    } else {
        lemma_decimal_value_prefix(digits, n + 1);
        let longer = digits.take(n + 1);
        assert(longer.drop_last() =~= digits.take(n));
        assert(is_digit(digits[n]));
        assert(longer.last() == digits[n]);
        lemma_decimal_value_nonnegative(digits.take(n));
    }
}

proof fn lemma_decimal_value_nonnegative(digits: Seq<char>)
    requires
        all_digits(digits),
    ensures
        0 <= decimal_value(digits),
    decreases digits.len(),
{
    if digits.len() > 0 {
        assert(is_digit(digits.last()));
        lemma_decimal_value_nonnegative(digits.drop_last());
    }
}

/// Reads an identifier from its text.
pub fn parse_id(text: &str) -> (id: Option<u64>)
    ensures
        id == parsed_id(text@),
{
    let chars = chars_of(text);
    parse_id_chars(&chars)
}

/// Reads an identifier from the characters of its text.
pub fn parse_id_chars(chars: &Vec<char>) -> (id: Option<u64>)
    ensures
        id == parsed_id(chars@),
{
    let length = chars.len();
    if length == 0 {
        return None;
    }
    let start: usize = if chars[0] == '+' {
        1
    } else {
        0
    };
    if start == length {
        return None;
    }
    let ghost digits = unsigned_part(chars@);
    assert(digits =~= chars@.subrange(start as int, length as int));
    let mut value: u64 = 0;
    let mut index: usize = start;
    assert(digits.take(0) =~= Seq::<char>::empty());
    while index < length
        invariant
            start <= index <= length,
            length == chars@.len(),
            start <= 1,
            digits == unsigned_part(chars@),
            digits =~= chars@.subrange(start as int, length as int),
            all_digits(digits.take(index - start)),
            value == decimal_value(digits.take(index - start)),
        decreases length - index,
    {
        let c = chars[index];
        let ghost seen = digits.take(index - start);
        let ghost next = digits.take(index - start + 1);
        assert(next.drop_last() =~= seen);
        assert(next.last() == c);
        if !('0' <= c && c <= '9') {
            assert(!all_digits(digits)) by {
                assert(digits[index - start] == c);
            }
            return None;
        }
        assert(all_digits(next)) by {
            assert forall|i: int| 0 <= i < next.len() implies is_digit(#[trigger] next[i]) by {
                if i < seen.len() {
                    assert(seen[i] == next[i]);
                }
            }
        }
        let digit: u64 = (c as u64) - ('0' as u64);
        let overflow: bool = value > (u64::MAX - digit) / 10;
        if overflow {
            proof {
                assert(decimal_value(next) > u64::MAX);
                if all_digits(digits) {
                    lemma_decimal_value_prefix(digits, index - start + 1);
                }
            }
            return None;
        }
        value = value * 10 + digit;
        index = index + 1;
    }
    proof {
        assert(digits.take(index - start) =~= digits);
    }
    Some(value)
}

} // verus!
