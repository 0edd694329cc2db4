//! Embed colours as the environment writes them: `0x` and hexadecimal digits.

use vstd::prelude::*;
use crate::text::chars_of;

verus! {

/// `c` is a hexadecimal digit.
pub open spec fn is_hex_digit(c: char) -> bool {
    ('0' <= c && c <= '9') || ('a' <= c && c <= 'f') || ('A' <= c && c <= 'F')
}

/// The number that a hexadecimal digit stands for.
pub open spec fn hex_digit_value(c: char) -> int {
    if '0' <= c && c <= '9' {
        c as int - '0' as int
    } else if 'a' <= c && c <= 'f' {
        c as int - 'a' as int + 10
    } else {
        c as int - 'A' as int + 10
    }
}

/// Every character of `text` is a hexadecimal digit.
pub open spec fn all_hex_digits(text: Seq<char>) -> bool {
    forall|i: int| 0 <= i < text.len() ==> is_hex_digit(#[trigger] text[i])
}

/// The number that a run of hexadecimal digits writes.
pub open spec fn hex_value(digits: Seq<char>) -> int
    decreases digits.len(),
{
    if digits.len() == 0 {
        0
    } else {
        16 * hex_value(digits.drop_last()) + hex_digit_value(digits.last())
    }
}

/// The colour that `text` writes: two characters of prefix, then one or
/// more hexadecimal digits whose number fits 32 bits.
pub open spec fn color_of(text: Seq<char>) -> Option<u32> {
    let digits = text.skip(2);
    if text.len() > 2 && all_hex_digits(digits) && hex_value(digits) <= u32::MAX {
        Some(hex_value(digits) as u32)
    } else {
        None
    }
}

proof fn lemma_hex_value_prefix(digits: Seq<char>, n: int)
    requires
        all_hex_digits(digits),
        0 <= n <= digits.len(),
    ensures
        0 <= hex_value(digits.take(n)) <= hex_value(digits),
    decreases digits.len() - n,
{
    if n == digits.len() {
        assert(digits.take(n) =~= digits);
        lemma_hex_value_nonnegative(digits);
    } else {
        lemma_hex_value_prefix(digits, n + 1);
        let longer = digits.take(n + 1);
        assert(longer.drop_last() =~= digits.take(n));
        assert(is_hex_digit(digits[n]));
        assert(longer.last() == digits[n]);
        lemma_hex_value_nonnegative(digits.take(n));
    }
}

proof fn lemma_hex_value_nonnegative(digits: Seq<char>)
    requires
        all_hex_digits(digits),
    ensures
        0 <= hex_value(digits),
    decreases digits.len(),
{
    if digits.len() > 0 {
        assert(is_hex_digit(digits.last()));
        lemma_hex_value_nonnegative(digits.drop_last());
    }
}

/// Reads a colour from its text.
pub fn parse_color(text: &str) -> (color: Option<u32>)
    ensures
        color == color_of(text@),
{
    let chars = chars_of(text);
    let length = chars.len();
    if length <= 2 {
        return None;
    }
    let ghost digits = text@.skip(2);
    let mut value: u32 = 0;
    let mut index: usize = 2;
    assert(digits.take(0) =~= Seq::<char>::empty());
    while index < length
        invariant
            2 <= index <= length,
            length == text@.len(),
            chars@ == text@,
            digits == text@.skip(2),
            all_hex_digits(digits.take(index - 2)),
            value == hex_value(digits.take(index - 2)),
        decreases length - index,
    {
        let c = chars[index];
        let ghost seen = digits.take(index - 2);
        let ghost next = digits.take(index - 2 + 1);
        assert(next.drop_last() =~= seen);
        assert(next.last() == c);
        let digit: u32 = if '0' <= c && c <= '9' {
            (c as u32) - ('0' as u32)
        } else if 'a' <= c && c <= 'f' {
            (c as u32) - ('a' as u32) + 10
        } else if 'A' <= c && c <= 'F' {
            (c as u32) - ('A' as u32) + 10
        } else {
            assert(!all_hex_digits(digits)) by {
                assert(digits[index - 2] == c);
            }
            return None;
        };
        assert(all_hex_digits(next)) by {
            assert forall|i: int| 0 <= i < next.len() implies is_hex_digit(#[trigger] next[i]) by {
                if i < seen.len() {
                    assert(seen[i] == next[i]);
                }
            }
        }
        if value > (u32::MAX - digit) / 16 {
            proof {
                assert(hex_value(next) > u32::MAX);
                if all_hex_digits(digits) {
                    lemma_hex_value_prefix(digits, index - 2 + 1);
                }
            }
            return None;
        }
        value = value * 16 + digit;
        index = index + 1;
    }
    proof {
        assert(digits.take(index - 2) =~= digits);
    }
    Some(value)
}

} // verus!
