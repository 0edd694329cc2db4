//! Text that the bot puts together: numbers with thousands separators and
//! the marks of the settings overview.

use vstd::prelude::*;
use vstd::string::StringExecFns;

verus! {

/// `std::string::String::push` appends one character to the end of the string.
pub assume_specification[ String::push ](text: &mut String, c: char)
    ensures
        final(text)@ == old(text)@.push(c),
;

/// The character that writes a digit.
pub open spec fn digit_char(digit: int) -> char
    recommends
        0 <= digit <= 9,
{
    if digit == 0 {
        '0'
    } else if digit == 1 {
        '1'
    } else if digit == 2 {
        '2'
    } else if digit == 3 {
        '3'
    } else if digit == 4 {
        '4'
    } else if digit == 5 {
        '5'
    } else if digit == 6 {
        '6'
    } else if digit == 7 {
        '7'
    } else if digit == 8 {
        '8'
    } else {
        '9'
    }
}

/// A number in decimal digits, without leading zeros.
pub open spec fn decimal_text(number: nat) -> Seq<char>
    decreases number,
{
    if number < 10 {
        seq![digit_char(number as int)]
    } else {
        decimal_text(number / 10).push(digit_char((number % 10) as int))
    }
}

/// A number under a thousand in three digits, with leading zeros.
pub open spec fn three_digits(number: nat) -> Seq<char> {
    seq![
        digit_char((number / 100) as int),
        digit_char(((number / 10) % 10) as int),
        digit_char((number % 10) as int),
    ]
}

/// A number in decimal digits, a comma before every group of three digits
/// counted from the right: 1234567 is written `1,234,567`.
pub open spec fn grouped_text(number: nat) -> Seq<char>
    decreases number,
{
    if number < 1000 {
        decimal_text(number)
    } else {
        grouped_text(number / 1000) + seq![','] + three_digits(number % 1000)
    }
}

/// The mark before a module in the settings overview.
pub open spec fn tick_text(enabled: bool) -> Seq<char> {
    if enabled {
        "<:tickYes:792577321109422111>"@
    } else {
        "<:tickNo:792577321068527666>"@
    }
}

/// The mark before a premium setting in the settings overview.
pub open spec fn premium_text(enabled: bool) -> Seq<char> {
    if enabled {
        "🔓"@
    } else {
        "🔒"@
    }
}

/// Whether two texts are the same, character by character.
pub fn same_text(left: &str, right: &str) -> (same: bool)
    ensures
        same == (left@ == right@),
{
    let left_chars = chars_of(left);
    let right_chars = chars_of(right);
    if left_chars.len() != right_chars.len() {
        return false;
    }
    let mut index: usize = 0;
    while index < left_chars.len()
        invariant
            index <= left_chars.len(),
            left_chars.len() == right_chars.len(),
            left_chars@ == left@,
            right_chars@ == right@,
            forall|i: int| 0 <= i < index ==> left_chars@[i] == right_chars@[i],
        decreases left_chars.len() - index,
    {
        if left_chars[index] != right_chars[index] {
            assert(left@[index as int] != right@[index as int]);
            return false;
        }
        index = index + 1;
    }
    assert(left_chars@ =~= right_chars@);
    true
}

fn digit_of(digit: u64) -> (c: char)
    requires
        digit <= 9,
    ensures
        c == digit_char(digit as int),
{
    if digit == 0 {
        '0'
    } else if digit == 1 {
        '1'
    } else if digit == 2 {
        '2'
    } else if digit == 3 {
        '3'
    } else if digit == 4 {
        '4'
    } else if digit == 5 {
        '5'
    } else if digit == 6 {
        '6'
    } else if digit == 7 {
        '7'
    } else if digit == 8 {
        '8'
    } else {
        '9'
    }
}

fn push_below_thousand(text: &mut String, number: u64)
    requires
        number < 1000,
    ensures
        final(text)@ == old(text)@ + decimal_text(number as nat),
{
    if number >= 100 {
        text.push(digit_of(number / 100));
    }
    if number >= 10 {
        text.push(digit_of((number / 10) % 10));
    }
    text.push(digit_of(number % 10));
    proof {
        let n = number as nat;
        reveal_with_fuel(decimal_text, 3);
        if number >= 100 {
            assert((n / 10) / 10 == n / 100);
            assert(decimal_text(n) =~= seq![
                digit_char((n / 100) as int),
                digit_char(((n / 10) % 10) as int),
                digit_char((n % 10) as int),
            ]);
        } else if number >= 10 {
            assert(decimal_text(n) =~= seq![
                digit_char((n / 10) as int),
                digit_char((n % 10) as int),
            ]);
        }
        assert(final(text)@ =~= old(text)@ + decimal_text(n));
    }
}

/// A number with thousands separators.
pub fn format_number(number: u64) -> (text: String)
    ensures
        text@ == grouped_text(number as nat),
{
    let mut divisor: u64 = 1;
    while number / divisor >= 1000
        invariant
            divisor == 1 || divisor == 1_000 || divisor == 1_000_000 || divisor == 1_000_000_000
                || divisor == 1_000_000_000_000 || divisor == 1_000_000_000_000_000 || divisor
                == 1_000_000_000_000_000_000,
            divisor > 1 ==> number / divisor >= 1,
        decreases number / divisor,
    {
        proof {
            vstd::arithmetic::div_mod::lemma_div_denominator(
                number as int,
                divisor as int,
                1000,
            );
        }
        divisor = divisor * 1000;
    }
    let mut text = String::new();
    push_below_thousand(&mut text, number / divisor);
    assert(text@ =~= grouped_text((number / divisor) as nat));
    while divisor > 1
        invariant
            divisor == 1 || divisor == 1_000 || divisor == 1_000_000 || divisor == 1_000_000_000
                || divisor == 1_000_000_000_000 || divisor == 1_000_000_000_000_000 || divisor
                == 1_000_000_000_000_000_000,
            divisor > 1 ==> number / divisor >= 1,
            text@ == grouped_text((number / divisor) as nat),
        decreases divisor,
    {
        let ghost above = divisor;
        divisor = divisor / 1000;
        let chunk = (number / divisor) % 1000;
        proof {
            vstd::arithmetic::div_mod::lemma_div_denominator(
                number as int,
                divisor as int,
                1000,
            );
            assert((number / divisor) / 1000 == number / above);
            assert(above >= 1000);
            assert(number / divisor >= 1000);
        }
        text.push(',');
        text.push(digit_of(chunk / 100));
        text.push(digit_of((chunk / 10) % 10));
        text.push(digit_of(chunk % 10));
        assert(text@ =~= grouped_text((number / above) as nat) + seq![','] + three_digits(
            chunk as nat,
        ));
    }
    text
}

/// The mark before a module in the settings overview.
pub fn tick_helper(enabled: bool) -> (mark: String)
    ensures
        mark@ == tick_text(enabled),
{
    if enabled {
        String::from_str("<:tickYes:792577321109422111>")
    } else {
        String::from_str("<:tickNo:792577321068527666>")
    }
}

/// The mark before a premium setting in the settings overview.
pub fn premium_helper(enabled: bool) -> (mark: String)
    ensures
        mark@ == premium_text(enabled),
{
    if enabled {
        String::from_str("🔓")
    } else {
        String::from_str("🔒")
    }
}


/// The characters of a text.
pub fn chars_of(text: &str) -> (chars: Vec<char>)
    ensures
        chars@ == text@,
{
    let mut chars: Vec<char> = Vec::new();
    for c in it: text.chars()
        invariant
            it.seq() == text@,
            chars@ == it.seq().take(it.index() as int),
    {
        assert(it.seq().take(it.index() + 1) =~= it.seq().take(it.index() as int).push(c));
        chars.push(c);
    }
    assert(chars@ =~= text@);
    chars
}


/// The text that a list of characters spells.
pub fn text_of(chars: &Vec<char>) -> (text: String)
    ensures
        text@ == chars@,
{
    let mut text = String::new();
    let mut index: usize = 0;
    while index < chars.len()
        invariant
            index <= chars.len(),
            text@ == chars@.take(index as int),
        decreases chars.len() - index,
    {
        text.push(chars[index]);
        assert(chars@.take(index + 1) =~= chars@.take(index as int).push(chars@[index as int]));
        index = index + 1;
    }
    assert(chars@.take(index as int) =~= chars@);
    text
}

/// A whole number in decimal digits, a minus sign before a negative one.
pub open spec fn signed_text(number: int) -> Seq<char> {
    if number < 0 {
        seq!['-'] + decimal_text((-number) as nat)
    } else {
        decimal_text(number as nat)
    }
}

/// `text` with every occurrence of `from` replaced by `to`, the
/// occurrences taken from the left and not overlapping. An empty `from`
/// occurs nowhere.
pub open spec fn replaced(text: Seq<char>, from: Seq<char>, to: Seq<char>) -> Seq<char>
    decreases text.len(),
{
    if from.len() == 0 || text.len() < from.len() {
        text
    } else if text.subrange(0, from.len() as int) == from {
        to + replaced(text.skip(from.len() as int), from, to)
    } else {
        seq![text[0]] + replaced(text.skip(1), from, to)
    }
}

/// Appends a number in decimal digits.
pub fn push_decimal(text: &mut String, number: u64)
    ensures
        final(text)@ == old(text)@ + decimal_text(number as nat),
    decreases number,
{
    if number >= 10 {
        push_decimal(text, number / 10);
    }
    text.push(digit_of(number % 10));
    proof {
        let n = number as nat;
        if number >= 10 {
            assert(final(text)@ =~= old(text)@ + decimal_text(n / 10).push(
                digit_char((n % 10) as int),
            ));
        } else {
            assert(final(text)@ =~= old(text)@ + seq![digit_char(n as int)]);
        }
    }
}

/// Appends a whole number in decimal digits, with its sign if it is negative.
pub fn push_signed(text: &mut String, number: i64)
    ensures
        final(text)@ == old(text)@ + signed_text(number as int),
{
    if number < 0 {
        text.push('-');
        let size: u64 = ((-(number as i128)) as u64);
        push_decimal(text, size);
        assert(final(text)@ =~= old(text)@ + (seq!['-'] + decimal_text((-number) as nat)));
    } else {
        push_decimal(text, number as u64);
    }
}

/// Whether `pattern` stands in `text` at the place `at`.
pub fn occurs_at(text: &Vec<char>, at: usize, pattern: &Vec<char>) -> (found: bool)
    requires
        at + pattern.len() <= text.len(),
    ensures
        found == (text@.subrange(at as int, at + pattern.len()) == pattern@),
{
    let mut index: usize = 0;
    while index < pattern.len()
        invariant
            index <= pattern.len(),
            at + pattern.len() <= text.len(),
            forall|i: int| 0 <= i < index ==> text@[at + i] == pattern@[i],
        decreases pattern.len() - index,
    {
        if text[at + index] != pattern[index] {
            assert(text@.subrange(at as int, at + pattern.len())[index as int] != pattern@[index as int]);
            return false;
        }
        index = index + 1;
    }
    assert(text@.subrange(at as int, at + pattern.len()) =~= pattern@);
    true
}

/// `text` with every occurrence of `from` replaced by `to`.
pub fn replace_text(text: &str, from: &str, to: &str) -> (result: String)
    ensures
        result@ == replaced(text@, from@, to@),
{
    let source = chars_of(text);
    let pattern = chars_of(from);
    let insert = chars_of(to);
    if pattern.len() == 0 {
        return text_of(&source);
    }
    let mut built: Vec<char> = Vec::new();
    let mut at: usize = 0;
    assert(source@.skip(0) =~= source@);
    while at < source.len()
        invariant
            at <= source.len(),
            pattern.len() > 0,
            built@ + replaced(source@.skip(at as int), pattern@, insert@) == replaced(
                source@,
                pattern@,
                insert@,
            ),
        decreases source.len() - at,
    {
        let ghost rest = source@.skip(at as int);
        if source.len() - at >= pattern.len() && occurs_at(&source, at, &pattern) {
            let mut index: usize = 0;
            let ghost before = built@;
            while index < insert.len()
                invariant
                    index <= insert.len(),
                    built@ == before + insert@.take(index as int),
                decreases insert.len() - index,
            {
                built.push(insert[index]);
                assert(insert@.take(index + 1) =~= insert@.take(index as int).push(
                    insert@[index as int],
                ));
                index = index + 1;
            }
            assert(insert@.take(index as int) =~= insert@);
            proof {
                assert(rest.subrange(0, pattern.len() as int) =~= source@.subrange(
                    at as int,
                    at + pattern.len(),
                ));
                assert(rest.skip(pattern.len() as int) =~= source@.skip(at + pattern.len()));
                assert(built@ + replaced(source@.skip(at + pattern.len()), pattern@, insert@)
                    =~= before + replaced(rest, pattern@, insert@));
            }
            at = at + pattern.len();
        } else {
            let ghost before = built@;
            built.push(source[at]);
            proof {
                assert(rest.skip(1) =~= source@.skip(at + 1));
                assert(rest[0] == source@[at as int]);
                if rest.len() >= pattern.len() {
                    assert(rest.subrange(0, pattern.len() as int) =~= source@.subrange(
                        at as int,
                        at + pattern.len(),
                    ));
                    assert(built@ + replaced(source@.skip(at + 1), pattern@, insert@) =~= before
                        + replaced(rest, pattern@, insert@));
                } else {
                    lemma_replaced_short(rest, pattern@, insert@);
                    lemma_replaced_short(rest.skip(1), pattern@, insert@);
                    assert(built@ + rest.skip(1) =~= before + rest);
                }
            }
            at = at + 1;
        }
    }
    proof {
        assert(source@.skip(at as int) =~= Seq::<char>::empty());
        assert(built@ + Seq::<char>::empty() =~= built@);
    }
    text_of(&built)
}

proof fn lemma_replaced_short(text: Seq<char>, from: Seq<char>, to: Seq<char>)
    requires
        text.len() < from.len(),
    ensures
        replaced(text, from, to) == text,
{
}

} // verus!
