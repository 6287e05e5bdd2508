//! Integers written as text in a radix from 2 to 36.

use vstd::prelude::*;

verus! {

/// What one digit counts: `0` to `9` count 0 to 9, a letter of either case
/// counts from 10 (`a`) to 35 (`z`). Any other character is no digit.
pub open spec fn digit_value(c: char) -> Option<int> {
    if '0' <= c && c <= '9' {
        Some(c as int - '0' as int)
    } else if 'a' <= c && c <= 'z' {
        Some(c as int - 'a' as int + 10)
    } else if 'A' <= c && c <= 'Z' {
        Some(c as int - 'A' as int + 10)
    } else {
        None
    }
}

/// Whether `c` is a digit of the given radix.
pub open spec fn is_digit(c: char, radix: int) -> bool {
    digit_value(c) matches Some(d) && d < radix
}

/// Whether every character of `digits` is a digit of the given radix.
pub open spec fn all_digits(digits: Seq<char>, radix: int) -> bool {
    forall|i: int| 0 <= i < digits.len() ==> is_digit(#[trigger] digits[i], radix)
}

/// The number that a run of digits denotes, most significant digit first.
pub open spec fn digits_number(digits: Seq<char>, radix: int) -> int
    decreases digits.len(),
{
    if digits.len() == 0 {
        0
    } else {
        digits_number(digits.drop_last(), radix) * radix + digit_value(digits.last()).unwrap()
    }
}

/// Whether `text` opens with a sign.
pub open spec fn has_sign(text: Seq<char>) -> bool {
    text.len() > 0 && (text[0] == '-' || text[0] == '+')
}

/// The digits of `text`: all of it but a leading sign.
pub open spec fn digits_of(text: Seq<char>) -> Seq<char> {
    if has_sign(text) {
        text.subrange(1, text.len() as int)
    } else {
        text
    }
}

/// The integer that `text` denotes: an optional `+` or `-`, then one or more
/// digits of the radix and nothing else. `None` for any other text.
pub open spec fn parse_int(text: Seq<char>, radix: int) -> Option<int> {
    let digits = digits_of(text);
    if digits.len() == 0 || !all_digits(digits, radix) {
        None
    } else if text[0] == '-' {
        Some(-digits_number(digits, radix))
    } else {
        Some(digits_number(digits, radix))
    }
}

/// The 64-bit signed integer that `text` denotes, `None` where it denotes
/// none or one out of the type's range.
pub open spec fn parse_i64(text: Seq<char>, radix: int) -> Option<i64> {
    match parse_int(text, radix) {
        Some(v) => if i64::MIN <= v <= i64::MAX {
            Some(v as i64)
        } else {
            None
        },
        None => None,
    }
}

/// The lower-case digit that counts `d`.
pub open spec fn digit_char(d: int) -> char {
    if d < 10 {
        ('0' as u8 + d) as u8 as char
    } else {
        ('a' as u8 + d - 10) as u8 as char
    }
}

/// `n` written in base 36 with lower-case digits and no leading zero
/// (`0` itself is one digit).
pub open spec fn base36_text(n: nat) -> Seq<char>
    decreases n,
{
    if n < 36 {
        seq![digit_char(n as int)]
    } else {
        base36_text(n / 36).push(digit_char((n % 36) as int))
    }
}

/// The unsigned 64-bit number with the bit pattern of `value`.
pub open spec fn twos_complement(value: i64) -> nat {
    if value >= 0 {
        value as nat
    } else {
        (value + 0x1_0000_0000_0000_0000) as nat
    }
}

/// Calls `i64::from_str_radix`, which reads an optional sign followed by
/// digits of the radix and fails on an empty text, on any other character
/// and on a number outside the type's range.
#[verifier::external_body]
pub(crate) fn from_str_radix(text: &str, radix: u32) -> (value: Option<i64>)
    requires
        2 <= radix <= 36,
    ensures
        value == parse_i64(text@, radix as int),
{
    i64::from_str_radix(text, radix).ok()
}

/// Calls `radix_fmt::radix_36` and renders it: the bit pattern of `value`,
/// taken as an unsigned number, in base 36 with lower-case digits.
#[verifier::external_body]
fn radix_36(value: i64) -> (text: String)
    ensures
        text@ == base36_text(twos_complement(value)),
{
    radix_fmt::radix_36(value).to_string()
}

/// Reads `text` as a signed integer in the radix.
pub fn parse_radix(text: &str, radix: u32) -> (value: Option<i64>)
    requires
        2 <= radix <= 36,
    ensures
        value == parse_i64(text@, radix as int),
{
    from_str_radix(text, radix)
}

/// Writes `value` in base 36, a negative one by its bit pattern.
pub fn encode_base36(value: i64) -> (text: String)
    ensures
        text@ == base36_text(twos_complement(value)),
{
    radix_36(value)
}

/// A digit character counts what it was written for.
pub proof fn lemma_digit_char_value(d: int)
    requires
        0 <= d < 36,
    ensures
        digit_value(digit_char(d)) == Some(d),
{
}

/// The base-36 text of a number holds base-36 digits only, opens with no
/// sign, and denotes the number.
pub proof fn lemma_base36_text(n: nat)
    ensures
        base36_text(n).len() > 0,
        all_digits(base36_text(n), 36),
        digits_number(base36_text(n), 36) == n,
        !has_sign(base36_text(n)),
    decreases n,
{
    let text = base36_text(n);
    if n < 36 {
        lemma_digit_char_value(n as int);
        assert(text.drop_last() =~= Seq::<char>::empty());
        assert(digits_number(text.drop_last(), 36) == 0);
    } else {
        let head = n / 36;
        let last = n % 36;
        lemma_base36_text(head);
        lemma_digit_char_value(last as int);
        assert(text.drop_last() =~= base36_text(head));
        assert(text.last() == digit_char(last as int));
        assert forall|i: int| 0 <= i < text.len() implies is_digit(#[trigger] text[i], 36) by {
            if i < text.len() - 1 {
                assert(text[i] == base36_text(head)[i]);
            }
        }
        assert(text[0] == base36_text(head)[0]);
    }
}

/// Writing a non-negative integer in base 36 and reading the text back
/// gives the integer.
pub proof fn lemma_base36_round_trip(value: i64)
    requires
        value >= 0,
    ensures
        parse_i64(base36_text(twos_complement(value)), 36) == Some(value),
{
    lemma_base36_text(value as nat);
}

} // verus!
