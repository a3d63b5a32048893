//! Lower-case hexadecimal text of a style word, for diagnostics.

use vstd::prelude::*;
use vstd::string::*;

verus! {

/// `String::push` appends one character to the end of the string. Trusted:
/// stated from the standard library's documentation.
pub assume_specification[ String::push ](text: &mut String, c: char)
    ensures
        final(text)@ == old(text)@.push(c),
;

/// The character that stands for one hexadecimal digit.
pub open spec fn hex_digit(digit: nat) -> char
    recommends
        digit < 16,
{
    "0123456789abcdef"@[digit as int]
}

/// The hexadecimal digits of a number, most significant first, without
/// leading zeros; zero is the single digit `0`.
pub open spec fn hex_digits(value: nat) -> Seq<char>
    decreases value,
{
    if value < 16 {
        seq![hex_digit(value)]
    } else {
        hex_digits(value / 16).push(hex_digit(value % 16))
    }
}

fn digit_char(digit: u32) -> (c: char)
    requires
        digit < 16,
    ensures
        c == hex_digit(digit as nat),
{
    proof {
        reveal_strlit("0123456789abcdef");
    }
    "0123456789abcdef".get_char(digit as usize)
}

/// Appends the hexadecimal digits of `value` to `text`.
pub fn push_hex(text: &mut String, value: u32)
    ensures
        final(text)@ == old(text)@ + hex_digits(value as nat),
    decreases value,
{
    if value >= 16 {
        push_hex(text, value / 16);
    }
    text.push(digit_char(value % 16));
    assert(text@ =~= old(text)@ + hex_digits(value as nat));
}

/// The hexadecimal text of `value`.
pub fn to_hex(value: u32) -> (text: String)
    ensures
        text@ == hex_digits(value as nat),
{
    let mut text = String::new();
    push_hex(&mut text, value);
    assert(text@ =~= hex_digits(value as nat));
    text
}

} // verus!
