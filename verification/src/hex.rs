//! Numbers as text: upper-case hexadecimal of a fixed width, and decimal.

use vstd::prelude::*;
use vstd::string::*;

verus! {

/// The hexadecimal digit of a number below 16.
#[verifier::opaque]
pub open spec fn hex_digit(n: int) -> Seq<char> {
    if n == 0 {
        "0"@
    } else if n == 1 {
        "1"@
    } else if n == 2 {
        "2"@
    } else if n == 3 {
        "3"@
    } else if n == 4 {
        "4"@
    } else if n == 5 {
        "5"@
    } else if n == 6 {
        "6"@
    } else if n == 7 {
        "7"@
    } else if n == 8 {
        "8"@
    } else if n == 9 {
        "9"@
    } else if n == 10 {
        "A"@
    } else if n == 11 {
        "B"@
    } else if n == 12 {
        "C"@
    } else if n == 13 {
        "D"@
    } else if n == 14 {
        "E"@
    } else {
        "F"@
    }
}

/// A byte as two hexadecimal digits.
pub open spec fn hex_byte(value: u8) -> Seq<char> {
    hex_digit(value as int / 16) + hex_digit(value as int % 16)
}

/// A word as four hexadecimal digits.
pub open spec fn hex_word(value: u16) -> Seq<char> {
    hex_byte((value / 256) as u8) + hex_byte((value % 256) as u8)
}

/// A signed byte as the two hexadecimal digits of its two's complement.
pub open spec fn hex_signed(value: i8) -> Seq<char> {
    hex_byte(((value + 256) % 256) as u8)
}

/// A number in decimal, without leading zeros.
pub open spec fn decimal(n: nat) -> Seq<char>
    decreases n,
{
    if n < 10 {
        hex_digit(n as int)
    } else {
        decimal(n / 10) + hex_digit((n % 10) as int)
    }
}

fn digit(n: u8) -> (text: &'static str)
    requires
        n < 16,
    ensures
        text@ == hex_digit(n as int),
{
    reveal(hex_digit);
    match n {
        0 => "0",
        1 => "1",
        2 => "2",
        3 => "3",
        4 => "4",
        5 => "5",
        6 => "6",
        7 => "7",
        8 => "8",
        9 => "9",
        10 => "A",
        11 => "B",
        12 => "C",
        13 => "D",
        14 => "E",
        _ => "F",
    }
}

/// Appends a byte as two hexadecimal digits.
pub fn push_hex_byte(text: &mut String, value: u8)
    ensures
        final(text)@ == old(text)@ + hex_byte(value),
{
    let high = digit(value / 16);
    let low = digit(value % 16);
    text.append(high);
    text.append(low);
    assert((old(text)@ + high@) + low@ =~= old(text)@ + (high@ + low@));
}

/// Appends a word as four hexadecimal digits.
pub fn push_hex_word(text: &mut String, value: u16)
    ensures
        final(text)@ == old(text)@ + hex_word(value),
{
    let high = (value / 256) as u8;
    let low = (value % 256) as u8;
    push_hex_byte(text, high);
    push_hex_byte(text, low);
    assert((old(text)@ + hex_byte(high)) + hex_byte(low) =~= old(text)@ + (hex_byte(high)
        + hex_byte(low)));
}

/// Appends a signed byte as the two hexadecimal digits of its two's complement.
pub fn push_hex_signed(text: &mut String, value: i8)
    ensures
        final(text)@ == old(text)@ + hex_signed(value),
{
    let byte: u8 = if value < 0 {
        (value as i16 + 256) as u8
    } else {
        value as u8
    };
    push_hex_byte(text, byte);
}

/// A word in hexadecimal between `prefix` and `suffix`.
pub open spec fn word_text(prefix: Seq<char>, value: u16, suffix: Seq<char>) -> Seq<char> {
    prefix + hex_word(value) + suffix
}

/// A byte in hexadecimal between `prefix` and `suffix`.
pub open spec fn byte_text(prefix: Seq<char>, value: u8, suffix: Seq<char>) -> Seq<char> {
    prefix + hex_byte(value) + suffix
}

/// A signed distance in hexadecimal behind `$`, with a `+` in front where
/// it is not negative.
pub open spec fn distance_text(offset: i8) -> Seq<char> {
    if offset < 0 {
        "$"@ + hex_signed(offset)
    } else {
        "+$"@ + hex_signed(offset)
    }
}

/// A word in hexadecimal between `prefix` and `suffix`.
pub fn word_between(prefix: &str, value: u16, suffix: &str) -> (text: String)
    ensures
        text@ == word_text(prefix@, value, suffix@),
{
    let mut text = String::from_str(prefix);
    push_hex_word(&mut text, value);
    text.append(suffix);
    text
}

/// A byte in hexadecimal between `prefix` and `suffix`.
pub fn byte_between(prefix: &str, value: u8, suffix: &str) -> (text: String)
    ensures
        text@ == byte_text(prefix@, value, suffix@),
{
    let mut text = String::from_str(prefix);
    push_hex_byte(&mut text, value);
    text.append(suffix);
    text
}

/// A signed distance in hexadecimal.
pub fn distance(offset: i8) -> (text: String)
    ensures
        text@ == distance_text(offset),
{
    let mut text = if offset < 0 {
        String::from_str("$")
    } else {
        String::from_str("+$")
    };
    push_hex_signed(&mut text, offset);
    text
}

/// A number in decimal.
pub fn to_decimal(n: usize) -> (text: String)
    ensures
        text@ == decimal(n as nat),
    decreases n,
{
    if n < 10 {
        String::from_str(digit(n as u8))
    } else {
        let front = to_decimal(n / 10);
        front.concat(digit((n % 10) as u8))
    }
}

} // verus!
