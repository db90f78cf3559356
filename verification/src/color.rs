//! RGB color values with a hexadecimal text form.
//!
//! A [`Color`] is one output pixel: three 8-bit channels. Its text form is
//! `#rrggbb` with lowercase hex digits; parsing accepts either case and
//! ignores anything after the sixth digit.

use vstd::prelude::*;

use crate::text::push_char;

verus! {

/// An 8-bit-per-channel RGB color.
#[derive(Clone, Copy, Debug, Default, PartialEq, Eq, Structural)]
pub struct Color {
    pub r: u8,
    pub g: u8,
    pub b: u8,
}

/// Why a hex string failed to parse as a [`Color`].
#[derive(Clone, Copy, Debug, PartialEq, Eq, Structural)]
pub enum ColorParseError {
    /// The text does not begin with `#`.
    MissingPrefix,
    /// The text ends before all six hex digits are present.
    MissingDigits,
    /// A character stands where a hex digit was expected but is not one.
    InvalidDigit,
}

/// The lowercase hex digit for a value below sixteen.
pub open spec fn spec_hex_digit(v: int) -> char {
    if v == 0 {
        '0'
    } else if v == 1 {
        '1'
    } else if v == 2 {
        '2'
    } else if v == 3 {
        '3'
    } else if v == 4 {
        '4'
    } else if v == 5 {
        '5'
    } else if v == 6 {
        '6'
    } else if v == 7 {
        '7'
    } else if v == 8 {
        '8'
    } else if v == 9 {
        '9'
    } else if v == 10 {
        'a'
    } else if v == 11 {
        'b'
    } else if v == 12 {
        'c'
    } else if v == 13 {
        'd'
    } else if v == 14 {
        'e'
    } else {
        'f'
    }
}

/// The two lowercase hex digits of a byte, high digit first.
pub open spec fn spec_hex_pair(b: u8) -> Seq<char> {
    seq![spec_hex_digit(b as int / 16), spec_hex_digit(b as int % 16)]
}

/// The `#rrggbb` form of a color.
pub open spec fn spec_color_hex(c: Color) -> Seq<char> {
    seq!['#'] + spec_hex_pair(c.r) + spec_hex_pair(c.g) + spec_hex_pair(c.b)
}

/// Whether a character is a hex digit, in either case.
pub open spec fn spec_is_hex_digit(c: char) -> bool {
    ('0' <= c && c <= '9') || ('a' <= c && c <= 'f') || ('A' <= c && c <= 'F')
}

/// The value of a hex digit, in either case.
pub open spec fn spec_hex_value(c: char) -> int {
    if '0' <= c && c <= '9' {
        c as int - '0' as int
    } else if 'a' <= c && c <= 'f' {
        10 + c as int - 'a' as int
    } else {
        10 + c as int - 'A' as int
    }
}

/// The byte written as the two hex digits at `i` and `i + 1`.
pub open spec fn spec_hex_byte_at(s: Seq<char>, i: int) -> u8 {
    (16 * spec_hex_value(s[i]) + spec_hex_value(s[i + 1])) as u8
}

/// What parsing a hex color string yields: the color behind a `#` followed by
/// six hex digits (more text may trail and is ignored), or the first failure
/// met reading the three channel pairs left to right.
pub open spec fn spec_from_hex(s: Seq<char>) -> Result<Color, ColorParseError> {
    if s.len() == 0 || s[0] != '#' {
        Err(ColorParseError::MissingPrefix)
    } else if s.len() < 3 {
        Err(ColorParseError::MissingDigits)
    } else if !(spec_is_hex_digit(s[1]) && spec_is_hex_digit(s[2])) {
        Err(ColorParseError::InvalidDigit)
    } else if s.len() < 5 {
        Err(ColorParseError::MissingDigits)
    } else if !(spec_is_hex_digit(s[3]) && spec_is_hex_digit(s[4])) {
        Err(ColorParseError::InvalidDigit)
    } else if s.len() < 7 {
        Err(ColorParseError::MissingDigits)
    } else if !(spec_is_hex_digit(s[5]) && spec_is_hex_digit(s[6])) {
        Err(ColorParseError::InvalidDigit)
    } else {
        Ok(
            Color {
                r: spec_hex_byte_at(s, 1),
                g: spec_hex_byte_at(s, 3),
                b: spec_hex_byte_at(s, 5),
            },
        )
    }
}

impl Color {
    /// Builds a color from its three channels.
    pub fn new(r: u8, g: u8, b: u8) -> (c: Self)
        ensures
            c == (Color { r, g, b }),
    {
        Self { r, g, b }
    }

    /// Writes the color as `#rrggbb` with lowercase hex digits.
    pub fn to_hex(&self) -> (s: String)
        ensures
            s@ == spec_color_hex(*self),
    {
        let mut s = String::new();
        push_char(&mut s, '#');
        push_hex_pair(&mut s, self.r);
        push_hex_pair(&mut s, self.g);
        push_hex_pair(&mut s, self.b);
        assert(s@ =~= spec_color_hex(*self));
        s
    }

    /// Parses a `#rrggbb` hex string back into a color.
    pub fn from_hex(s: &str) -> (r: Result<Self, ColorParseError>)
        ensures
            r == spec_from_hex(s@),
    {
        let n = s.unicode_len();
        if n == 0 || s.get_char(0) != '#' {
            return Err(ColorParseError::MissingPrefix);
        }
        let r = match hex_byte_at(s, 1) {
            Ok(v) => v,
            Err(e) => {
                return Err(e);
            },
        };
        let g = match hex_byte_at(s, 3) {
            Ok(v) => v,
            Err(e) => {
                return Err(e);
            },
        };
        let b = match hex_byte_at(s, 5) {
            Ok(v) => v,
            Err(e) => {
                return Err(e);
            },
        };
        Ok(Self { r, g, b })
    }
}

/// Reads the two hex digits at `i` and `i + 1` as one byte, or reports what
/// kept them from being read.
fn hex_byte_at(s: &str, i: usize) -> (r: Result<u8, ColorParseError>)
    requires
        i + 2 <= usize::MAX,
    ensures
        (s@.len() >= i + 2 && spec_is_hex_digit(s@[i as int]) && spec_is_hex_digit(
            s@[i + 1],
        )) ==> r == Ok::<u8, ColorParseError>(spec_hex_byte_at(s@, i as int)),
        s@.len() < i + 2 ==> r == Err::<u8, ColorParseError>(ColorParseError::MissingDigits),
        (s@.len() >= i + 2 && !(spec_is_hex_digit(s@[i as int]) && spec_is_hex_digit(s@[i + 1])))
            ==> r == Err::<u8, ColorParseError>(ColorParseError::InvalidDigit),
{
    let n = s.unicode_len();
    if n < i + 2 {
        return Err(ColorParseError::MissingDigits);
    }
    let hi = s.get_char(i);
    let lo = s.get_char(i + 1);
    if !(is_hex_digit(hi) && is_hex_digit(lo)) {
        return Err(ColorParseError::InvalidDigit);
    }
    Ok(16 * hex_value(hi) + hex_value(lo))
}

/// Tells a hex digit, in either case, from any other character.
fn is_hex_digit(c: char) -> (b: bool)
    ensures
        b == spec_is_hex_digit(c),
{
    ('0' <= c && c <= '9') || ('a' <= c && c <= 'f') || ('A' <= c && c <= 'F')
}

/// The value of a hex digit.
fn hex_value(c: char) -> (v: u8)
    requires
        spec_is_hex_digit(c),
    ensures
        v as int == spec_hex_value(c),
        v < 16,
{
    if '0' <= c && c <= '9' {
        (c as u32 - '0' as u32) as u8
    } else if 'a' <= c && c <= 'f' {
        (c as u32 - 'a' as u32 + 10) as u8
    } else {
        (c as u32 - 'A' as u32 + 10) as u8
    }
}

/// The lowercase hex digit for a value below sixteen.
fn hex_digit_char(v: u8) -> (c: char)
    requires
        v < 16,
    ensures
        c == spec_hex_digit(v as int),
{
    match v {
        0 => '0',
        1 => '1',
        2 => '2',
        3 => '3',
        4 => '4',
        5 => '5',
        6 => '6',
        7 => '7',
        8 => '8',
        9 => '9',
        10 => 'a',
        11 => 'b',
        12 => 'c',
        13 => 'd',
        14 => 'e',
        _ => 'f',
    }
}

/// Appends the two hex digits of a byte, high digit first.
fn push_hex_pair(s: &mut String, b: u8)
    ensures
        final(s)@ == old(s)@ + spec_hex_pair(b),
{
    push_char(s, hex_digit_char(b / 16));
    push_char(s, hex_digit_char(b % 16));
    assert(s@ =~= old(s)@ + spec_hex_pair(b));
}

/// A hex digit below sixteen parses back to its own value.
proof fn lemma_hex_digit_value(v: int)
    requires
        0 <= v < 16,
    ensures
        spec_is_hex_digit(spec_hex_digit(v)),
        spec_hex_value(spec_hex_digit(v)) == v,
{
}

/// Serializing a color as hex text and parsing that text back reconstructs
/// the same three channels, for every color.
pub proof fn lemma_hex_round_trip(c: Color)
    ensures
        spec_from_hex(spec_color_hex(c)) == Ok::<Color, ColorParseError>(c),
{
    let s = spec_color_hex(c);
    lemma_hex_digit_value(c.r as int / 16);
    lemma_hex_digit_value(c.r as int % 16);
    lemma_hex_digit_value(c.g as int / 16);
    lemma_hex_digit_value(c.g as int % 16);
    lemma_hex_digit_value(c.b as int / 16);
    lemma_hex_digit_value(c.b as int % 16);
    assert(s.len() == 7 && s[0] == '#');
    assert(s[1] == spec_hex_digit(c.r as int / 16));
    assert(s[2] == spec_hex_digit(c.r as int % 16));
    assert(s[3] == spec_hex_digit(c.g as int / 16));
    assert(s[4] == spec_hex_digit(c.g as int % 16));
    assert(s[5] == spec_hex_digit(c.b as int / 16));
    assert(s[6] == spec_hex_digit(c.b as int % 16));
    assert(spec_hex_byte_at(s, 1) == c.r);
    assert(spec_hex_byte_at(s, 3) == c.g);
    assert(spec_hex_byte_at(s, 5) == c.b);
}

} // verus!
