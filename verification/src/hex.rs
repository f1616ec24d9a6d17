//! Hexadecimal digits as ASCII bytes.
//!
//! Frames carry numbers as fixed-width, big-endian hexadecimal text. Digits are
//! written in upper case only and read in either case.

use vstd::prelude::*;

verus! {

/// ASCII `0`.
pub const DIGIT_0: u8 = 0x30;

/// ASCII `9`.
pub const DIGIT_9: u8 = 0x39;

/// ASCII `A`.
pub const UPPER_A: u8 = 0x41;

/// ASCII `F`.
pub const UPPER_F: u8 = 0x46;

/// ASCII `a`.
pub const LOWER_A: u8 = 0x61;

/// ASCII `f`.
pub const LOWER_F: u8 = 0x66;

/// ASCII `z`.
pub const LOWER_Z: u8 = 0x7A;

/// The upper-case ASCII digit that stands for the value `v` in base 16:
/// `0`..`9` for values below ten, `A`..`F` for ten to fifteen.
pub open spec fn upper_hex_digit(v: u8) -> u8
    recommends
        v < 16,
{
    if v < 10 {
        (DIGIT_0 + v) as u8
    } else {
        (UPPER_A + (v - 10)) as u8
    }
}

/// The value of an ASCII hexadecimal digit of either case, or `None` for a
/// byte that is no such digit.
pub open spec fn hex_digit_value(b: u8) -> Option<u8> {
    if DIGIT_0 <= b <= DIGIT_9 {
        Some((b - DIGIT_0) as u8)
    } else if UPPER_A <= b <= UPPER_F {
        Some((b - UPPER_A + 10) as u8)
    } else if LOWER_A <= b <= LOWER_F {
        Some((b - LOWER_A + 10) as u8)
    } else {
        None
    }
}

/// The number written by two hexadecimal digits, most significant first, or
/// `None` if either byte is not a digit.
pub open spec fn hex_pair_value(hi: u8, lo: u8) -> Option<u8> {
    match (hex_digit_value(hi), hex_digit_value(lo)) {
        (Some(h), Some(l)) => Some((16 * h + l) as u8),
        _ => None,
    }
}

/// The number written by four hexadecimal digits, most significant first, or
/// `None` if any of the bytes is not a digit.
pub open spec fn hex_quad_value(d3: u8, d2: u8, d1: u8, d0: u8) -> Option<u16> {
    match (hex_pair_value(d3, d2), hex_pair_value(d1, d0)) {
        (Some(h), Some(l)) => Some((256 * h + l) as u16),
        _ => None,
    }
}

/// Whether `b` is an ASCII lower-case letter.
pub open spec fn is_ascii_lowercase(b: u8) -> bool {
    LOWER_A <= b <= LOWER_Z
}

/// `b` with an ASCII lower-case letter replaced by its upper-case form.
pub open spec fn ascii_uppercase(b: u8) -> u8 {
    if is_ascii_lowercase(b) {
        (b - (LOWER_A - UPPER_A)) as u8
    } else {
        b
    }
}

/// Renders a value below 16 as its upper-case hexadecimal ASCII digit.
pub fn to_upper_hex(x: u8) -> (digit: u8)
    requires
        x < 16,
    ensures
        digit == upper_hex_digit(x),
{
    if x < 10 {
        DIGIT_0 + x
    } else {
        UPPER_A + (x - 10)
    }
}

/// Reads one ASCII hexadecimal digit of either case.
pub fn from_hex_digit(b: u8) -> (value: Option<u8>)
    ensures
        value == hex_digit_value(b),
{
    if DIGIT_0 <= b && b <= DIGIT_9 {
        Some(b - DIGIT_0)
    } else if UPPER_A <= b && b <= UPPER_F {
        Some(b - UPPER_A + 10)
    } else if LOWER_A <= b && b <= LOWER_F {
        Some(b - LOWER_A + 10)
    } else {
        None
    }
}

/// Reads a two-digit hexadecimal number, most significant digit first.
pub fn parse_hex_u8(hi: u8, lo: u8) -> (value: Option<u8>)
    ensures
        value == hex_pair_value(hi, lo),
{
    match (from_hex_digit(hi), from_hex_digit(lo)) {
        (Some(h), Some(l)) => Some(16 * h + l),
        _ => None,
    }
}

/// Reads a four-digit hexadecimal number, most significant digit first.
pub fn parse_hex_u16(d3: u8, d2: u8, d1: u8, d0: u8) -> (value: Option<u16>)
    ensures
        value == hex_quad_value(d3, d2, d1, d0),
{
    match (parse_hex_u8(d3, d2), parse_hex_u8(d1, d0)) {
        (Some(h), Some(l)) => Some(256 * (h as u16) + (l as u16)),
        _ => None,
    }
}

/// Every value below 16 is read back from the digit that renders it.
pub proof fn lemma_hex_digit_round_trip(v: u8)
    requires
        v < 16,
    ensures
        hex_digit_value(upper_hex_digit(v)) == Some(v),
{
}

/// A rendered digit is one of `0`..`9` and `A`..`F`, so never a lower-case
/// letter.
pub proof fn lemma_upper_hex_digit_range(v: u8)
    requires
        v < 16,
    ensures
        DIGIT_0 <= upper_hex_digit(v) <= DIGIT_9 || UPPER_A <= upper_hex_digit(v) <= UPPER_F,
        !is_ascii_lowercase(upper_hex_digit(v)),
{
}

/// The value of a byte as a digit does not depend on the case of a letter.
pub proof fn lemma_hex_digit_value_ignores_case(b: u8)
    ensures
        hex_digit_value(ascii_uppercase(b)) == hex_digit_value(b),
{
}

} // verus!
