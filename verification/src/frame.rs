//! The grammar of a frame, as a relation between commands and byte sequences.
//!
//! | Offset | Length | Content                         |
//! |--------|--------|---------------------------------|
//! | 0      | 1      | `{`                             |
//! | 1      | 1      | `M` or `S`: the sender          |
//! | 2      | 2      | the address, two hex digits     |
//! | 4      | 4      | the data, four hex digits, or `****` where there is none |
//! | 8      | 2      | carriage return, line feed      |

use vstd::prelude::*;
use crate::command::{Command, Sender};
use crate::error::ParseError;
use crate::hex::{
    ascii_uppercase, hex_digit_value, hex_pair_value, hex_quad_value, is_ascii_lowercase,
    lemma_hex_digit_round_trip, lemma_hex_digit_value_ignores_case, lemma_upper_hex_digit_range,
    upper_hex_digit,
};

verus! {

/// The length of every frame, in bytes.
pub const FRAME_LEN: usize = 10;

/// ASCII `{`, the first byte of a frame.
pub const START: u8 = 0x7B;

/// ASCII `*`, which fills the data field of a frame without data.
pub const NO_DATA: u8 = 0x2A;

/// ASCII carriage return, the last byte but one of a frame.
pub const CR: u8 = 0x0D;

/// ASCII line feed, the last byte of a frame.
pub const LF: u8 = 0x0A;

/// The greatest ASCII byte.
pub const ASCII_MAX: u8 = 0x7F;

/// The address field of a frame: two upper-case digits, zero-padded.
pub open spec fn address_field(address: u8) -> Seq<u8> {
    seq![upper_hex_digit(address / 16), upper_hex_digit(address % 16)]
}

/// The data field of a frame: four upper-case digits, zero-padded, or four
/// asterisks where there is no data.
pub open spec fn data_field(data: Option<u16>) -> Seq<u8> {
    match data {
        Some(d) => seq![
            upper_hex_digit((d / 4096) as u8),
            upper_hex_digit((d / 256 % 16) as u8),
            upper_hex_digit((d / 16 % 16) as u8),
            upper_hex_digit((d % 16) as u8),
        ],
        None => seq![NO_DATA, NO_DATA, NO_DATA, NO_DATA],
    }
}

/// The frame that carries the command `c`.
pub open spec fn encoding(c: Command) -> Seq<u8> {
    seq![START, c.sender.mark()] + address_field(c.address) + data_field(c.data) + seq![CR, LF]
}

/// Whether every byte of `bytes` is ASCII.
pub open spec fn is_ascii_bytes(bytes: Seq<u8>) -> bool {
    forall|i: int| 0 <= i < bytes.len() ==> bytes[i] <= ASCII_MAX
}

/// What a data field says: `Some(None)` for four asterisks, `Some(Some(d))` for
/// four hexadecimal digits that write `d`, and `None` for anything else.
pub open spec fn data_value(d3: u8, d2: u8, d1: u8, d0: u8) -> Option<Option<u16>> {
    if d3 == NO_DATA && d2 == NO_DATA && d1 == NO_DATA && d0 == NO_DATA {
        Some(None)
    } else {
        match hex_quad_value(d3, d2, d1, d0) {
            Some(d) => Some(Some(d)),
            None => None,
        }
    }
}

/// What an input of bytes decodes to: the command it carries, or the first
/// rule it breaks.
///
/// The rules are tried in this order: the length, ASCII, the sender, the
/// address, the data. The first byte and the last two are not looked at.
pub open spec fn decoding(bytes: Seq<u8>) -> Result<Command, ParseError> {
    if bytes.len() != FRAME_LEN {
        Err(ParseError::MessageLength)
    } else if !is_ascii_bytes(bytes) {
        Err(ParseError::NonAsciiStr)
    } else {
        match (
            Sender::of_mark(bytes[1]),
            hex_pair_value(bytes[2], bytes[3]),
            data_value(bytes[4], bytes[5], bytes[6], bytes[7]),
        ) {
            (None, _, _) => Err(ParseError::Sender),
            (Some(_), None, _) => Err(ParseError::Address),
            (Some(_), Some(_), None) => Err(ParseError::CommandData),
            (Some(sender), Some(address), Some(data)) => Ok(Command { sender, address, data }),
        }
    }
}

/// Whether `a` and `b` are the same input but for the case of the letters in
/// the address and data fields, which are the bytes at offsets 2 to 7.
pub open spec fn same_but_digit_case(a: Seq<u8>, b: Seq<u8>) -> bool {
    &&& a.len() == b.len()
    &&& forall|i: int|
        0 <= i < a.len() ==> if 2 <= i < 8 {
            ascii_uppercase(#[trigger] a[i]) == ascii_uppercase(b[i])
        } else {
            a[i] == b[i]
        }
}

/// A frame is ten bytes long, whatever command it carries.
pub proof fn lemma_encoding_len(c: Command)
    ensures
        encoding(c).len() == FRAME_LEN,
{
}

/// A frame holds no lower-case letter: its digits are written in upper case.
pub proof fn lemma_encoding_has_no_lowercase(c: Command)
    ensures
        forall|i: int|
            0 <= i < encoding(c).len() ==> !is_ascii_lowercase(#[trigger] encoding(c)[i]),
{
    lemma_address_field_digits(c.address);
    lemma_data_field_digits(c.data);
}

/// Decoding the frame of a command gives the command back.
pub proof fn lemma_decoding_of_encoding(c: Command)
    ensures
        decoding(encoding(c)) == Ok::<Command, ParseError>(c),
{
    lemma_address_field_digits(c.address);
    lemma_data_field_digits(c.data);
    let frame = encoding(c);
    assert(is_ascii_bytes(frame));
    assert(Sender::of_mark(frame[1]) == Some(c.sender));
    assert(hex_pair_value(frame[2], frame[3]) == Some(c.address));
    assert(data_value(frame[4], frame[5], frame[6], frame[7]) == Some(c.data));
}

/// Hexadecimal digits are read in either case: two inputs that differ only in
/// the case of letters in the address and data fields decode alike.
pub proof fn lemma_decoding_ignores_digit_case(a: Seq<u8>, b: Seq<u8>)
    requires
        same_but_digit_case(a, b),
    ensures
        decoding(a) == decoding(b),
{
    if a.len() == FRAME_LEN {
        assert(is_ascii_bytes(a) == is_ascii_bytes(b)) by {
            assert forall|i: int| 0 <= i < a.len() implies (a[i] <= ASCII_MAX) == (b[i]
                <= ASCII_MAX) by {
                assert(ascii_uppercase(a[i]) == ascii_uppercase(b[i]) || a[i] == b[i]);
            }
        }
        assert forall|i: int| 2 <= i < 8 implies hex_digit_value(a[i])
            == hex_digit_value(b[i]) && (a[i] == NO_DATA) == (b[i] == NO_DATA) by {
            assert(ascii_uppercase(a[i]) == ascii_uppercase(b[i]));
            lemma_hex_digit_value_ignores_case(a[i]);
            lemma_hex_digit_value_ignores_case(b[i]);
        }
        assert(a[1] == b[1]);
    }
}

/// The digits of an address field and what they are read as.
proof fn lemma_address_field_digits(address: u8)
    ensures
        address_field(address).len() == 2,
        forall|i: int|
            0 <= i < 2 ==> {
                let digit = #[trigger] address_field(address)[i];
                digit <= ASCII_MAX && digit != NO_DATA && !is_ascii_lowercase(digit)
            },
        ({
            let field = address_field(address);
            hex_pair_value(field[0], field[1]) == Some(address)
        }),
{
    lemma_hex_digit_round_trip(address / 16);
    lemma_hex_digit_round_trip(address % 16);
    lemma_upper_hex_digit_range(address / 16);
    lemma_upper_hex_digit_range(address % 16);
}

/// A 16-bit value is the sum of its four base-16 digits, each weighted by its
/// place.
proof fn lemma_u16_digits(d: u16)
    ensures
        d / 4096 < 16,
        4096 * (d / 4096) + 256 * (d / 256 % 16) + 16 * (d / 16 % 16) + d % 16 == d,
{
    assert(d / 4096 < 16) by (bit_vector);
    assert(4096 * (d / 4096) + 256 * (d / 256 % 16) + 16 * (d / 16 % 16) + d % 16 == d)
        by (bit_vector);
}

/// The bytes of a data field and what they are read as.
proof fn lemma_data_field_digits(data: Option<u16>)
    ensures
        data_field(data).len() == 4,
        forall|i: int|
            0 <= i < 4 ==> {
                let digit = #[trigger] data_field(data)[i];
                digit <= ASCII_MAX && !is_ascii_lowercase(digit)
            },
        ({
            let field = data_field(data);
            data_value(field[0], field[1], field[2], field[3]) == Some(data)
        }),
{
    if let Some(d) = data {
        let d3 = (d / 4096) as u8;
        let d2 = (d / 256 % 16) as u8;
        let d1 = (d / 16 % 16) as u8;
        let d0 = (d % 16) as u8;
        lemma_hex_digit_round_trip(d3);
        lemma_hex_digit_round_trip(d2);
        lemma_hex_digit_round_trip(d1);
        lemma_hex_digit_round_trip(d0);
        lemma_upper_hex_digit_range(d3);
        lemma_upper_hex_digit_range(d2);
        lemma_upper_hex_digit_range(d1);
        lemma_upper_hex_digit_range(d0);
        assert(hex_pair_value(upper_hex_digit(d3), upper_hex_digit(d2)) == Some(
            (16 * d3 + d2) as u8,
        ));
        assert(hex_pair_value(upper_hex_digit(d1), upper_hex_digit(d0)) == Some(
            (16 * d1 + d0) as u8,
        ));
        assert(256 * (16 * d3 + d2) + (16 * d1 + d0) == d) by {
            lemma_u16_digits(d);
        }
    }
}

} // verus!
