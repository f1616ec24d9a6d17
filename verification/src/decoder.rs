//! From the bytes of a frame to the command it carries.

use vstd::prelude::*;
use vstd::string::StringSliceAdditionalSpecFns;
use vstd::utf8::is_ascii_chars;
use core::str::FromStr;
use crate::command::{Command, Sender, MASTER_MARK, SLAVE_MARK};
use crate::error::ParseError;
use crate::frame::{decoding, is_ascii_bytes, ASCII_MAX, FRAME_LEN, NO_DATA};
use crate::hex::{parse_hex_u16, parse_hex_u8};
use crate::text::lemma_ascii_text_iff_ascii_bytes;

verus! {

/// Tells whether every byte of `bytes` is ASCII.
pub fn all_ascii(bytes: &[u8]) -> (ascii: bool)
    ensures
        ascii == is_ascii_bytes(bytes@),
{
    let mut i: usize = 0;
    while i < bytes.len()
        invariant
            i <= bytes.len(),
            forall|k: int| 0 <= k < i ==> bytes@[k] <= ASCII_MAX,
        decreases bytes.len() - i,
    {
        if bytes[i] > ASCII_MAX {
            return false;
        }
        i += 1;
    }
    true
}

impl Command {
    /// Decodes one frame.
    ///
    /// The input is held to the rules of the grammar in a fixed order, and the
    /// first rule that it breaks names the error: the length, ASCII, the
    /// sender, the address, the data. The start marker and the terminator are
    /// not looked at.
    pub fn from_bytes(bytes: &[u8]) -> (decoded: Result<Command, ParseError>)
        ensures
            decoded == decoding(bytes@),
            (decoded matches Err(ParseError::MessageLength)) <==> bytes@.len() != FRAME_LEN,
            (decoded matches Err(ParseError::NonAsciiStr)) <==> (bytes@.len() == FRAME_LEN
                && !is_ascii_bytes(bytes@)),
    {
        if bytes.len() != FRAME_LEN {
            return Err(ParseError::MessageLength);
        }
        if !all_ascii(bytes) {
            return Err(ParseError::NonAsciiStr);
        }
        let sender = if bytes[1] == MASTER_MARK {
            Sender::Master
        } else if bytes[1] == SLAVE_MARK {
            Sender::Slave
        } else {
            return Err(ParseError::Sender);
        };
        let address = match parse_hex_u8(bytes[2], bytes[3]) {
            Some(a) => a,
            None => {
                return Err(ParseError::Address);
            },
        };
        let data = if bytes[4] == NO_DATA && bytes[5] == NO_DATA && bytes[6] == NO_DATA && bytes[7]
            == NO_DATA {
            None
        } else {
            match parse_hex_u16(bytes[4], bytes[5], bytes[6], bytes[7]) {
                Some(d) => Some(d),
                None => {
                    return Err(ParseError::CommandData);
                },
            }
        };
        Ok(Command { sender, address, data })
    }
}

impl FromStr for Command {
    type Err = ParseError;

    /// Decodes the frame that the UTF-8 bytes of `s` make up.
    ///
    /// The length that counts is that of the bytes, so a text of fewer than
    /// ten characters, some of them outside ASCII, can have the right length.
    /// It is then refused for the characters outside ASCII.
    fn from_str(s: &str) -> (decoded: Result<Self, ParseError>)
        ensures
            decoded == decoding(s.spec_bytes()),
            (decoded matches Err(ParseError::MessageLength)) <==> s.spec_bytes().len() != FRAME_LEN,
            (decoded matches Err(ParseError::NonAsciiStr)) <==> (s.spec_bytes().len() == FRAME_LEN
                && !is_ascii_chars(s@)),
    {
        proof {
            lemma_ascii_text_iff_ascii_bytes(s@);
        }
        Command::from_bytes(s.as_bytes())
    }
}

} // verus!
