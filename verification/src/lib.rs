//! Codec for the ten-byte ASCII command frame that a controller (the master)
//! and a controlled device (the slave) exchange over a serial link.
//!
//! A frame is `{`, the sender (`M` or `S`), the address of a register as two
//! hexadecimal digits, the data as four hexadecimal digits (or `****` where
//! the frame carries none), and a carriage return and line feed.
//!
//! [`Command::into_bytes`] encodes a [`Command`] as the bytes of its frame;
//! [`Command::from_bytes`] and the `FromStr` impl decode a frame and say, in a
//! [`ParseError`], which rule of the grammar an input breaks. The module
//! [`frame`] states the grammar and what holds of it: above all, that
//! decoding the frame of a command gives the command back.

pub mod address;
pub mod command;
pub mod decoder;
pub mod encoder;
pub mod error;
pub mod frame;
pub mod hex;
pub mod text;

pub use address::Address;
pub use command::{Command, Sender};
pub use decoder::all_ascii;
pub use encoder::byte_cmd_msg;
pub use error::ParseError;
pub use hex::{from_hex_digit, parse_hex_u16, parse_hex_u8, to_upper_hex};
