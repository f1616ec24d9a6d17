//! Why a frame was rejected.

use vstd::prelude::*;

verus! {

/// The first rule of the frame grammar that an input breaks.
#[derive(Debug, Clone, Copy, PartialEq, Eq, Structural)]
pub enum ParseError {
    /// The input is not exactly ten bytes long.
    MessageLength,
    /// The input holds a byte outside ASCII.
    NonAsciiStr,
    /// The sender mark is neither `M` nor `S`.
    Sender,
    /// The data field is neither `****` nor four hexadecimal digits.
    CommandData,
    /// The address field is not two hexadecimal digits.
    Address,
}

impl ParseError {
    /// The text that describes this error.
    pub open spec fn message_text(self) -> Seq<char> {
        match self {
            ParseError::MessageLength => "Invalid message length"@,
            ParseError::NonAsciiStr => "Non-ASCII str"@,
            ParseError::Sender => "Invalid sender"@,
            ParseError::CommandData => "Invalid command data"@,
            ParseError::Address => "Invalid command address"@,
        }
    }

    /// A short description of the error, fit for a log line or a message to
    /// an operator.
    pub fn message(&self) -> (text: &'static str)
        ensures
            text@ == self.message_text(),
    {
        match *self {
            ParseError::MessageLength => "Invalid message length",
            ParseError::NonAsciiStr => "Non-ASCII str",
            ParseError::Sender => "Invalid sender",
            ParseError::CommandData => "Invalid command data",
            ParseError::Address => "Invalid command address",
        }
    }
}

} // verus!
