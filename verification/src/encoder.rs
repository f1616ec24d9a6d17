//! From a command to the bytes of its frame.

use vstd::prelude::*;
use crate::command::Command;
use crate::frame::{
    address_field, data_field, encoding, lemma_encoding_has_no_lowercase, lemma_encoding_len, CR,
    FRAME_LEN, LF, NO_DATA, START,
};
use crate::hex::{is_ascii_lowercase, to_upper_hex};

verus! {

/// Lays out a frame from its sender mark, its address field and its data
/// field.
pub fn byte_cmd_msg(sender: u8, addr: [u8; 2], data: [u8; 4]) -> (frame: [u8; 10])
    ensures
        frame@ == seq![START, sender] + addr@ + data@ + seq![CR, LF],
{
    let frame = [START, sender, addr[0], addr[1], data[0], data[1], data[2], data[3], CR, LF];
    assert(frame@ =~= seq![START, sender] + addr@ + data@ + seq![CR, LF]);
    frame
}

/// The four digits of a 16-bit value are the two digits of its high byte and
/// the two digits of its low byte.
proof fn lemma_digits_by_byte(d: u16)
    ensures
        d >> 8 <= 0xFF,
        d & 0xFF <= 0xFF,
        ((d >> 8) as u8) / 16 == (d / 4096) as u8,
        ((d >> 8) as u8) % 16 == (d / 256 % 16) as u8,
        ((d & 0xFF) as u8) / 16 == (d / 16 % 16) as u8,
        ((d & 0xFF) as u8) % 16 == (d % 16) as u8,
{
    assert(d >> 8 == d / 256 && d & 0xFF == d % 256) by (bit_vector);
}

impl Command {
    /// Encodes the command as the ten bytes of its frame.
    ///
    /// Every command has a frame. Its digits are written in upper case, so it
    /// holds no lower-case letter.
    #[must_use]
    pub fn into_bytes(self) -> (frame: [u8; 10])
        ensures
            frame@ == encoding(self),
            frame@.len() == FRAME_LEN,
            forall|i: int| 0 <= i < frame@.len() ==> !is_ascii_lowercase(#[trigger] frame@[i]),
    {
        let addr: [u8; 2] = [to_upper_hex(self.address / 16), to_upper_hex(self.address % 16)];
        assert(addr@ =~= address_field(self.address));
        let mut data: [u8; 4] = [NO_DATA, NO_DATA, NO_DATA, NO_DATA];
        if let Some(d) = self.data {
            proof {
                lemma_digits_by_byte(d);
            }
            let hi = (d >> 8) as u8;
            let lo = (d & 0xFF) as u8;
            data[0] = to_upper_hex(hi / 16);
            data[1] = to_upper_hex(hi % 16);
            data[2] = to_upper_hex(lo / 16);
            data[3] = to_upper_hex(lo % 16);
        }
        assert(data@ =~= data_field(self.data));
        proof {
            lemma_encoding_len(self);
            lemma_encoding_has_no_lowercase(self);
        }
        byte_cmd_msg(self.sender.into(), addr, data)
    }
}

} // verus!
