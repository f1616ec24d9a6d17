//! The command that a frame carries.

use vstd::prelude::*;
use vstd::std_specs::convert::FromSpecImpl;

verus! {

/// ASCII `M`, the mark of a frame sent by the master.
pub const MASTER_MARK: u8 = 0x4D;

/// ASCII `S`, the mark of a frame sent by the slave.
pub const SLAVE_MARK: u8 = 0x53;

/// The side of the link that produced a frame.
#[derive(Debug, Clone, Copy, PartialEq, Eq, Structural)]
pub enum Sender {
    /// The controller.
    Master,
    /// The controlled device.
    Slave,
}

/// One command: who sent it, which register it is about, and the value it
/// carries, if any.
///
/// A command without data is a read request; one with data is a write or the
/// answer to a read.
#[derive(Debug, Clone, Copy, PartialEq, Eq, Structural)]
pub struct Command {
    /// The side that sent the command.
    pub sender: Sender,
    /// The register that the command is about.
    pub address: u8,
    /// The value carried, if any.
    pub data: Option<u16>,
}

impl Sender {
    /// The byte that stands for this sender on the wire.
    pub open spec fn mark(self) -> u8 {
        match self {
            Sender::Master => MASTER_MARK,
            Sender::Slave => SLAVE_MARK,
        }
    }

    /// The sender that a byte stands for: `M` and `S` in upper case, nothing
    /// else.
    pub open spec fn of_mark(b: u8) -> Option<Sender> {
        if b == MASTER_MARK {
            Some(Sender::Master)
        } else if b == SLAVE_MARK {
            Some(Sender::Slave)
        } else {
            None
        }
    }
}

impl From<Sender> for u8 {
    /// The byte that stands for the sender on the wire.
    fn from(from: Sender) -> (mark: u8) {
        match from {
            Sender::Master => MASTER_MARK,
            Sender::Slave => SLAVE_MARK,
        }
    }
}

impl FromSpecImpl<Sender> for u8 {
    open spec fn obeys_from_spec() -> bool {
        true
    }

    open spec fn from_spec(from: Sender) -> u8 {
        from.mark()
    }
}

} // verus!
