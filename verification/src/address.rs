//! The registers that the device is known to have.
//!
//! A frame carries its register as a plain number, and the codec passes every
//! number through. This table gives names to the numbers that are known.

use vstd::prelude::*;
use vstd::std_specs::convert::FromSpecImpl;

verus! {

/// A known register of the device.
#[derive(Debug, Clone, Copy, PartialEq, Eq, Structural)]
pub enum Address {
    /// Setpoint of the temperature controller.
    SetpointTempControl,
    /// Internal temperature.
    InternalTemp,
    /// Error report.
    ErrorReport,
    /// Warning message.
    WarningMessage,
    /// Setting of the process temperature.
    SetProcessTemp,
    /// Temperature control mode.
    TempControlMode,
    /// Temperature control.
    TempControl,
    /// Operating lock.
    OperationLock,
    /// Setting mode of the actual value of the process temperature.
    ProcessTempActualSettingMode,
}

impl Address {
    /// The number of this register on the wire.
    pub open spec fn code(self) -> u8 {
        match self {
            Address::SetpointTempControl => 0x00,
            Address::InternalTemp => 0x01,
            Address::ErrorReport => 0x05,
            Address::WarningMessage => 0x06,
            Address::SetProcessTemp => 0x09,
            Address::TempControlMode => 0x13,
            Address::TempControl => 0x14,
            Address::OperationLock => 0x17,
            Address::ProcessTempActualSettingMode => 0x19,
        }
    }

    /// The known register whose number is `x`, if there is one.
    pub open spec fn with_code(x: u8) -> Option<Address> {
        if x == Address::SetpointTempControl.code() {
            Some(Address::SetpointTempControl)
        } else if x == Address::InternalTemp.code() {
            Some(Address::InternalTemp)
        } else if x == Address::ErrorReport.code() {
            Some(Address::ErrorReport)
        } else if x == Address::WarningMessage.code() {
            Some(Address::WarningMessage)
        } else if x == Address::SetProcessTemp.code() {
            Some(Address::SetProcessTemp)
        } else if x == Address::TempControlMode.code() {
            Some(Address::TempControlMode)
        } else if x == Address::TempControl.code() {
            Some(Address::TempControl)
        } else if x == Address::OperationLock.code() {
            Some(Address::OperationLock)
        } else if x == Address::ProcessTempActualSettingMode.code() {
            Some(Address::ProcessTempActualSettingMode)
        } else {
            None
        }
    }

    /// Looks up the known register with the number `x`.
    #[must_use]
    pub fn from_u8(x: u8) -> (known: Option<Self>)
        ensures
            known == Address::with_code(x),
    {
        match x {
            0x00 => Some(Self::SetpointTempControl),
            0x01 => Some(Self::InternalTemp),
            0x05 => Some(Self::ErrorReport),
            0x06 => Some(Self::WarningMessage),
            0x09 => Some(Self::SetProcessTemp),
            0x13 => Some(Self::TempControlMode),
            0x14 => Some(Self::TempControl),
            0x17 => Some(Self::OperationLock),
            0x19 => Some(Self::ProcessTempActualSettingMode),
            _ => None,
        }
    }
}

impl From<Address> for u8 {
    /// The number of the register on the wire.
    fn from(from: Address) -> (code: u8) {
        match from {
            Address::SetpointTempControl => 0x00,
            Address::InternalTemp => 0x01,
            Address::ErrorReport => 0x05,
            Address::WarningMessage => 0x06,
            Address::SetProcessTemp => 0x09,
            Address::TempControlMode => 0x13,
            Address::TempControl => 0x14,
            Address::OperationLock => 0x17,
            Address::ProcessTempActualSettingMode => 0x19,
        }
    }
}

impl FromSpecImpl<Address> for u8 {
    open spec fn obeys_from_spec() -> bool {
        true
    }

    open spec fn from_spec(from: Address) -> u8 {
        from.code()
    }
}

/// A number names the register that has it, and no other: the lookup by
/// number is the inverse of `code`.
pub proof fn lemma_with_code_inverts_code(x: u8, a: Address)
    ensures
        Address::with_code(x) == Some(a) <==> a.code() == x,
{
}

} // verus!
