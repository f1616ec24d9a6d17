use frame_codec::Address;
use frame_codec::Address::{
    ErrorReport, InternalTemp, OperationLock, ProcessTempActualSettingMode, SetProcessTemp,
    SetpointTempControl, TempControl, TempControlMode, WarningMessage,
};

#[test]
fn encode_address_enum() {
    let expected = &[
        (SetpointTempControl, 0x00),
        (InternalTemp, 0x01),
        (ErrorReport, 0x05),
        (WarningMessage, 0x06),
        (SetProcessTemp, 0x09),
        (TempControlMode, 0x13),
        (TempControl, 0x14),
        (OperationLock, 0x17),
        (ProcessTempActualSettingMode, 0x19),
    ];
    for (addr, nr) in expected {
        assert_eq!(u8::from(*addr), *nr);
    }
    let byte: u8 = Address::OperationLock.into();
    assert_eq!(byte, 0x17);
}

#[test]
fn decode_address_enum() {
    let expected = &[
        (SetpointTempControl, 0x00),
        (InternalTemp, 0x01),
        (ErrorReport, 0x05),
        (WarningMessage, 0x06),
        (SetProcessTemp, 0x09),
        (TempControlMode, 0x13),
        (TempControl, 0x14),
        (OperationLock, 0x17),
        (ProcessTempActualSettingMode, 0x19),
    ];
    for (addr, nr) in expected {
        assert_eq!(Address::from_u8(*nr).unwrap(), *addr);
    }
    assert!(Address::from_u8(255).is_none());
}

#[test]
fn known_addresses_and_no_others() {
    let known = [0x00u8, 0x01, 0x05, 0x06, 0x09, 0x13, 0x14, 0x17, 0x19];
    for x in 0..=255u8 {
        match Address::from_u8(x) {
            Some(a) => {
                assert!(known.contains(&x));
                assert_eq!(u8::from(a), x);
            }
            None => assert!(!known.contains(&x)),
        }
    }
}
