use std::str::FromStr;

use frame_codec::{Command, ParseError, Sender};

#[test]
fn from_str_with_invalid_len() {
    assert!(Command::from_str("{M31*****\r\n").is_err());
    assert!(Command::from_str("{M31***\r\n").is_err());
}

#[test]
fn from_bad_str() {
    let msg = "{�ۿ�3";
    assert!(Command::from_str(msg).is_err());
}

#[test]
fn from_str_with_bad_sender() {
    assert!(Command::from_str("{X31****\r\n").is_err());
}

#[test]
fn from_str_with_bad_data() {
    assert!(Command::from_str("{M310z00\r\n").is_err());
}

#[test]
fn from_str_with_bad_address() {
    assert!(Command::from_str("{MTT0000\r\n").is_err());
}

#[test]
fn from_str() {
    let cmd = Command::from_str("{M31****\r\n").unwrap();
    assert_eq!(cmd.sender, Sender::Master);
    assert_eq!(cmd.address, 0x31);
    assert_eq!(cmd.data, None);

    let cmd = Command::from_str("{S223219\r\n").unwrap();
    assert_eq!(cmd.sender, Sender::Slave);
    assert_eq!(cmd.address, 0x22);
    assert_eq!(cmd.data, Some(0x3219));
}

#[test]
fn decode_read_request() {
    assert_eq!(
        Command::from_str("{M31****\r\n"),
        Ok(Command {
            sender: Sender::Master,
            address: 0x31,
            data: None,
        })
    );
}

#[test]
fn decode_answer_with_data() {
    assert_eq!(
        Command::from_str("{S223219\r\n"),
        Ok(Command {
            sender: Sender::Slave,
            address: 0x22,
            data: Some(0x3219),
        })
    );
}

#[test]
fn parse_through_str() {
    let cmd: Command = "{S190001\r\n".parse().unwrap();
    assert_eq!(
        cmd,
        Command {
            sender: Sender::Slave,
            address: 0x19,
            data: Some(1),
        }
    );
}

#[test]
fn wrong_length_is_message_length() {
    assert_eq!(
        Command::from_str("{M31*****\r\n"),
        Err(ParseError::MessageLength)
    );
    assert_eq!(
        Command::from_str("{M31***\r\n"),
        Err(ParseError::MessageLength)
    );
    assert_eq!(Command::from_str(""), Err(ParseError::MessageLength));
    assert_eq!(Command::from_bytes(&[]), Err(ParseError::MessageLength));
    assert_eq!(
        Command::from_bytes(b"{M31****\r\n\r\n"),
        Err(ParseError::MessageLength)
    );
}

#[test]
fn length_is_checked_before_anything_else() {
    // Eleven bytes that break every other rule as well.
    assert_eq!(
        Command::from_str("{Xzz0z0é\r\n"),
        Err(ParseError::MessageLength)
    );
    // Nine bytes, one of them outside ASCII.
    assert_eq!(
        Command::from_bytes(&[0x7B, 0x4D, 0x33, 0x31, 0xFF, 0x2A, 0x2A, 0x0D, 0x0A]),
        Err(ParseError::MessageLength)
    );
}

#[test]
fn non_ascii_text_of_ten_bytes() {
    let msg = "{�ۿ�3";
    assert_eq!(msg.len(), 10);
    assert_eq!(Command::from_str(msg), Err(ParseError::NonAsciiStr));
    // Nine characters, ten bytes.
    let msg = "{M31*é**\r";
    assert_eq!(msg.len(), 10);
    assert_eq!(msg.chars().count(), 9);
    assert_eq!(Command::from_str(msg), Err(ParseError::NonAsciiStr));
}

#[test]
fn non_ascii_is_checked_before_the_fields() {
    // A bad sender, a bad address and bad data, and a byte outside ASCII at the end.
    assert_eq!(
        Command::from_bytes(&[0x7B, 0x58, 0x54, 0x54, 0x30, 0x7A, 0x30, 0x30, 0x0D, 0x80]),
        Err(ParseError::NonAsciiStr)
    );
    // The same holds of the start marker, which is otherwise not looked at.
    assert_eq!(
        Command::from_bytes(&[0xC3, 0x4D, 0x33, 0x31, 0x2A, 0x2A, 0x2A, 0x2A, 0x0D, 0x0A]),
        Err(ParseError::NonAsciiStr)
    );
}

#[test]
fn greatest_ascii_byte_is_accepted() {
    assert_eq!(
        Command::from_bytes(&[0x7F, 0x4D, 0x33, 0x31, 0x2A, 0x2A, 0x2A, 0x2A, 0x7F, 0x7F]),
        Ok(Command {
            sender: Sender::Master,
            address: 0x31,
            data: None,
        })
    );
}

#[test]
fn bad_sender_is_sender() {
    assert_eq!(Command::from_str("{X31****\r\n"), Err(ParseError::Sender));
}

#[test]
fn sender_is_case_sensitive() {
    assert_eq!(Command::from_str("{m31****\r\n"), Err(ParseError::Sender));
    assert_eq!(Command::from_str("{s31****\r\n"), Err(ParseError::Sender));
    assert!(Command::from_str("{M31****\r\n").is_ok());
}

#[test]
fn sender_is_checked_before_address_and_data() {
    assert_eq!(Command::from_str("{XTT0z00\r\n"), Err(ParseError::Sender));
}

#[test]
fn bad_address_is_address() {
    assert_eq!(Command::from_str("{MTT0000\r\n"), Err(ParseError::Address));
    assert_eq!(Command::from_str("{M3G0000\r\n"), Err(ParseError::Address));
    assert_eq!(Command::from_str("{M 10000\r\n"), Err(ParseError::Address));
    assert_eq!(Command::from_str("{M**0000\r\n"), Err(ParseError::Address));
}

#[test]
fn address_is_checked_before_data() {
    assert_eq!(Command::from_str("{MTT0z00\r\n"), Err(ParseError::Address));
}

#[test]
fn bad_data_is_command_data() {
    assert_eq!(
        Command::from_str("{M310z00\r\n"),
        Err(ParseError::CommandData)
    );
    assert_eq!(
        Command::from_str("{M31***0\r\n"),
        Err(ParseError::CommandData)
    );
    assert_eq!(
        Command::from_str("{M31 123\r\n"),
        Err(ParseError::CommandData)
    );
    assert_eq!(
        Command::from_str("{M31123g\r\n"),
        Err(ParseError::CommandData)
    );
}

#[test]
fn a_sign_is_no_digit() {
    assert_eq!(Command::from_str("{M+10000\r\n"), Err(ParseError::Address));
    assert_eq!(Command::from_str("{M-10000\r\n"), Err(ParseError::Address));
    assert_eq!(
        Command::from_str("{M31+123\r\n"),
        Err(ParseError::CommandData)
    );
    assert_eq!(
        Command::from_str("{M31-123\r\n"),
        Err(ParseError::CommandData)
    );
}

#[test]
fn hex_digits_of_either_case() {
    let upper = Command::from_str("{MABCDEF\r\n");
    let lower = Command::from_str("{Mabcdef\r\n");
    let mixed = Command::from_str("{MaBcDeF\r\n");
    let expected = Ok(Command {
        sender: Sender::Master,
        address: 0xAB,
        data: Some(0xCDEF),
    });
    assert_eq!(upper, expected);
    assert_eq!(lower, expected);
    assert_eq!(mixed, expected);
}

#[test]
fn boundary_values_decode() {
    assert_eq!(
        Command::from_str("{S000000\r\n"),
        Ok(Command {
            sender: Sender::Slave,
            address: 0,
            data: Some(0),
        })
    );
    assert_eq!(
        Command::from_str("{SFFFFFF\r\n"),
        Ok(Command {
            sender: Sender::Slave,
            address: 255,
            data: Some(0xFFFF),
        })
    );
    assert_eq!(
        Command::from_str("{S0A0100\r\n"),
        Ok(Command {
            sender: Sender::Slave,
            address: 10,
            data: Some(256),
        })
    );
}

#[test]
fn start_and_terminator_are_not_checked() {
    let expected = Ok(Command {
        sender: Sender::Master,
        address: 0x31,
        data: None,
    });
    assert_eq!(Command::from_str("[M31****\r\n"), expected);
    assert_eq!(Command::from_str("{M31****xy"), expected);
    assert_eq!(Command::from_str("MM31****\n\r"), expected);
}

#[test]
fn bytes_and_text_decode_alike() {
    let inputs = [
        "{M31****\r\n",
        "{S223219\r\n",
        "{X31****\r\n",
        "{M310z00\r\n",
        "{MTT0000\r\n",
        "{M31***\r\n",
        "{�ۿ�3",
    ];
    for input in inputs {
        assert_eq!(
            Command::from_str(input),
            Command::from_bytes(input.as_bytes())
        );
    }
}

#[test]
fn every_error_has_its_message() {
    assert_eq!(ParseError::MessageLength.message(), "Invalid message length");
    assert_eq!(ParseError::NonAsciiStr.message(), "Non-ASCII str");
    assert_eq!(ParseError::Sender.message(), "Invalid sender");
    assert_eq!(ParseError::CommandData.message(), "Invalid command data");
    assert_eq!(ParseError::Address.message(), "Invalid command address");
}
