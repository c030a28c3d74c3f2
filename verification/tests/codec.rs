use tftp_codec::msg::AcknowledgementMessage;
use tftp_codec::msg::DataMessage;
use tftp_codec::msg::ErrorMessage;
use tftp_codec::msg::Message;
use tftp_codec::msg::MessageType;
use tftp_codec::msg::ParseError;
use tftp_codec::msg::ReadRequestMessage;
use tftp_codec::msg::ReadWriteRequestMessageMode;
use tftp_codec::msg::WriteRequestMessage;

#[test]
fn opcode_mapping_is_bidirectional() {
    let kinds = [
        MessageType::ReadRequest,
        MessageType::WriteRequest,
        MessageType::Data,
        MessageType::Acknowledgement,
        MessageType::Error,
    ];
    let opcodes = [1u16, 2, 3, 4, 5];
    for i in 0..kinds.len() {
        assert_eq!(MessageType::to_opcode(kinds[i]), opcodes[i]);
        assert_eq!(MessageType::from_opcode(opcodes[i]), Some(kinds[i]));
    }
    assert_eq!(MessageType::from_opcode(0), None);
    assert_eq!(MessageType::from_opcode(6), None);
    assert_eq!(MessageType::from_opcode(0x0900), None);
}

#[test]
fn mode_words_round_trip() {
    let modes = [
        ReadWriteRequestMessageMode::NetAscii,
        ReadWriteRequestMessageMode::Octet,
        ReadWriteRequestMessageMode::Mail,
    ];
    let words = ["netascii", "octet", "mail"];
    for i in 0..modes.len() {
        assert_eq!(ReadWriteRequestMessageMode::to_string(modes[i]), words[i]);
        assert_eq!(
            ReadWriteRequestMessageMode::from_string(words[i].to_owned()),
            Some(modes[i])
        );
    }
    assert_eq!(
        ReadWriteRequestMessageMode::from_string("OCTET".to_owned()),
        Some(ReadWriteRequestMessageMode::Octet)
    );
    assert_eq!(
        ReadWriteRequestMessageMode::from_string("Octet".to_owned()),
        Some(ReadWriteRequestMessageMode::Octet)
    );
    assert_eq!(ReadWriteRequestMessageMode::from_string("binary".to_owned()), None);
    assert_eq!(ReadWriteRequestMessageMode::from_string("oCtEt".to_owned()), None);
}

#[test]
fn read_request_concrete_wire_form() {
    let m = ReadRequestMessage::new("test.txt".to_owned(), ReadWriteRequestMessageMode::Octet);
    assert_eq!(m.opcode(), 1);
    let bytes = m.to_bytes();
    assert_eq!(
        bytes,
        vec![
            0x00, 0x01, 0x74, 0x65, 0x73, 0x74, 0x2E, 0x74, 0x78, 0x74, 0x00, 0x6F, 0x63, 0x74,
            0x65, 0x74
        ]
    );
    let back = ReadRequestMessage::from_bytes(bytes).unwrap();
    assert_eq!(back, m);
    assert_eq!(back.filename(), "test.txt");
    assert_eq!(back.mode(), ReadWriteRequestMessageMode::Octet);
}

#[test]
fn read_request_rejects_unknown_opcode() {
    let bytes = vec![0x00, 0x09, 0x61, 0x00, 0x6F, 0x63, 0x74, 0x65, 0x74];
    assert_eq!(ReadRequestMessage::from_bytes(bytes), Err(ParseError::InvalidOpcode));
}

#[test]
fn read_request_rejects_mismatched_opcode() {
    // A well-formed Data buffer fed to the request decoder.
    let bytes = vec![0x00, 0x03, 0x00, 0x01, 0x61, 0x62];
    assert_eq!(ReadRequestMessage::from_bytes(bytes), Err(ParseError::InvalidOpcode));
}

#[test]
fn write_request_round_trip() {
    let m = WriteRequestMessage::new("upload.bin".to_owned(), ReadWriteRequestMessageMode::Mail);
    assert_eq!(m.opcode(), 2);
    let bytes = m.to_bytes();
    assert_eq!(bytes[0], 0x00);
    assert_eq!(bytes[1], 0x02);
    let back = WriteRequestMessage::from_bytes(bytes).unwrap();
    assert_eq!(back, m);
    assert_eq!(back.filename(), "upload.bin");
    assert_eq!(back.mode(), ReadWriteRequestMessageMode::Mail);
}

#[test]
fn request_decoders_accept_any_case_mode() {
    for word in ["octet", "OCTET", "Octet"] {
        let mut bytes = vec![0x00, 0x01, 0x61, 0x00];
        bytes.extend_from_slice(word.as_bytes());
        let m = ReadRequestMessage::from_bytes(bytes).unwrap();
        assert_eq!(m.mode(), ReadWriteRequestMessageMode::Octet);
        assert_eq!(m.filename(), "a");
    }
    let mut bytes = vec![0x00, 0x01, 0x61, 0x00];
    bytes.extend_from_slice(b"binary");
    assert_eq!(ReadRequestMessage::from_bytes(bytes), Err(ParseError::InvalidMode));
}

#[test]
fn request_mode_word_may_carry_its_own_terminator() {
    // Some peers terminate the mode word too; the word ends at that null.
    let bytes = vec![0x00, 0x01, 0x61, 0x00, 0x6F, 0x63, 0x74, 0x65, 0x74, 0x00];
    let m = ReadRequestMessage::from_bytes(bytes).unwrap();
    assert_eq!(m.filename(), "a");
    assert_eq!(m.mode(), ReadWriteRequestMessageMode::Octet);
}

#[test]
fn request_without_any_terminator_is_rejected() {
    let bytes = vec![0x00, 0x01, 0x61, 0x62, 0x63, 0x64];
    assert_eq!(ReadRequestMessage::from_bytes(bytes), Err(ParseError::InvalidFilename));
}

#[test]
fn request_with_terminator_at_end_lacks_mode() {
    let bytes = vec![0x00, 0x01, 0x61, 0x62, 0x63, 0x00];
    assert_eq!(ReadRequestMessage::from_bytes(bytes), Err(ParseError::NoMode));
}

#[test]
fn request_with_empty_filename_is_rejected() {
    let bytes = vec![0x00, 0x01, 0x00, 0x6F, 0x63, 0x74, 0x65, 0x74];
    assert_eq!(ReadRequestMessage::from_bytes(bytes), Err(ParseError::NoFilename));
}

#[test]
fn request_with_empty_mode_word_is_rejected() {
    let bytes = vec![0x00, 0x01, 0x61, 0x62, 0x00, 0x00];
    assert_eq!(ReadRequestMessage::from_bytes(bytes), Err(ParseError::NoMode));
}

#[test]
fn short_request_is_rejected() {
    assert_eq!(
        ReadRequestMessage::from_bytes(vec![0x00, 0x01, 0x61, 0x00]),
        Err(ParseError::TooShort)
    );
    assert_eq!(WriteRequestMessage::from_bytes(vec![]), Err(ParseError::TooShort));
}

#[test]
fn data_round_trip() {
    let m = DataMessage::new(258, vec![0xDE, 0xAD, 0xBE, 0xEF]);
    assert_eq!(m.opcode(), 3);
    let bytes = m.to_bytes();
    assert_eq!(bytes, vec![0x00, 0x03, 0x01, 0x02, 0xDE, 0xAD, 0xBE, 0xEF]);
    let back = DataMessage::from_bytes(bytes).unwrap();
    assert_eq!(back, m);
    assert_eq!(back.block_num(), 258);
    assert_eq!(back.data(), vec![0xDE, 0xAD, 0xBE, 0xEF]);
}

#[test]
fn data_length_boundaries() {
    // 4 bytes: too short, even with a valid header.
    assert_eq!(
        DataMessage::from_bytes(vec![0x00, 0x03, 0x00, 0x01]),
        Err(ParseError::TooShort)
    );
    // 5 bytes: the smallest accepted buffer, one payload byte.
    let m = DataMessage::from_bytes(vec![0x00, 0x03, 0x00, 0x01, 0x7F]).unwrap();
    assert_eq!(m.block_num(), 1);
    assert_eq!(m.data(), vec![0x7F]);
    // 516 bytes: the largest accepted buffer, a full 512-byte block.
    let mut full = vec![0x00, 0x03, 0x00, 0x02];
    full.extend_from_slice(&[0xAA; 512]);
    let m = DataMessage::from_bytes(full).unwrap();
    assert_eq!(m.data().len(), 512);
    // 517 bytes: too long.
    let mut over = vec![0x00, 0x03, 0x00, 0x02];
    over.extend_from_slice(&[0xAA; 513]);
    assert_eq!(DataMessage::from_bytes(over), Err(ParseError::TooLong));
}

#[test]
fn data_with_empty_payload_encodes_to_header_only() {
    let m = DataMessage::new(7, vec![]);
    let bytes = m.to_bytes();
    assert_eq!(bytes, vec![0x00, 0x03, 0x00, 0x07]);
    // The 4-byte wire form is below the decoder's minimum length.
    assert_eq!(DataMessage::from_bytes(bytes), Err(ParseError::TooShort));
}

#[test]
fn acknowledgement_concrete_wire_form() {
    let m = AcknowledgementMessage::new(5);
    assert_eq!(m.opcode(), 4);
    let bytes = m.to_bytes();
    assert_eq!(bytes, vec![0x00, 0x04, 0x00, 0x05]);
    let back = AcknowledgementMessage::from_bytes(bytes).unwrap();
    assert_eq!(back, m);
    assert_eq!(back.block_num(), 5);
}

#[test]
fn acknowledgement_length_boundaries() {
    assert_eq!(
        AcknowledgementMessage::from_bytes(vec![0x00, 0x04, 0x00]),
        Err(ParseError::TooShort)
    );
    assert_eq!(
        AcknowledgementMessage::from_bytes(vec![0x00, 0x04, 0x00, 0x05, 0xFF]),
        Err(ParseError::TooLong)
    );
    assert_eq!(
        AcknowledgementMessage::from_bytes(vec![0x00, 0x03, 0x00, 0x05]),
        Err(ParseError::InvalidOpcode)
    );
}

#[test]
fn error_round_trip() {
    let m = ErrorMessage::new(2, "Access violation".to_owned());
    assert_eq!(m.opcode(), 5);
    let bytes = m.to_bytes();
    assert_eq!(bytes[0], 0x00);
    assert_eq!(bytes[1], 0x05);
    assert_eq!(bytes[2], 0x00);
    assert_eq!(bytes[3], 0x02);
    assert_eq!(*bytes.last().unwrap(), 0x00);
    let back = ErrorMessage::from_bytes(bytes).unwrap();
    assert_eq!(back, m);
    assert_eq!(back.code(), 2);
    assert_eq!(back.message(), "Access violation");
}

#[test]
fn error_message_variants() {
    // Empty message text right after the code.
    assert_eq!(
        ErrorMessage::from_bytes(vec![0x00, 0x05, 0x00, 0x01, 0x00]),
        Err(ParseError::NoErrorMessage)
    );
    // Message text never terminated.
    assert_eq!(
        ErrorMessage::from_bytes(vec![0x00, 0x05, 0x00, 0x01, 0x61, 0x62]),
        Err(ParseError::InvalidErrorMessage)
    );
    // Below the minimum length.
    assert_eq!(
        ErrorMessage::from_bytes(vec![0x00, 0x05, 0x00, 0x01]),
        Err(ParseError::TooShort)
    );
    // Wrong opcode.
    assert_eq!(
        ErrorMessage::from_bytes(vec![0x00, 0x01, 0x00, 0x01, 0x61, 0x00]),
        Err(ParseError::InvalidOpcode)
    );
}

#[test]
fn error_message_ignores_bytes_after_terminator() {
    let m = ErrorMessage::from_bytes(vec![0x00, 0x05, 0x00, 0x00, 0x78, 0x00, 0x6A]).unwrap();
    assert_eq!(m.code(), 0);
    assert_eq!(m.message(), "x");
}

#[test]
fn parse_error_descriptions() {
    assert_eq!(
        ParseError::TooShort.describe(),
        "Specified message contains too little bytes for its message type"
    );
    assert_eq!(
        ParseError::InvalidErrorCode.describe(),
        "Specified message has an invalid error code"
    );
    assert_eq!(
        ParseError::InvalidOpcode.describe(),
        "Specified message has an invalid opcode (either unknown or mismatched for its message type)"
    );
}
