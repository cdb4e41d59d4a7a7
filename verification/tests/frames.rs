use kwp_me7::kwp2000::constants::{
    AddressMode, CompressionFormat, DiagnosticMode, EncryptionFormat, ReadMode, Service, ServiceId,
    ServiceResponse,
};
use kwp_me7::kwp2000::message::{Message, TransferType};
use kwp_me7::kwp2000::raw_message::{decode_format, RawMessage};
use kwp_me7::kwp2000::security_key_from_seed;
use kwp_me7::Error;

fn wire(message: Message) -> Vec<u8> {
    message.raw().to_bytes()
}

#[test]
fn request_security_seed_frame() {
    assert_eq!(wire(Message::RequestSecuritySeed), vec![0x02, 0x27, 0x01, 0x2A]);
}

#[test]
fn send_security_key_frame() {
    let key = security_key_from_seed([0x49, 0xA1, 0xB4, 0xC3]);
    assert_eq!(key, 0x291B_9344);
    assert_eq!(
        wire(Message::SendSecurityKey(key)),
        vec![0x06, 0x27, 0x02, 0x29, 0x1B, 0x93, 0x44, 0x4A]
    );
}

#[test]
fn frames_without_payload() {
    assert_eq!(wire(Message::StopCommunication), vec![0x01, 0x82, 0x83]);
    assert_eq!(wire(Message::StopDiagnosticSession), vec![0x01, 0x20, 0x21]);
    assert_eq!(wire(Message::RequestData), vec![0x01, 0x36, 0x37]);
}

#[test]
fn start_diagnostic_session_frames() {
    assert_eq!(
        wire(Message::StartDiagnosticSession(DiagnosticMode::Diagnostics, None)),
        vec![0x02, 0x10, 0x89, 0x9B]
    );
    assert_eq!(
        wire(Message::StartDiagnosticSession(DiagnosticMode::Programming, Some(38400))),
        vec![0x03, 0x10, 0x85, 0x50, 0xE8]
    );
}

#[test]
fn dynamic_identifier_frames() {
    assert_eq!(wire(Message::ClearLocalIdentifier(0xF0)), vec![0x03, 0x2C, 0xF0, 0x04, 0x23]);
    assert_eq!(
        wire(Message::DefineLocalIdentifierAddress(0xF0, 2, 0x0038_0DA8)),
        vec![0x08, 0x2C, 0xF0, 0x03, 0x01, 0x02, 0x38, 0x0D, 0xA8, 0x17]
    );
    assert_eq!(
        wire(Message::WriteLocalIdentifier(0xF0, vec![0, 0])),
        vec![0x04, 0x3B, 0xF0, 0x00, 0x00, 0x2F]
    );
    assert_eq!(
        wire(Message::ReadLocalIdentifier(0xF0, ReadMode::Single, 1)),
        vec![0x04, 0x21, 0xF0, 0x01, 0x01, 0x17]
    );
}

#[test]
fn addresses_drop_their_top_byte() {
    let bytes = wire(Message::RequestDataTransfer {
        transfer_type: TransferType::Download,
        address: 0x1280_0000,
        size: 0xFF01_0203,
        encryption: EncryptionFormat::Bosch,
        compression: CompressionFormat::Bosch,
    });
    assert_eq!(bytes, vec![0x08, 0x34, 0x80, 0x00, 0x00, 0x11, 0x01, 0x02, 0x03, 0xD3]);
    let bytes = wire(Message::RequestDataTransfer {
        transfer_type: TransferType::Upload,
        address: 0x0080_0000,
        size: 40,
        encryption: EncryptionFormat::Unencrypted,
        compression: CompressionFormat::Uncompressed,
    });
    assert_eq!(bytes, vec![0x08, 0x35, 0x80, 0x00, 0x00, 0x00, 0x00, 0x00, 0x28, 0xE5]);
}

#[test]
fn read_memory_by_address_frames() {
    let bytes = wire(Message::ReadMemoryByAddress {
        address: 0x0012_3456,
        size: 0x10,
        mode: None,
        max_response_count: None,
    });
    assert_eq!(bytes, vec![0x05, 0x23, 0x12, 0x34, 0x56, 0x10, 0xD4]);
    let bytes = wire(Message::ReadMemoryByAddress {
        address: 0x0012_3456,
        size: 0x10,
        mode: Some(ReadMode::Fast),
        max_response_count: Some(3),
    });
    assert_eq!(bytes, vec![0x07, 0x23, 0x12, 0x34, 0x56, 0x10, 0x04, 0x03, 0xDD]);
}

#[test]
fn timing_and_tester_present_frames() {
    assert_eq!(wire(Message::GetTimingLimits), vec![0x02, 0x83, 0x00, 0x85]);
    assert_eq!(wire(Message::GetDefaultTiming), vec![0x02, 0x83, 0x01, 0x86]);
    assert_eq!(wire(Message::GetCurrentTiming), vec![0x02, 0x83, 0x02, 0x87]);
    assert_eq!(
        wire(Message::ChangeTimingParameters { p2min: 1, p2max: 2, p3min: 3, p3max: 4, p4min: 5 }),
        vec![0x07, 0x83, 0x03, 1, 2, 3, 4, 5, 0x9C]
    );
    assert_eq!(wire(Message::TesterPresent(true)), vec![0x02, 0x3E, 0x01, 0x41]);
    assert_eq!(wire(Message::TesterPresent(false)), vec![0x02, 0x3E, 0x02, 0x42]);
}

#[test]
fn long_frame_has_a_length_byte() {
    let bytes = wire(Message::SendData(vec![7; 100]));
    assert_eq!(bytes.len(), 104);
    assert_eq!(&bytes[..3], &[0x00, 101, 0x36]);
    assert_eq!(bytes[103], ((101 + 0x36 + 700) % 256) as u8);
    // 62 payload bytes still fit the format byte, 63 do not
    let bytes = wire(Message::SendData(vec![0; 62]));
    assert_eq!(&bytes[..2], &[63, 0x36]);
    assert_eq!(bytes.len(), 65);
    let bytes = wire(Message::SendData(vec![0; 63]));
    assert_eq!(&bytes[..3], &[0, 64, 0x36]);
    assert_eq!(bytes.len(), 67);
}

#[test]
fn largest_frame() {
    let bytes = wire(Message::SendData(vec![1; 254]));
    assert_eq!(bytes.len(), 258);
    assert_eq!(&bytes[..3], &[0x00, 0xFF, 0x36]);
    let (message, taken) = RawMessage::from_bytes(&bytes).unwrap();
    assert_eq!(taken, 258);
    assert_eq!(message.data, vec![1; 254]);
}

#[test]
fn addressed_frame() {
    let message = RawMessage::new_query(
        AddressMode::Physical,
        Some(0x10),
        Some(0xF1),
        ServiceId::TesterPresent,
        vec![0x01],
    );
    let bytes = message.clone().to_bytes();
    assert_eq!(bytes, vec![0x82, 0x10, 0xF1, 0x3E, 0x01, 0xC2]);
    assert_eq!(RawMessage::from_bytes(&bytes), Ok((message, 6)));
}

#[test]
fn simple_query_is_unaddressed() {
    let message = RawMessage::new_simple_query(ServiceId::SecurityAccess, vec![0x01]);
    assert_eq!(message.mode, AddressMode::NoAddress);
    assert_eq!(message.target, None);
    assert_eq!(message.source, None);
    assert_eq!(message.service, Service::Query(ServiceId::SecurityAccess));
    assert_eq!(message.data, vec![0x01]);
}

#[test]
fn format_byte_is_split() {
    assert_eq!(decode_format(0x02), (AddressMode::NoAddress, Some(2)));
    assert_eq!(decode_format(0x00), (AddressMode::NoAddress, None));
    assert_eq!(decode_format(0x7F), (AddressMode::Carb, Some(63)));
    assert_eq!(decode_format(0x80), (AddressMode::Physical, None));
    assert_eq!(decode_format(0xC1), (AddressMode::Functional, Some(1)));
}

#[test]
fn every_message_decodes_to_its_frame() {
    let messages = vec![
        Message::StartDiagnosticSession(DiagnosticMode::Programming, Some(10400)),
        Message::StopCommunication,
        Message::RequestSecuritySeed,
        Message::ClearLocalIdentifier(0xF0),
        Message::ReadLocalIdentifier(1, ReadMode::Slow, 2),
        Message::WriteLocalIdentifier(3, vec![4, 5, 6]),
        Message::DefineLocalIdentifierAddress(0xF0, 2, 0x380DA8),
        Message::SendSecurityKey(0xDEAD_BEEF),
        Message::TesterPresent(true),
        Message::StopDiagnosticSession,
        Message::RequestData,
        Message::SendData(vec![0xAB; 200]),
        Message::GetCurrentTiming,
        Message::GetDefaultTiming,
        Message::GetTimingLimits,
        Message::ChangeTimingParameters { p2min: 9, p2max: 8, p3min: 7, p3max: 6, p4min: 5 },
    ];
    for message in messages {
        let frame = message.raw();
        let bytes = frame.clone().to_bytes();
        let (decoded, taken) = RawMessage::from_bytes(&bytes).unwrap();
        assert_eq!(taken, bytes.len());
        assert_eq!(decoded, frame);
        assert_eq!(decoded.to_bytes(), bytes);
    }
}

#[test]
fn response_frame_round_trip() {
    let bytes = vec![0x03, 0x7F, 0x27, 0x36, 0xDF];
    let (message, taken) = RawMessage::from_bytes(&bytes).unwrap();
    assert_eq!(taken, 5);
    assert_eq!(message.service, Service::Response(ServiceResponse::NegativeResponse));
    assert_eq!(message.data, vec![0x27, 0x36]);
    assert_eq!(message.to_bytes(), bytes);
}

#[test]
fn decoding_stops_at_the_end_of_the_frame() {
    let bytes = vec![0x02, 0x27, 0x01, 0x2A, 0xFF, 0xFF, 0x00];
    let (message, taken) = RawMessage::from_bytes(&bytes).unwrap();
    assert_eq!(taken, 4);
    assert_eq!(message, Message::RequestSecuritySeed.raw());
}

#[test]
fn wrong_checksum_is_refused() {
    assert_eq!(RawMessage::from_bytes(&[0x02, 0x27, 0x01, 0x2B]), Err(Error::InvalidChecksum));
    // whatever follows the frame
    assert_eq!(
        RawMessage::from_bytes(&[0x02, 0x27, 0x01, 0x00, 0x2A, 0x2A]),
        Err(Error::InvalidChecksum)
    );
    assert_eq!(
        RawMessage::from_bytes(&[0x82, 0x10, 0xF1, 0x3E, 0x01, 0xC3]),
        Err(Error::InvalidChecksum)
    );
}

#[test]
fn unknown_service_is_refused() {
    assert_eq!(RawMessage::from_bytes(&[0x02, 0x00, 0x01, 0x03]), Err(Error::InvalidService));
    // before anything is said of a payload that is cut short
    assert_eq!(RawMessage::from_bytes(&[0x05, 0x15]), Err(Error::InvalidService));
}

#[test]
fn cut_frames_are_refused() {
    assert_eq!(RawMessage::from_bytes(&[]), Err(Error::NotEnoughData));
    assert_eq!(RawMessage::from_bytes(&[0x02]), Err(Error::NotEnoughData));
    assert_eq!(RawMessage::from_bytes(&[0x02, 0x27]), Err(Error::NotEnoughData));
    assert_eq!(RawMessage::from_bytes(&[0x02, 0x27, 0x01]), Err(Error::NotEnoughData));
    assert_eq!(RawMessage::from_bytes(&[0x82, 0x10]), Err(Error::NotEnoughData));
    assert_eq!(RawMessage::from_bytes(&[0x00]), Err(Error::NotEnoughData));
    assert_eq!(RawMessage::from_bytes(&[0x00, 0x40, 0x36, 0x00]), Err(Error::NotEnoughData));
}

#[test]
fn length_byte_below_64_decodes_but_is_not_what_the_encoder_writes() {
    let bytes = vec![0x00, 0x02, 0x27, 0x01, 0x2A];
    let (message, taken) = RawMessage::from_bytes(&bytes).unwrap();
    assert_eq!(taken, 5);
    assert_eq!(message, Message::RequestSecuritySeed.raw());
    assert_eq!(message.to_bytes(), vec![0x02, 0x27, 0x01, 0x2A]);
    // a stated length of zero still holds the service byte
    let (message, taken) = RawMessage::from_bytes(&[0x00, 0x00, 0x82, 0x82]).unwrap();
    assert_eq!(taken, 4);
    assert_eq!(message, Message::StopCommunication.raw());
}

#[test]
fn bytes_needed_follows_the_header() {
    assert_eq!(RawMessage::bytes_needed(&[]), 1);
    assert_eq!(RawMessage::bytes_needed(&[0x02]), 4);
    assert_eq!(RawMessage::bytes_needed(&[0x02, 0x27, 0x01, 0x2A]), 4);
    assert_eq!(RawMessage::bytes_needed(&[0x82]), 6);
    assert_eq!(RawMessage::bytes_needed(&[0x00]), 2);
    assert_eq!(RawMessage::bytes_needed(&[0x00, 0x65]), 104);
    assert_eq!(RawMessage::bytes_needed(&[0x80]), 4);
    assert_eq!(RawMessage::bytes_needed(&[0x80, 0x10, 0xF1, 0x40]), 69);
    assert_eq!(RawMessage::bytes_needed(&[0x00, 0x00]), 4);
}

#[test]
fn what_fits_a_frame() {
    assert!(Message::SendData(vec![0; 254]).is_encodable());
    assert!(!Message::SendData(vec![0; 255]).is_encodable());
    assert!(Message::WriteLocalIdentifier(1, vec![0; 253]).is_encodable());
    assert!(!Message::WriteLocalIdentifier(1, vec![0; 254]).is_encodable());
    assert!(Message::StartDiagnosticSession(DiagnosticMode::OBD, Some(6400)).is_encodable());
    assert!(!Message::StartDiagnosticSession(DiagnosticMode::OBD, Some(6399)).is_encodable());
    assert!(Message::StartDiagnosticSession(DiagnosticMode::OBD, None).is_encodable());
    assert!(Message::RequestData.is_encodable());
}

#[test]
fn what_can_go_on_the_wire() {
    let mut message = Message::RequestData.raw();
    assert!(message.is_well_formed());
    message.target = Some(1);
    assert!(!message.is_well_formed());
    message.mode = AddressMode::Functional;
    assert!(!message.is_well_formed());
    message.source = Some(2);
    assert!(message.is_well_formed());
    message.data = vec![0; 255];
    assert!(!message.is_well_formed());
}
