use kwp_me7::kwp2000::constants::{
    data_format_byte, AddressMode, CompressionFormat, DiagnosticMode, DynamicDefinitionMode,
    EncryptionFormat, ReadMode, SecurityLevel, Service, ServiceError, ServiceId, ServiceResponse,
    TimingParameter,
};
use kwp_me7::kwp2000::{baud_rate_from_byte, baud_rate_to_byte, security_key_from_seed};
use kwp_me7::Error;

#[test]
fn zero_seed_gives_zero_key() {
    assert_eq!(security_key_from_seed([0x00, 0x00, 0x00, 0x00]), 0);
}

#[test]
fn key_of_the_fixture_seed() {
    assert_eq!(security_key_from_seed([0x12, 0x34, 0x56, 0x78]), 0xF9F0_7478);
}

#[test]
fn key_rounds_fold_the_constant_in() {
    assert_eq!(security_key_from_seed([0x49, 0xA1, 0xB4, 0xC3]), 0x291B_9344);
    assert_eq!(security_key_from_seed([0xFF, 0xFF, 0xFF, 0xFF]), 0xF9C0_C9C0);
}

#[test]
fn baud_rates_of_the_protocol_round_trip() {
    assert_eq!(baud_rate_to_byte(10400), 0x14);
    assert_eq!(baud_rate_from_byte(0x14), 10400);
    assert_eq!(baud_rate_to_byte(38400), 0x50);
    assert_eq!(baud_rate_from_byte(0x50), 38400);
    assert_eq!(baud_rate_from_byte(baud_rate_to_byte(9600)), 9600);
    assert_eq!(baud_rate_from_byte(baud_rate_to_byte(124800)), 124800);
}

#[test]
fn baud_rate_is_rounded_down_to_the_grid() {
    // a step of the grid is 200 baud times two to the exponent
    assert_eq!(baud_rate_to_byte(1_000_000), 0xE7);
    assert_eq!(baud_rate_from_byte(0xE7), 998_400);
    assert_eq!(baud_rate_to_byte(10_599), 0x14);
}

#[test]
fn baud_rate_that_fits_no_exponent() {
    // 64 units lie on the edge between two exponents
    assert_eq!(baud_rate_to_byte(12_800), 0x00);
    assert_eq!(baud_rate_to_byte(6_400), 0x00);
    assert_eq!(baud_rate_to_byte(2_000_000), 0x10);
}

#[test]
fn every_baud_byte_decodes() {
    assert_eq!(baud_rate_from_byte(0x00), 6_400);
    assert_eq!(baud_rate_from_byte(0xFF), 128 * 63 * 200);
    for byte in 0..=255u8 {
        if byte % 32 != 0 {
            assert_eq!(baud_rate_to_byte(baud_rate_from_byte(byte)), byte);
        }
    }
}

#[test]
fn data_format_byte_packs_both_formats() {
    assert_eq!(data_format_byte(CompressionFormat::Uncompressed, EncryptionFormat::Unencrypted), 0x00);
    assert_eq!(data_format_byte(CompressionFormat::Bosch, EncryptionFormat::Bosch), 0x11);
    assert_eq!(data_format_byte(CompressionFormat::Hitachi, EncryptionFormat::Marelli), 0x23);
    assert_eq!(data_format_byte(CompressionFormat::Marelli, EncryptionFormat::Hitachi), 0x32);
    assert_eq!(data_format_byte(CompressionFormat::Lucas, EncryptionFormat::Lucas), 0x44);
}

#[test]
fn codes_of_the_small_enumerations() {
    assert_eq!(DynamicDefinitionMode::DefineByLocalIdentifier.byte(), 0x01);
    assert_eq!(DynamicDefinitionMode::DefineByCommonIdentifier.byte(), 0x02);
    assert_eq!(DynamicDefinitionMode::DefineByMemoryAddress.byte(), 0x03);
    assert_eq!(DynamicDefinitionMode::ClearDynamicallyDefinedLocalIdentifier.byte(), 0x04);
    assert_eq!(ReadMode::Single.byte(), 0x01);
    assert_eq!(ReadMode::Stop.byte(), 0x05);
    assert_eq!(AddressMode::NoAddress.byte(), 0x00);
    assert_eq!(AddressMode::Carb.byte(), 0x40);
    assert_eq!(AddressMode::Physical.byte(), 0x80);
    assert_eq!(AddressMode::Functional.byte(), 0xC0);
    assert_eq!(TimingParameter::from_repr(0), Some(TimingParameter::Limits));
    assert_eq!(TimingParameter::from_repr(3), Some(TimingParameter::SetParameters));
    assert_eq!(TimingParameter::from_repr(4), None);
}

#[test]
fn diagnostic_modes_and_security_levels() {
    assert_eq!(DiagnosticMode::from_repr(0x81), Some(DiagnosticMode::OBD));
    assert_eq!(DiagnosticMode::from_repr(0x85), Some(DiagnosticMode::Programming));
    assert_eq!(DiagnosticMode::from_repr(0x86), Some(DiagnosticMode::Developer));
    assert_eq!(DiagnosticMode::from_repr(0x89), Some(DiagnosticMode::Diagnostics));
    assert_eq!(DiagnosticMode::from_repr(0x82), None);
    assert_eq!(DiagnosticMode::EndOfLineVW.byte(), 0x83);
    assert_eq!(DiagnosticMode::EndOfLineBosch.byte(), 0x84);
    assert_eq!(SecurityLevel::from_repr(0x01), Some(SecurityLevel::Seed1));
    assert_eq!(SecurityLevel::from_repr(0x02), Some(SecurityLevel::Key1));
    assert_eq!(SecurityLevel::from_repr(0x08), Some(SecurityLevel::Key4));
    assert_eq!(SecurityLevel::from_repr(0x09), None);
    assert_eq!(SecurityLevel::from_repr(0x00), None);
    assert!(SecurityLevel::Seed1 < SecurityLevel::Key1);
    assert!(SecurityLevel::Key1 < SecurityLevel::Seed2);
}

#[test]
fn every_byte_decodes_to_what_encodes_to_it() {
    let mut requests = 0;
    let mut responses = 0;
    let mut errors = 0;
    for byte in 0..=255u8 {
        if let Some(id) = ServiceId::from_repr(byte) {
            assert_eq!(id.byte(), byte);
            assert_eq!(Service::try_from_byte(byte), Ok(Service::Query(id)));
            assert_eq!(ServiceResponse::from_repr(byte), None);
            requests += 1;
        } else if let Some(response) = ServiceResponse::from_repr(byte) {
            assert_eq!(response.byte(), byte);
            assert_eq!(Service::try_from_byte(byte), Ok(Service::Response(response)));
            responses += 1;
        } else {
            assert_eq!(Service::try_from_byte(byte), Err(Error::InvalidService));
        }
        if let Some(error) = ServiceError::from_repr(byte) {
            assert_eq!(error.byte(), byte);
            errors += 1;
        }
    }
    assert_eq!(requests, 45);
    assert_eq!(responses, 46);
    assert_eq!(errors, 30);
}

#[test]
fn a_response_is_its_request_plus_0x40() {
    assert_eq!(ServiceId::SecurityAccess.byte(), 0x27);
    assert_eq!(ServiceResponse::SecurityAccess.byte(), 0x67);
    assert_eq!(ServiceId::AccessTimingParameter.byte(), 0x83);
    assert_eq!(ServiceResponse::AccessTimingParameter.byte(), 0xC3);
    assert_eq!(ServiceResponse::NegativeResponse.byte(), 0x7F);
    assert_eq!(ServiceResponse::Reserved.byte(), 0xFF);
    assert_eq!(Service::Query(ServiceId::TransferData).byte(), 0x36);
    assert_eq!(Service::Response(ServiceResponse::TransferData).byte(), 0x76);
}

#[test]
fn error_codes() {
    assert_eq!(ServiceError::from_repr(0x36), Some(ServiceError::TooManyAttempts));
    assert_eq!(ServiceError::from_repr(0x37), Some(ServiceError::RequestingTooFast));
    assert_eq!(ServiceError::from_repr(0x78), Some(ServiceError::ResponsePending));
    assert_eq!(ServiceError::from_repr(0x23), Some(ServiceError::RoutineNotComplete));
    assert_eq!(ServiceError::from_repr(0x00), None);
    assert_eq!(ServiceError::GeneralReject.byte(), 0x10);
    assert_eq!(ServiceError::ScalingNotSupported.byte(), 0x91);
}
