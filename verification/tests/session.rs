use kwp_me7::kwp2000::client::{Action, Client, Purpose, Resume, Security, SessionMode, Task};
use kwp_me7::kwp2000::constants::{
    CompressionFormat, DiagnosticMode, EncryptionFormat, ReadMode, SecurityLevel, ServiceError,
    ServiceId, TimingParameter,
};
use kwp_me7::kwp2000::message::{Message, TransferType};
use kwp_me7::kwp2000::response::{ProcessError, Response};
use kwp_me7::{Error, MemoryLayout, KEY};

fn done() -> Action {
    Action::Done(vec![])
}

fn lockout(error: ServiceError) -> Response {
    Response::Error(ProcessError { error, service: ServiceId::SecurityAccess })
}

fn in_mode(mode: DiagnosticMode) -> Client {
    let mut client = Client::new();
    assert_eq!(
        client.switch_mode(mode, None),
        Action::Send(Message::StartDiagnosticSession(mode, None))
    );
    assert_eq!(client.respond(Response::StartedDiagnosticMode(mode, None)), done());
    client
}

fn unlocked(mode: DiagnosticMode) -> Client {
    let mut client = in_mode(mode);
    assert_eq!(client.get_security_access(), Action::Send(Message::RequestSecuritySeed));
    assert_eq!(
        client.respond(Response::SecurityAccessSeed(SecurityLevel::Seed1, vec![0x49, 0xA1, 0xB4, 0xC3])),
        Action::Send(Message::SendSecurityKey(0x291B_9344))
    );
    assert_eq!(client.respond(Response::SecurityAccessGranted(SecurityLevel::Key1)), done());
    assert_eq!(client.security(), Security::Granted(SecurityLevel::Key1));
    client
}

#[test]
fn new_session() {
    let client = Client::new();
    assert_eq!(client.mode(), SessionMode::Unknown);
    assert_eq!(client.security(), Security::Locked);
    assert_eq!(client.task(), Task::Idle);
}

#[test]
fn diagnostic_mode_is_entered() {
    let mut client = Client::new();
    assert_eq!(
        client.diagnostic_mode(),
        Action::Send(Message::StartDiagnosticSession(DiagnosticMode::Diagnostics, None))
    );
    assert_eq!(client.task(), Task::ModeRequested(DiagnosticMode::Diagnostics));
    assert_eq!(
        client.respond(Response::StartedDiagnosticMode(DiagnosticMode::Diagnostics, None)),
        done()
    );
    assert_eq!(client.mode(), SessionMode::Active(DiagnosticMode::Diagnostics));
    assert_eq!(client.task(), Task::Idle);
}

#[test]
fn programming_mode_switches_the_line_speed() {
    let mut client = Client::new();
    assert_eq!(
        client.programming_mode(Some(38400)),
        Action::Send(Message::StartDiagnosticSession(DiagnosticMode::Programming, Some(38400)))
    );
    assert_eq!(
        client.respond(Response::StartedDiagnosticMode(DiagnosticMode::Programming, Some(38400))),
        Action::SwitchBaud(38400)
    );
    assert_eq!(client.mode(), SessionMode::Active(DiagnosticMode::Programming));
    assert_eq!(client.task(), Task::BaudSwitching { matched: true });
    assert_eq!(client.baud_switched(), done());
    assert_eq!(client.task(), Task::Idle);
}

#[test]
fn developer_mode_asks_for_the_developer_mode() {
    let mut client = Client::new();
    assert_eq!(
        client.developer_mode(None),
        Action::Send(Message::StartDiagnosticSession(DiagnosticMode::Developer, None))
    );
}

#[test]
fn another_mode_than_asked_for_is_an_error() {
    let mut client = Client::new();
    client.programming_mode(None);
    assert_eq!(
        client.respond(Response::StartedDiagnosticMode(DiagnosticMode::Diagnostics, None)),
        Action::Fail(Error::UnexpectedMode)
    );
    assert_eq!(client.mode(), SessionMode::Active(DiagnosticMode::Diagnostics));
    // the line speed is changed all the same
    let mut client = Client::new();
    client.programming_mode(Some(10400));
    assert_eq!(
        client.respond(Response::StartedDiagnosticMode(DiagnosticMode::OBD, Some(9600))),
        Action::SwitchBaud(9600)
    );
    assert_eq!(client.baud_switched(), Action::Fail(Error::UnexpectedMode));
    assert_eq!(client.mode(), SessionMode::Active(DiagnosticMode::OBD));
    assert_eq!(client.task(), Task::Idle);
}

#[test]
fn a_change_of_mode_drops_security_access() {
    let mut client = unlocked(DiagnosticMode::Diagnostics);
    client.programming_mode(None);
    assert_eq!(client.security(), Security::Granted(SecurityLevel::Key1));
    assert_eq!(
        client.respond(Response::StartedDiagnosticMode(DiagnosticMode::Programming, None)),
        done()
    );
    assert_eq!(client.security(), Security::Locked);
}

#[test]
fn security_access_with_a_seed() {
    let client = unlocked(DiagnosticMode::Programming);
    assert_eq!(client.task(), Task::Idle);
}

#[test]
fn security_access_granted_at_once() {
    let mut client = Client::new();
    client.get_security_access();
    assert_eq!(client.respond(Response::SecurityAccessGranted(SecurityLevel::Seed1)), done());
    assert_eq!(client.security(), Security::Granted(SecurityLevel::Seed1));
}

#[test]
fn a_seed_of_another_length_is_refused() {
    let mut client = Client::new();
    client.get_security_access();
    let seed = Response::SecurityAccessSeed(SecurityLevel::Seed1, vec![1, 2, 3]);
    assert_eq!(client.respond(seed.clone()), Action::Fail(Error::UnexpectedResponse(seed)));
    assert_eq!(client.task(), Task::Idle);
}

#[test]
fn lockout_without_bypass_is_an_error() {
    let mut client = Client::new();
    client.get_security_access();
    client.respond(Response::SecurityAccessSeed(SecurityLevel::Seed1, vec![1, 2, 3, 4]));
    assert_eq!(
        client.respond(lockout(ServiceError::TooManyAttempts)),
        Action::Fail(Error::SecurityTimout)
    );
    assert_eq!(client.security(), Security::Locked);
    client.get_security_access();
    assert_eq!(
        client.respond(lockout(ServiceError::RequestingTooFast)),
        Action::Fail(Error::SecurityTimout)
    );
    // another error is not a lockout
    client.get_security_access();
    let invalid = lockout(ServiceError::InvalidKey);
    assert_eq!(client.respond(invalid.clone()), Action::Fail(Error::UnexpectedResponse(invalid)));
}

#[test]
fn lockout_bypass() {
    let mut client = Client::new();
    let mut frames = Vec::new();
    let mut action = client.security_access_timeout_bypass();
    let responses = vec![
        Response::SecurityAccessSeed(SecurityLevel::Seed1, vec![0x49, 0xA1, 0xB4, 0xC3]),
        lockout(ServiceError::TooManyAttempts),
        Response::LocalIdentifierDefined(0xF0),
        Response::LocalIdentifierDefined(0xF0),
        Response::LocalIdentifierWritten(0xF0),
        Response::SecurityAccessSeed(SecurityLevel::Seed1, vec![0x12, 0x34, 0x56, 0x78]),
        Response::SecurityAccessGranted(SecurityLevel::Key1),
    ];
    for response in responses {
        match action {
            Action::Send(message) => frames.push(message.raw().to_bytes()),
            other => panic!("nothing to send: {:?}", other),
        }
        action = client.respond(response);
    }
    assert_eq!(action, done());
    assert_eq!(client.security(), Security::Granted(SecurityLevel::Key1));
    assert_eq!(
        frames,
        vec![
            vec![0x02, 0x27, 0x01, 0x2A],
            vec![0x06, 0x27, 0x02, 0x29, 0x1B, 0x93, 0x44, 0x4A],
            // clear, define and write the counter of failed accesses
            vec![0x03, 0x2C, 0xF0, 0x04, 0x23],
            vec![0x08, 0x2C, 0xF0, 0x03, 0x01, 0x02, 0x38, 0x0D, 0xA8, 0x17],
            vec![0x04, 0x3B, 0xF0, 0x00, 0x00, 0x2F],
            // and ask again
            vec![0x02, 0x27, 0x01, 0x2A],
            vec![0x06, 0x27, 0x02, 0xF9, 0xF0, 0x74, 0x78, 0x04],
        ]
    );
}

#[test]
fn lockout_is_bypassed_once() {
    let mut client = Client::new();
    client.security_access_timeout_bypass();
    assert_eq!(
        client.respond(lockout(ServiceError::RequestingTooFast)),
        Action::Send(Message::ClearLocalIdentifier(0xF0))
    );
    assert_eq!(
        client.task(),
        Task::Clearing {
            address: 0x0038_0DA8,
            length: 2,
            purpose: Purpose::Write(Resume::RetrySecurity),
        }
    );
    client.respond(Response::LocalIdentifierDefined(0xF0));
    client.respond(Response::LocalIdentifierDefined(0xF0));
    assert_eq!(
        client.respond(Response::LocalIdentifierWritten(0xF0)),
        Action::Send(Message::RequestSecuritySeed)
    );
    assert_eq!(client.task(), Task::SeedRequested { bypass: false });
    assert_eq!(
        client.respond(lockout(ServiceError::RequestingTooFast)),
        Action::Fail(Error::SecurityTimout)
    );
}

#[test]
fn clear_security_wait_writes_two_zeros() {
    let mut client = Client::new();
    assert_eq!(client.clear_security_wait(), Action::Send(Message::ClearLocalIdentifier(0xF0)));
    assert_eq!(
        client.respond(Response::LocalIdentifierDefined(0xF0)),
        Action::Send(Message::DefineLocalIdentifierAddress(0xF0, 2, 0x0038_0DA8))
    );
    assert_eq!(
        client.respond(Response::LocalIdentifierDefined(0xF0)),
        Action::Send(Message::WriteLocalIdentifier(0xF0, vec![0, 0]))
    );
    assert_eq!(client.respond(Response::LocalIdentifierWritten(0xF0)), done());
    assert_eq!(client.task(), Task::Idle);
}

#[test]
fn write_through_the_scratch_identifier() {
    let mut client = Client::new();
    assert_eq!(
        client.dd_write_address(0x0012_3456, vec![1, 2, 3]),
        Action::Send(Message::ClearLocalIdentifier(0xF0))
    );
    assert_eq!(
        client.respond(Response::LocalIdentifierDefined(0xF0)),
        Action::Send(Message::DefineLocalIdentifierAddress(0xF0, 3, 0x0012_3456))
    );
    assert_eq!(
        client.respond(Response::LocalIdentifierDefined(0xF0)),
        Action::Send(Message::WriteLocalIdentifier(0xF0, vec![1, 2, 3]))
    );
    // the confirmation of another identifier is not the one waited for
    let other = Response::LocalIdentifierWritten(0xF1);
    assert_eq!(client.respond(other.clone()), Action::Fail(Error::UnexpectedResponse(other)));
    assert_eq!(client.task(), Task::Idle);
}

#[test]
fn read_through_the_scratch_identifier() {
    let mut client = Client::new();
    assert_eq!(
        client.dd_read_address(0x0038_0000, 0x50),
        Action::Send(Message::ClearLocalIdentifier(0xF0))
    );
    assert_eq!(
        client.respond(Response::LocalIdentifierDefined(0xF0)),
        Action::Send(Message::DefineLocalIdentifierAddress(0xF0, 0x50, 0x0038_0000))
    );
    assert_eq!(
        client.respond(Response::LocalIdentifierDefined(0xF0)),
        Action::Send(Message::ReadLocalIdentifier(0xF0, ReadMode::Single, 1))
    );
    assert_eq!(
        client.respond(Response::LocalIdentifierRead(0xF0, vec![9, 8, 7])),
        Action::Done(vec![9, 8, 7])
    );
    assert_eq!(client.task(), Task::Idle);
}

#[test]
fn upload_of_forty_bytes() {
    let mut client = unlocked(DiagnosticMode::Diagnostics);
    let mut requests = 0;
    let mut action = client.read_data(0x0080_0000, 40);
    assert_eq!(
        action,
        Action::Send(Message::RequestDataTransfer {
            transfer_type: TransferType::Upload,
            address: 0x0080_0000,
            size: 40,
            encryption: EncryptionFormat::Unencrypted,
            compression: CompressionFormat::Uncompressed,
        })
    );
    let responses = vec![
        Response::UploadConfirmation(16),
        Response::DataTransfer((0..16).collect()),
        Response::DataTransfer((16..32).collect()),
        Response::DataTransfer((32..40).collect()),
        Response::ReadyForMoreData,
    ];
    for response in responses {
        action = client.respond(response);
        if action == Action::Send(Message::RequestData) {
            requests += 1;
        }
    }
    assert_eq!(requests, 4);
    assert_eq!(action, Action::Done((0..40).collect()));
    assert_eq!(client.task(), Task::Idle);
}

#[test]
fn upload_ends_with_an_empty_block() {
    let mut client = unlocked(DiagnosticMode::Diagnostics);
    client.read_data(0, 2);
    client.respond(Response::UploadConfirmation(16));
    client.respond(Response::DataTransfer(vec![1, 2]));
    assert_eq!(client.respond(Response::DataTransfer(vec![])), Action::Done(vec![1, 2]));
    // what is not a block ends it with an error
    client.read_data(0, 2);
    client.respond(Response::UploadConfirmation(16));
    assert_eq!(
        client.respond(Response::TesterPresent),
        Action::Fail(Error::UnexpectedResponse(Response::TesterPresent))
    );
}

#[test]
fn upload_needs_security_access() {
    let mut client = in_mode(DiagnosticMode::Diagnostics);
    assert_eq!(client.read_data(0, 1), Action::Fail(Error::UnexpectedState));
    assert_eq!(client.task(), Task::Idle);
}

#[test]
fn download_of_six_hundred_equal_bytes() {
    let mut client = unlocked(DiagnosticMode::Programming);
    assert_eq!(
        client.write_data_bosch(0x0080_0000, vec![0xAA; 600], KEY.to_vec()),
        Action::Send(Message::RequestDataTransfer {
            transfer_type: TransferType::Download,
            address: 0x0080_0000,
            size: 600,
            encryption: EncryptionFormat::Bosch,
            compression: CompressionFormat::Bosch,
        })
    );
    assert_eq!(client.task(), Task::DownloadRequested);
    assert_eq!(
        client.respond(Response::DownloadConfirmation(128)),
        Action::Send(Message::SendData(vec![0x5D, 0x44, 0x0A, 0x1D, 0xE3]))
    );
    assert_eq!(client.task(), Task::Downloading);
    // the control unit is still writing
    let busy = Response::Error(ProcessError {
        error: ServiceError::RoutineNotComplete,
        service: ServiceId::RequestDownload,
    });
    assert_eq!(client.respond(busy.clone()), Action::Wait);
    assert_eq!(client.respond(busy), Action::Wait);
    assert_eq!(client.respond(Response::ReadyForMoreData), done());
    assert_eq!(client.task(), Task::Idle);
}

#[test]
fn download_in_several_blocks() {
    let data: Vec<u8> = (0..=255u8).cycle().take(1000).collect();
    let mut client = unlocked(DiagnosticMode::Programming);
    client.write_data_bosch(0x0080_0000, data.clone(), KEY.to_vec());
    let mut action = client.respond(Response::DownloadConfirmation(0xFF));
    let mut received = Vec::new();
    let mut key_index = 0;
    let mut blocks = 0;
    while let Action::Send(Message::SendData(mut block)) = action {
        // a block fits a frame
        assert!(block.len() <= 254);
        kwp_me7::bcb::encrypt_data(&KEY, &mut block, &mut key_index);
        let packed = if blocks == 0 { block.split_off(2) } else { block };
        received.extend(kwp_me7::bcb::expand_bcb_data(&packed).unwrap());
        blocks += 1;
        action = client.respond(Response::ReadyForMoreData);
    }
    assert_eq!(action, done());
    assert_eq!(blocks, 4);
    assert_eq!(received, data);
}

#[test]
fn download_ends_with_silence_after_the_last_block() {
    let mut client = unlocked(DiagnosticMode::Programming);
    client.write_data_bosch(0, vec![1, 2, 3, 4], vec![0x55]);
    assert_eq!(
        client.respond(Response::DownloadConfirmation(64)),
        Action::Send(Message::SendData(vec![0x1A ^ 0x55, 0x01 ^ 0x55, 0x55, 0x04 ^ 0x55, 1 ^ 0x55, 2 ^ 0x55, 3 ^ 0x55, 4 ^ 0x55]))
    );
    assert!(client.timed_out());
    assert_eq!(client.task(), Task::Idle);
    // silence at any other time is a failure
    client.write_data_bosch(0, vec![1, 2, 3, 4], vec![0x55]);
    assert!(!client.timed_out());
    assert_eq!(client.task(), Task::Idle);
    client.write_data_bosch(0, (0..100).collect(), vec![0x55]);
    client.respond(Response::DownloadConfirmation(8));
    assert_eq!(client.task(), Task::Downloading);
    assert!(!client.timed_out());
    assert!(!client.timed_out());
}

#[test]
fn download_of_nothing_is_done_at_once() {
    let mut client = unlocked(DiagnosticMode::Programming);
    client.write_data_bosch(0, vec![], KEY.to_vec());
    assert_eq!(client.respond(Response::DownloadConfirmation(0)), done());
}

#[test]
fn download_in_blocks_too_small_fails() {
    let mut client = unlocked(DiagnosticMode::Programming);
    client.write_data_bosch(0, vec![1, 2], KEY.to_vec());
    assert_eq!(
        client.respond(Response::DownloadConfirmation(4)),
        Action::Fail(Error::UnexpectedValue)
    );
    assert_eq!(client.task(), Task::Idle);
}

#[test]
fn download_of_a_last_single_byte_fails() {
    let mut client = unlocked(DiagnosticMode::Programming);
    client.write_data_bosch(0, vec![1, 2, 3], vec![0]);
    assert_eq!(
        client.respond(Response::DownloadConfirmation(100)),
        Action::Send(Message::SendData(vec![0x1A, 0x01, 0x00, 0x02, 1, 2]))
    );
    assert_eq!(client.respond(Response::ReadyForMoreData), Action::Fail(Error::UnalignedData));
    assert_eq!(client.task(), Task::Idle);
}

#[test]
fn download_needs_programming_mode_and_security_access() {
    let mut client = unlocked(DiagnosticMode::Diagnostics);
    assert_eq!(
        client.write_data_bosch(0, vec![1, 2], KEY.to_vec()),
        Action::Fail(Error::UnexpectedState)
    );
    let mut client = in_mode(DiagnosticMode::Programming);
    assert_eq!(
        client.write_data_bosch(0, vec![1, 2], KEY.to_vec()),
        Action::Fail(Error::UnexpectedState)
    );
}

#[test]
fn download_refuses_other_responses() {
    let mut client = unlocked(DiagnosticMode::Programming);
    client.write_data_bosch(0, vec![1, 2], KEY.to_vec());
    let other = Response::UploadConfirmation(16);
    assert_eq!(client.respond(other.clone()), Action::Fail(Error::UnexpectedResponse(other)));
    client.write_data_bosch(0, vec![1, 2], KEY.to_vec());
    client.respond(Response::DownloadConfirmation(16));
    let other = Response::Error(ProcessError {
        error: ServiceError::RoutineNotComplete,
        service: ServiceId::TransferData,
    });
    assert_eq!(client.respond(other.clone()), Action::Fail(Error::UnexpectedResponse(other)));
}

#[test]
fn fastest_timing() {
    let mut client = in_mode(DiagnosticMode::Programming);
    assert_eq!(client.use_fastest_timing(), Action::Send(Message::GetTimingLimits));
    assert_eq!(
        client.respond(Response::TimingParameters {
            kind: TimingParameter::Limits,
            p2min: 1,
            p2max: 2,
            p3min: 3,
            p3max: 4,
            p4min: 5,
        }),
        Action::Send(Message::ChangeTimingParameters { p2min: 1, p2max: 2, p3min: 3, p3max: 4, p4min: 5 })
    );
    assert_eq!(client.respond(Response::TimingSet), done());
    // in the developer mode too
    let mut client = in_mode(DiagnosticMode::Developer);
    assert_eq!(client.use_fastest_timing(), Action::Send(Message::GetTimingLimits));
    // the timing in use is not the limits
    let current = Response::TimingParameters {
        kind: TimingParameter::Read,
        p2min: 1,
        p2max: 2,
        p3min: 3,
        p3max: 4,
        p4min: 5,
    };
    assert_eq!(client.respond(current.clone()), Action::Fail(Error::UnexpectedResponse(current)));
    client.use_fastest_timing();
    client.respond(Response::TimingParameters {
        kind: TimingParameter::Limits,
        p2min: 0,
        p2max: 0,
        p3min: 0,
        p3max: 0,
        p4min: 0,
    });
    assert_eq!(
        client.respond(Response::TimingRestoredToDefault),
        Action::Fail(Error::UnexpectedResponse(Response::TimingRestoredToDefault))
    );
}

#[test]
fn timing_needs_programming_or_developer_mode() {
    let mut client = in_mode(DiagnosticMode::Diagnostics);
    assert_eq!(client.use_fastest_timing(), Action::Fail(Error::UnexpectedState));
    let mut client = Client::new();
    assert_eq!(client.use_fastest_timing(), Action::Fail(Error::UnexpectedState));
}

#[test]
fn disconnect_stops_session_and_communication() {
    let mut client = unlocked(DiagnosticMode::Programming);
    assert_eq!(client.disconnect(), Action::Send(Message::StopDiagnosticSession));
    assert_eq!(
        client.respond(Response::DiagnosticSessionStopped),
        Action::Send(Message::StopCommunication)
    );
    assert_eq!(client.mode(), SessionMode::Unknown);
    assert_eq!(client.security(), Security::Locked);
    assert_eq!(client.respond(Response::CommunicationStopped), done());
    assert_eq!(client.mode(), SessionMode::Disconnected);
    // nothing starts after that
    assert_eq!(client.diagnostic_mode(), Action::Fail(Error::UnexpectedState));
    assert_eq!(client.get_security_access(), Action::Fail(Error::UnexpectedState));
    assert_eq!(client.security_access_timeout_bypass(), Action::Fail(Error::UnexpectedState));
    assert_eq!(client.disconnect(), Action::Fail(Error::UnexpectedState));
    assert_eq!(client.dd_read_address(0, 1), Action::Fail(Error::UnexpectedState));
    assert_eq!(client.dd_write_address(0, vec![1]), Action::Fail(Error::UnexpectedState));
    assert_eq!(client.clear_security_wait(), Action::Fail(Error::UnexpectedState));
}

#[test]
fn disconnect_takes_an_error_for_the_session() {
    let mut client = in_mode(DiagnosticMode::Diagnostics);
    client.disconnect();
    assert_eq!(
        client.respond(Response::Error(ProcessError {
            error: ServiceError::ConditionsNotCorrect,
            service: ServiceId::StopDiagnosticSession,
        })),
        Action::Send(Message::StopCommunication)
    );
    // but none for communication
    let error = Response::Error(ProcessError {
        error: ServiceError::ConditionsNotCorrect,
        service: ServiceId::StopCommunication,
    });
    assert_eq!(client.respond(error.clone()), Action::Fail(Error::UnexpectedResponse(error)));
    assert_eq!(client.mode(), SessionMode::Active(DiagnosticMode::Diagnostics));
}

#[test]
fn one_operation_at_a_time() {
    let mut client = Client::new();
    client.diagnostic_mode();
    assert_eq!(client.get_security_access(), Action::Fail(Error::UnexpectedState));
    assert_eq!(client.task(), Task::ModeRequested(DiagnosticMode::Diagnostics));
    // a response that nothing waits for
    let mut client = Client::new();
    assert_eq!(client.respond(Response::TesterPresent), Action::Fail(Error::UnexpectedState));
    assert_eq!(client.baud_switched(), Action::Fail(Error::UnexpectedState));
    client.diagnostic_mode();
    assert_eq!(client.baud_switched(), Action::Fail(Error::UnexpectedState));
    assert_eq!(client.task(), Task::Idle);
}

#[test]
fn memory_layout_of_an_me7() {
    let layout = MemoryLayout::me7();
    assert_eq!(layout.base_address, 0x0080_0000);
    assert_eq!(layout.size, 0x0010_0000);
    assert_eq!(layout.sectors, kwp_me7::memory_layout::SECTORS.to_vec());
    assert_eq!(layout.sectors.len(), 19);
    assert_eq!(layout.sectors.iter().sum::<u32>(), layout.size);
    assert_eq!(layout.clone(), layout);
    assert_eq!(kwp_me7::memory_layout::BASE_ADDRESS, layout.base_address);
    assert_eq!(kwp_me7::memory_layout::SIZE, layout.size);
}
