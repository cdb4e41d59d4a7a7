//! The responses of the control unit, and how a frame is read as one.

use super::baud_rate;
use super::baud_rate_from_byte;
use super::constants::{
    DiagnosticMode, SecurityLevel, Service, ServiceError, ServiceId, ServiceResponse,
    TimingParameter,
};
use super::raw_message::{RawFrame, RawMessage};
use crate::{Error, ErrorView};
use vstd::prelude::*;

verus! {

/// A negative response: the service that was refused and why.
#[derive(Debug, Clone, Copy, PartialEq, Eq, Structural)]
pub struct ProcessError {
    pub error: ServiceError,
    pub service: ServiceId,
}

/// A frame of the control unit, read by its service.
#[derive(Debug, Clone, PartialEq, Eq)]
pub enum Response {
    /// The bytes that were read. The response names no address: the number is zero.
    MemoryAddressRead(u32, Vec<u8>),
    DiagnosticSessionStopped,
    CommunicationStopped,
    /// A frame whose service is a request: the tester hears what it sends.
    Echo(RawMessage),
    Error(ProcessError),
    LocalIdentifierDefined(u8),
    LocalIdentifierRead(u8, Vec<u8>),
    LocalIdentifierWritten(u8),
    /// Access is granted, at the level given.
    SecurityAccessGranted(SecurityLevel),
    /// The seed to answer with a key, and the level it was asked at.
    SecurityAccessSeed(SecurityLevel, Vec<u8>),
    /// The mode entered, and the new line speed where the control unit changes it.
    StartedDiagnosticMode(DiagnosticMode, Option<u32>),
    /// The control unit is still working on this service.
    StillProcessing(ServiceId),
    TesterPresent,
    /// A block of an upload.
    DataTransfer(Vec<u8>),
    /// The control unit has taken a block and is ready for the next.
    ReadyForMoreData,
    /// An upload was accepted; the largest block that will be sent.
    UploadConfirmation(u8),
    /// A download was accepted; the largest block that may be sent.
    DownloadConfirmation(u8),
    TimingParameters { kind: TimingParameter, p2min: u8, p2max: u8, p3min: u8, p3max: u8, p4min: u8 },
    TimingRestoredToDefault,
    TimingSet,
}

/// A `Response` as a mathematical value.
pub enum ResponseView {
    MemoryAddressRead(u32, Seq<u8>),
    DiagnosticSessionStopped,
    CommunicationStopped,
    Echo(RawFrame),
    Error(ProcessError),
    LocalIdentifierDefined(u8),
    LocalIdentifierRead(u8, Seq<u8>),
    LocalIdentifierWritten(u8),
    SecurityAccessGranted(SecurityLevel),
    SecurityAccessSeed(SecurityLevel, Seq<u8>),
    StartedDiagnosticMode(DiagnosticMode, Option<u32>),
    StillProcessing(ServiceId),
    TesterPresent,
    DataTransfer(Seq<u8>),
    ReadyForMoreData,
    UploadConfirmation(u8),
    DownloadConfirmation(u8),
    TimingParameters { kind: TimingParameter, p2min: u8, p2max: u8, p3min: u8, p3max: u8, p4min: u8 },
    TimingRestoredToDefault,
    TimingSet,
}

impl View for Response {
    type V = ResponseView;

    open spec fn view(&self) -> ResponseView {
        match self {
            Response::MemoryAddressRead(address, data) => ResponseView::MemoryAddressRead(
                *address,
                data@,
            ),
            Response::DiagnosticSessionStopped => ResponseView::DiagnosticSessionStopped,
            Response::CommunicationStopped => ResponseView::CommunicationStopped,
            Response::Echo(frame) => ResponseView::Echo(frame@),
            Response::Error(error) => ResponseView::Error(*error),
            Response::LocalIdentifierDefined(id) => ResponseView::LocalIdentifierDefined(*id),
            Response::LocalIdentifierRead(id, data) => ResponseView::LocalIdentifierRead(*id, data@),
            Response::LocalIdentifierWritten(id) => ResponseView::LocalIdentifierWritten(*id),
            Response::SecurityAccessGranted(level) => ResponseView::SecurityAccessGranted(*level),
            Response::SecurityAccessSeed(level, seed) => ResponseView::SecurityAccessSeed(
                *level,
                seed@,
            ),
            Response::StartedDiagnosticMode(mode, baud) => ResponseView::StartedDiagnosticMode(
                *mode,
                *baud,
            ),
            Response::StillProcessing(service) => ResponseView::StillProcessing(*service),
            Response::TesterPresent => ResponseView::TesterPresent,
            Response::DataTransfer(data) => ResponseView::DataTransfer(data@),
            Response::ReadyForMoreData => ResponseView::ReadyForMoreData,
            Response::UploadConfirmation(max) => ResponseView::UploadConfirmation(*max),
            Response::DownloadConfirmation(max) => ResponseView::DownloadConfirmation(*max),
            Response::TimingParameters { kind, p2min, p2max, p3min, p3max, p4min } => {
                ResponseView::TimingParameters {
                    kind: *kind,
                    p2min: *p2min,
                    p2max: *p2max,
                    p3min: *p3min,
                    p3max: *p3max,
                    p4min: *p4min,
                }
            },
            Response::TimingRestoredToDefault => ResponseView::TimingRestoredToDefault,
            Response::TimingSet => ResponseView::TimingSet,
        }
    }
}

/// What the payload of a negative response says: the refused service in its
/// first byte and the error code in its second.
pub open spec fn parse_process_error(bytes: Seq<u8>) -> Result<ProcessError, ErrorView> {
    if bytes.len() < 2 {
        Err(ErrorView::NotEnoughData)
    } else {
        match ServiceId::from_code(bytes[0]) {
            None => Err(ErrorView::InvalidService),
            Some(service) => match ServiceError::from_code(bytes[1]) {
                None => Err(ErrorView::InvalidServiceError),
                Some(error) => Ok(ProcessError { error, service }),
            },
        }
    }
}

/// Whether the payload of a security-access response grants access: it has
/// two bytes, or bytes after the first that are all zero.
pub open spec fn grants_access(data: Seq<u8>) -> bool {
    data.len() == 2 || (data.len() > 1 && forall|i: int| 1 <= i < data.len() ==> data[i] == 0)
}

/// What the payload of a response to the service `service` says.
pub open spec fn parse_payload(service: ServiceResponse, data: Seq<u8>) -> Result<
    ResponseView,
    ErrorView,
> {
    match service {
        ServiceResponse::AccessTimingParameter => if data.len() < 1 {
            Err(ErrorView::NotEnoughData)
        } else {
            match TimingParameter::from_code(data[0]) {
                None => Err(ErrorView::UnexpectedValue),
                Some(TimingParameter::Defaults) => Ok(ResponseView::TimingRestoredToDefault),
                Some(TimingParameter::SetParameters) => Ok(ResponseView::TimingSet),
                Some(kind) => if data.len() < 6 {
                    Err(ErrorView::NotEnoughData)
                } else {
                    Ok(
                        ResponseView::TimingParameters {
                            kind,
                            p2min: data[1],
                            p2max: data[2],
                            p3min: data[3],
                            p3max: data[4],
                            p4min: data[5],
                        },
                    )
                },
            }
        },
        ServiceResponse::ReadMemoryByAddress => Ok(ResponseView::MemoryAddressRead(0, data)),
        ServiceResponse::NegativeResponse => match parse_process_error(data) {
            Err(e) => Err(e),
            Ok(error) => if error.error == ServiceError::ResponsePending {
                Ok(ResponseView::StillProcessing(error.service))
            } else {
                Ok(ResponseView::Error(error))
            },
        },
        ServiceResponse::StartDiagnosticSession => if data.len() < 1 {
            Err(ErrorView::NotEnoughData)
        } else {
            match DiagnosticMode::from_code(data[0]) {
                None => Err(ErrorView::UnexpectedValue),
                Some(mode) => Ok(
                    ResponseView::StartedDiagnosticMode(
                        mode,
                        if data.len() > 1 {
                            Some(baud_rate(data[1]) as u32)
                        } else {
                            None
                        },
                    ),
                ),
            }
        },
        ServiceResponse::ReadDataByLocalIdentifier => if data.len() < 1 {
            Err(ErrorView::NotEnoughData)
        } else {
            Ok(ResponseView::LocalIdentifierRead(data[0], data.subrange(1, data.len() as int)))
        },
        ServiceResponse::TesterPresent => Ok(ResponseView::TesterPresent),
        ServiceResponse::SecurityAccess => if data.len() < 1 {
            Err(ErrorView::NotEnoughData)
        } else {
            match SecurityLevel::from_code(data[0]) {
                None => Err(ErrorView::UnexpectedValue),
                Some(level) => if grants_access(data) {
                    Ok(ResponseView::SecurityAccessGranted(level))
                } else {
                    Ok(ResponseView::SecurityAccessSeed(level, data.subrange(1, data.len() as int)))
                },
            }
        },
        ServiceResponse::DynamicallyDefineLocalIdentifier => if data.len() < 1 {
            Err(ErrorView::NotEnoughData)
        } else {
            Ok(ResponseView::LocalIdentifierDefined(data[0]))
        },
        ServiceResponse::WriteDataByLocalIdentifier => if data.len() < 1 {
            Err(ErrorView::NotEnoughData)
        } else {
            Ok(ResponseView::LocalIdentifierWritten(data[0]))
        },
        ServiceResponse::StopCommunication => Ok(ResponseView::CommunicationStopped),
        ServiceResponse::StopDiagnosticSession => Ok(ResponseView::DiagnosticSessionStopped),
        ServiceResponse::RequestUpload => if data.len() < 1 {
            Err(ErrorView::NotEnoughData)
        } else {
            Ok(ResponseView::UploadConfirmation(data[0]))
        },
        ServiceResponse::RequestDownload => if data.len() < 1 {
            Err(ErrorView::NotEnoughData)
        } else {
            Ok(ResponseView::DownloadConfirmation(data[0]))
        },
        ServiceResponse::TransferData => if data.len() == 0 {
            Ok(ResponseView::ReadyForMoreData)
        } else {
            Ok(ResponseView::DataTransfer(data))
        },
        _ => Err(ErrorView::NotImplemented),
    }
}

/// What a frame says: a frame with a request's service is an echo, any other
/// is read by its service.
pub open spec fn parse_response(frame: RawFrame) -> Result<ResponseView, ErrorView> {
    match frame.service {
        Service::Query(_) => Ok(ResponseView::Echo(frame)),
        Service::Response(service) => parse_payload(service, frame.data),
    }
}

impl ProcessError {
    /// Reads the payload of a negative response.
    pub fn from_bytes(bytes: &[u8]) -> (r: Result<ProcessError, Error>)
        ensures
            match r {
                Ok(error) => parse_process_error(bytes@) == Ok::<ProcessError, ErrorView>(error),
                Err(e) => parse_process_error(bytes@) == Err::<ProcessError, ErrorView>(e@),
            },
    {
        if bytes.len() < 2 {
            return Err(Error::NotEnoughData);
        }
        let service = match ServiceId::from_repr(bytes[0]) {
            Some(service) => service,
            None => { return Err(Error::InvalidService); },
        };
        let error = match ServiceError::from_repr(bytes[1]) {
            Some(error) => error,
            None => { return Err(Error::InvalidServiceError); },
        };
        Ok(ProcessError { error, service })
    }
}

/// Whether all bytes after the first are zero.
fn tail_is_zero(data: &Vec<u8>) -> (r: bool)
    requires
        data@.len() >= 1,
    ensures
        r == (forall|i: int| 1 <= i < data@.len() ==> data@[i] == 0),
{
    let mut i: usize = 1;
    while i < data.len()
        invariant
            1 <= i <= data@.len(),
            forall|j: int| 1 <= j < i ==> data@[j] == 0,
        decreases data@.len() - i,
    {
        if data[i] != 0 {
            return false;
        }
        i += 1;
    }
    true
}

/// Reads a frame as a response.
pub fn from_raw(message: RawMessage) -> (r: Result<Response, Error>)
    ensures
        match r {
            Ok(response) => parse_response(message@) == Ok::<ResponseView, ErrorView>(response@),
            Err(e) => parse_response(message@) == Err::<ResponseView, ErrorView>(e@),
        },
{
    let service = match message.service {
        Service::Query(_) => { return Ok(Response::Echo(message)); },
        Service::Response(service) => service,
    };
    let mut data = message.data;
    let ghost payload = data@;
    match service {
        ServiceResponse::AccessTimingParameter => {
            if data.len() < 1 {
                return Err(Error::NotEnoughData);
            }
            match TimingParameter::from_repr(data[0]) {
                None => Err(Error::UnexpectedValue),
                Some(TimingParameter::Defaults) => Ok(Response::TimingRestoredToDefault),
                Some(TimingParameter::SetParameters) => Ok(Response::TimingSet),
                Some(kind) => {
                    if data.len() < 6 {
                        return Err(Error::NotEnoughData);
                    }
                    Ok(
                        Response::TimingParameters {
                            kind,
                            p2min: data[1],
                            p2max: data[2],
                            p3min: data[3],
                            p3max: data[4],
                            p4min: data[5],
                        },
                    )
                },
            }
        },
        ServiceResponse::ReadMemoryByAddress => Ok(Response::MemoryAddressRead(0, data)),
        ServiceResponse::NegativeResponse => {
            match ProcessError::from_bytes(data.as_slice()) {
                Err(e) => Err(e),
                Ok(error) => {
                    if error.error == ServiceError::ResponsePending {
                        Ok(Response::StillProcessing(error.service))
                    } else {
                        Ok(Response::Error(error))
                    }
                },
            }
        },
        ServiceResponse::StartDiagnosticSession => {
            if data.len() < 1 {
                return Err(Error::NotEnoughData);
            }
            match DiagnosticMode::from_repr(data[0]) {
                None => Err(Error::UnexpectedValue),
                Some(mode) => {
                    let baud = if data.len() > 1 {
                        Some(baud_rate_from_byte(data[1]))
                    } else {
                        None
                    };
                    Ok(Response::StartedDiagnosticMode(mode, baud))
                },
            }
        },
        ServiceResponse::ReadDataByLocalIdentifier => {
            if data.len() < 1 {
                return Err(Error::NotEnoughData);
            }
            let id = data[0];
            let rest = data.split_off(1);
            Ok(Response::LocalIdentifierRead(id, rest))
        },
        ServiceResponse::TesterPresent => Ok(Response::TesterPresent),
        ServiceResponse::SecurityAccess => {
            if data.len() < 1 {
                return Err(Error::NotEnoughData);
            }
            match SecurityLevel::from_repr(data[0]) {
                None => Err(Error::UnexpectedValue),
                Some(level) => {
                    if data.len() == 2 || (data.len() > 1 && tail_is_zero(&data)) {
                        Ok(Response::SecurityAccessGranted(level))
                    } else {
                        let seed = data.split_off(1);
                        Ok(Response::SecurityAccessSeed(level, seed))
                    }
                },
            }
        },
        ServiceResponse::DynamicallyDefineLocalIdentifier => {
            if data.len() < 1 {
                return Err(Error::NotEnoughData);
            }
            Ok(Response::LocalIdentifierDefined(data[0]))
        },
        ServiceResponse::WriteDataByLocalIdentifier => {
            if data.len() < 1 {
                return Err(Error::NotEnoughData);
            }
            Ok(Response::LocalIdentifierWritten(data[0]))
        },
        ServiceResponse::StopCommunication => Ok(Response::CommunicationStopped),
        ServiceResponse::StopDiagnosticSession => Ok(Response::DiagnosticSessionStopped),
        ServiceResponse::RequestUpload => {
            if data.len() < 1 {
                return Err(Error::NotEnoughData);
            }
            Ok(Response::UploadConfirmation(data[0]))
        },
        ServiceResponse::RequestDownload => {
            if data.len() < 1 {
                return Err(Error::NotEnoughData);
            }
            Ok(Response::DownloadConfirmation(data[0]))
        },
        ServiceResponse::TransferData => {
            if data.len() == 0 {
                Ok(Response::ReadyForMoreData)
            } else {
                Ok(Response::DataTransfer(data))
            }
        },
        _ => Err(Error::NotImplemented),
    }
}

/// What becomes of a frame that was read while a response is waited for.
/// `None` says that the frame is passed over and the next one read: an echo of
/// the tester's own message, or the notice that the control unit is still
/// working. Where `last_command` is given and that notice names another
/// service, it is an error.
pub open spec fn filter_frame(frame: RawFrame, last_command: Option<ServiceId>) -> Result<
    Option<ResponseView>,
    ErrorView,
> {
    match parse_response(frame) {
        Err(e) => Err(e),
        Ok(ResponseView::Echo(_)) => Ok(None),
        Ok(ResponseView::StillProcessing(service)) => if last_command is None || last_command
            == Some(service) {
            Ok(None)
        } else {
            Err(ErrorView::UnexpectedPending)
        },
        Ok(response) => Ok(Some(response)),
    }
}

/// Reads a frame as a response and says whether it is the response waited
/// for, `Some`, or is to be passed over, `None`. Neither an echo nor the
/// notice that the control unit is still working is ever handed on.
pub fn filter_response(message: RawMessage, last_command: Option<ServiceId>) -> (r: Result<
    Option<Response>,
    Error,
>)
    ensures
        match r {
            Ok(Some(response)) => filter_frame(message@, last_command) == Ok::<
                Option<ResponseView>,
                ErrorView,
            >(Some(response@)) && !(response is Echo) && !(response is StillProcessing),
            Ok(None) => filter_frame(message@, last_command) == Ok::<Option<ResponseView>, ErrorView>(
                None,
            ),
            Err(e) => filter_frame(message@, last_command) == Err::<Option<ResponseView>, ErrorView>(
                e@,
            ),
        },
{
    match from_raw(message) {
        Err(e) => Err(e),
        Ok(Response::Echo(_)) => Ok(None),
        Ok(Response::StillProcessing(service)) => {
            let expected = match last_command {
                None => true,
                Some(command) => command == service,
            };
            if expected {
                Ok(None)
            } else {
                Err(Error::UnexpectedPending)
            }
        },
        Ok(response) => Ok(Some(response)),
    }
}

} // verus!
