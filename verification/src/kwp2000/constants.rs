//! The one-byte codes of the protocol: services, modes, levels and error codes.
//!
//! Every enumeration here has a spec function `code` that gives its wire byte,
//! and, where bytes are decoded into it, `from_code`, the partial inverse.

use crate::Error;
use vstd::prelude::*;

verus! {

/// How a dynamically defined local identifier is built.
#[derive(Debug, Clone, Copy, PartialEq, Eq, Structural)]
pub enum DynamicDefinitionMode {
    DefineByLocalIdentifier,
    DefineByCommonIdentifier,
    DefineByMemoryAddress,
    ClearDynamicallyDefinedLocalIdentifier,
}

impl DynamicDefinitionMode {
    /// The byte that stands for this definition mode on the wire.
    pub open spec fn code(self) -> u8 {
        match self {
            DynamicDefinitionMode::DefineByLocalIdentifier => 0x01,
            DynamicDefinitionMode::DefineByCommonIdentifier => 0x02,
            DynamicDefinitionMode::DefineByMemoryAddress => 0x03,
            DynamicDefinitionMode::ClearDynamicallyDefinedLocalIdentifier => 0x04,
        }
    }

    /// Encodes the definition mode as its wire byte.
    pub fn byte(self) -> (b: u8)
        ensures
            b == self.code(),
    {
        match self {
            DynamicDefinitionMode::DefineByLocalIdentifier => 0x01,
            DynamicDefinitionMode::DefineByCommonIdentifier => 0x02,
            DynamicDefinitionMode::DefineByMemoryAddress => 0x03,
            DynamicDefinitionMode::ClearDynamicallyDefinedLocalIdentifier => 0x04,
        }
    }
}

/// Sub-function of the access-timing-parameter service.
#[derive(Debug, Clone, Copy, PartialEq, Eq, Structural)]
pub enum TimingParameter {
    /// The limits that the control unit can work with.
    Limits,
    /// Restore the default timing.
    Defaults,
    /// The timing currently in use.
    Read,
    /// Adopt the values that follow.
    SetParameters,
}

impl TimingParameter {
    /// The byte that stands for this timing sub-function on the wire.
    pub open spec fn code(self) -> u8 {
        match self {
            TimingParameter::Limits => 0,
            TimingParameter::Defaults => 1,
            TimingParameter::Read => 2,
            TimingParameter::SetParameters => 3,
        }
    }

    /// The timing sub-function that `code` stands for, if there is one: the partial inverse of `code`.
    pub open spec fn from_code(code: u8) -> Option<TimingParameter> {
        if exists|v: TimingParameter| v.code() == code {
            Some(choose|v: TimingParameter| v.code() == code)
        } else {
            None
        }
    }

    /// Encodes the timing sub-function as its wire byte.
    pub fn byte(self) -> (b: u8)
        ensures
            b == self.code(),
    {
        match self {
            TimingParameter::Limits => 0,
            TimingParameter::Defaults => 1,
            TimingParameter::Read => 2,
            TimingParameter::SetParameters => 3,
        }
    }

    /// Decodes a wire byte; `None` when no timing sub-function has that byte.
    pub fn from_repr(discriminant: u8) -> (r: Option<TimingParameter>)
        ensures
            r == TimingParameter::from_code(discriminant),
    {
        let r = match discriminant {
            0 => Some(TimingParameter::Limits),
            1 => Some(TimingParameter::Defaults),
            2 => Some(TimingParameter::Read),
            3 => Some(TimingParameter::SetParameters),
            _ => None,
        };
        proof {
            if let Some(v) = r {
                assert(v.code() == discriminant);
            }
        }
        r
    }

    /// `from_code` inverts `code`: a byte decodes to a timing sub-function exactly when that timing sub-function encodes to the byte.
    pub proof fn lemma_code_round_trip(v: TimingParameter, code: u8)
        ensures
            TimingParameter::from_code(v.code()) == Some(v),
            TimingParameter::from_code(code) == Some(v) <==> v.code() == code,
    {
    }
}

/// Compression of a data transfer: the high nibble of the data-format byte.
#[derive(Debug, Clone, Copy, PartialEq, Eq, Structural)]
pub enum CompressionFormat {
    Uncompressed,
    Bosch,
    Hitachi,
    Marelli,
    Lucas,
}

impl CompressionFormat {
    /// The byte that stands for this compression format on the wire.
    pub open spec fn code(self) -> u8 {
        match self {
            CompressionFormat::Uncompressed => 0x00,
            CompressionFormat::Bosch => 0x10,
            CompressionFormat::Hitachi => 0x20,
            CompressionFormat::Marelli => 0x30,
            CompressionFormat::Lucas => 0x40,
        }
    }

    /// Encodes the compression format as its wire byte.
    pub fn byte(self) -> (b: u8)
        ensures
            b == self.code(),
    {
        match self {
            CompressionFormat::Uncompressed => 0x00,
            CompressionFormat::Bosch => 0x10,
            CompressionFormat::Hitachi => 0x20,
            CompressionFormat::Marelli => 0x30,
            CompressionFormat::Lucas => 0x40,
        }
    }
}

/// Encryption of a data transfer: the low nibble of the data-format byte.
#[derive(Debug, Clone, Copy, PartialEq, Eq, Structural)]
pub enum EncryptionFormat {
    Unencrypted,
    Bosch,
    Hitachi,
    Marelli,
    Lucas,
}

impl EncryptionFormat {
    /// The byte that stands for this encryption format on the wire.
    pub open spec fn code(self) -> u8 {
        match self {
            EncryptionFormat::Unencrypted => 0x00,
            EncryptionFormat::Bosch => 0x01,
            EncryptionFormat::Hitachi => 0x02,
            EncryptionFormat::Marelli => 0x03,
            EncryptionFormat::Lucas => 0x04,
        }
    }

    /// Encodes the encryption format as its wire byte.
    pub fn byte(self) -> (b: u8)
        ensures
            b == self.code(),
    {
        match self {
            EncryptionFormat::Unencrypted => 0x00,
            EncryptionFormat::Bosch => 0x01,
            EncryptionFormat::Hitachi => 0x02,
            EncryptionFormat::Marelli => 0x03,
            EncryptionFormat::Lucas => 0x04,
        }
    }
}

/// The data-format byte of a transfer request: the compression format in the
/// high nibble and the encryption format in the low nibble.
pub open spec fn spec_data_format_byte(compression: CompressionFormat, encryption: EncryptionFormat) -> u8 {
    (compression.code() + encryption.code()) as u8
}

/// Packs the two formats of a transfer into the data-format byte.
pub fn data_format_byte(compression: CompressionFormat, encryption: EncryptionFormat) -> (b: u8)
    ensures
        b == spec_data_format_byte(compression, encryption),
        b == compression.code() | encryption.code(),
        b / 16 * 16 == compression.code(),
        b % 16 == encryption.code(),
{
    let c: u8 = compression.byte();
    let e: u8 = encryption.byte();
    assert(c | e == c + e) by (bit_vector)
        requires
            c == 0x00 || c == 0x10 || c == 0x20 || c == 0x30 || c == 0x40,
            e <= 4,
    ;
    c | e
}

/// How often the control unit answers a read request.
#[derive(Debug, Clone, Copy, PartialEq, Eq, Structural)]
pub enum ReadMode {
    Single,
    Slow,
    Medium,
    Fast,
    Stop,
}

impl ReadMode {
    /// The byte that stands for this read mode on the wire.
    pub open spec fn code(self) -> u8 {
        match self {
            ReadMode::Single => 0x01,
            ReadMode::Slow => 0x02,
            ReadMode::Medium => 0x03,
            ReadMode::Fast => 0x04,
            ReadMode::Stop => 0x05,
        }
    }

    /// Encodes the read mode as its wire byte.
    pub fn byte(self) -> (b: u8)
        ensures
            b == self.code(),
    {
        match self {
            ReadMode::Single => 0x01,
            ReadMode::Slow => 0x02,
            ReadMode::Medium => 0x03,
            ReadMode::Fast => 0x04,
            ReadMode::Stop => 0x05,
        }
    }
}

/// Addressing of a frame: the top two bits of its format byte.
#[derive(Debug, Clone, Copy, PartialEq, Eq, Structural)]
pub enum AddressMode {
    /// No address bytes follow the format byte.
    NoAddress,
    Carb,
    Physical,
    Functional,
}

impl AddressMode {
    /// The byte that stands for this addressing mode on the wire.
    pub open spec fn code(self) -> u8 {
        match self {
            AddressMode::NoAddress => 0x00,
            AddressMode::Carb => 0x40,
            AddressMode::Physical => 0x80,
            AddressMode::Functional => 0xC0,
        }
    }

    /// Encodes the addressing mode as its wire byte.
    pub fn byte(self) -> (b: u8)
        ensures
            b == self.code(),
    {
        match self {
            AddressMode::NoAddress => 0x00,
            AddressMode::Carb => 0x40,
            AddressMode::Physical => 0x80,
            AddressMode::Functional => 0xC0,
        }
    }
}

/// Session that a control unit can be asked to enter.
#[derive(Debug, Clone, Copy, PartialEq, Eq, Structural)]
pub enum DiagnosticMode {
    OBD,
    EndOfLineVW,
    EndOfLineBosch,
    Programming,
    Developer,
    Diagnostics,
}

impl DiagnosticMode {
    /// The byte that stands for this diagnostic mode on the wire.
    pub open spec fn code(self) -> u8 {
        match self {
            DiagnosticMode::OBD => 0x81,
            DiagnosticMode::EndOfLineVW => 0x83,
            DiagnosticMode::EndOfLineBosch => 0x84,
            DiagnosticMode::Programming => 0x85,
            DiagnosticMode::Developer => 0x86,
            DiagnosticMode::Diagnostics => 0x89,
        }
    }

    /// The diagnostic mode that `code` stands for, if there is one: the partial inverse of `code`.
    pub open spec fn from_code(code: u8) -> Option<DiagnosticMode> {
        if exists|v: DiagnosticMode| v.code() == code {
            Some(choose|v: DiagnosticMode| v.code() == code)
        } else {
            None
        }
    }

    /// Encodes the diagnostic mode as its wire byte.
    pub fn byte(self) -> (b: u8)
        ensures
            b == self.code(),
    {
        match self {
            DiagnosticMode::OBD => 0x81,
            DiagnosticMode::EndOfLineVW => 0x83,
            DiagnosticMode::EndOfLineBosch => 0x84,
            DiagnosticMode::Programming => 0x85,
            DiagnosticMode::Developer => 0x86,
            DiagnosticMode::Diagnostics => 0x89,
        }
    }

    /// Decodes a wire byte; `None` when no diagnostic mode has that byte.
    pub fn from_repr(discriminant: u8) -> (r: Option<DiagnosticMode>)
        ensures
            r == DiagnosticMode::from_code(discriminant),
    {
        let r = match discriminant {
            0x81 => Some(DiagnosticMode::OBD),
            0x83 => Some(DiagnosticMode::EndOfLineVW),
            0x84 => Some(DiagnosticMode::EndOfLineBosch),
            0x85 => Some(DiagnosticMode::Programming),
            0x86 => Some(DiagnosticMode::Developer),
            0x89 => Some(DiagnosticMode::Diagnostics),
            _ => None,
        };
        proof {
            if let Some(v) = r {
                assert(v.code() == discriminant);
            }
        }
        r
    }

    /// `from_code` inverts `code`: a byte decodes to a diagnostic mode exactly when that diagnostic mode encodes to the byte.
    pub proof fn lemma_code_round_trip(v: DiagnosticMode, code: u8)
        ensures
            DiagnosticMode::from_code(v.code()) == Some(v),
            DiagnosticMode::from_code(code) == Some(v) <==> v.code() == code,
    {
    }
}

/// Sub-function of the security-access service: odd codes ask for a seed,
/// even codes send the key for the seed one below.
#[derive(Debug, Clone, Copy, PartialEq, Eq, Structural, PartialOrd, Ord)]
pub enum SecurityLevel {
    Seed1,
    Key1,
    Seed2,
    Key2,
    Seed3,
    Key3,
    Seed4,
    Key4,
}

impl SecurityLevel {
    /// The byte that stands for this security level on the wire.
    pub open spec fn code(self) -> u8 {
        match self {
            SecurityLevel::Seed1 => 0x01,
            SecurityLevel::Key1 => 0x02,
            SecurityLevel::Seed2 => 0x03,
            SecurityLevel::Key2 => 0x04,
            SecurityLevel::Seed3 => 0x05,
            SecurityLevel::Key3 => 0x06,
            SecurityLevel::Seed4 => 0x07,
            SecurityLevel::Key4 => 0x08,
        }
    }

    /// The security level that `code` stands for, if there is one: the partial inverse of `code`.
    pub open spec fn from_code(code: u8) -> Option<SecurityLevel> {
        if exists|v: SecurityLevel| v.code() == code {
            Some(choose|v: SecurityLevel| v.code() == code)
        } else {
            None
        }
    }

    /// Encodes the security level as its wire byte.
    pub fn byte(self) -> (b: u8)
        ensures
            b == self.code(),
    {
        match self {
            SecurityLevel::Seed1 => 0x01,
            SecurityLevel::Key1 => 0x02,
            SecurityLevel::Seed2 => 0x03,
            SecurityLevel::Key2 => 0x04,
            SecurityLevel::Seed3 => 0x05,
            SecurityLevel::Key3 => 0x06,
            SecurityLevel::Seed4 => 0x07,
            SecurityLevel::Key4 => 0x08,
        }
    }

    /// Decodes a wire byte; `None` when no security level has that byte.
    pub fn from_repr(discriminant: u8) -> (r: Option<SecurityLevel>)
        ensures
            r == SecurityLevel::from_code(discriminant),
    {
        let r = match discriminant {
            0x01 => Some(SecurityLevel::Seed1),
            0x02 => Some(SecurityLevel::Key1),
            0x03 => Some(SecurityLevel::Seed2),
            0x04 => Some(SecurityLevel::Key2),
            0x05 => Some(SecurityLevel::Seed3),
            0x06 => Some(SecurityLevel::Key3),
            0x07 => Some(SecurityLevel::Seed4),
            0x08 => Some(SecurityLevel::Key4),
            _ => None,
        };
        proof {
            if let Some(v) = r {
                assert(v.code() == discriminant);
            }
        }
        r
    }

    /// `from_code` inverts `code`: a byte decodes to a security level exactly when that security level encodes to the byte.
    pub proof fn lemma_code_round_trip(v: SecurityLevel, code: u8)
        ensures
            SecurityLevel::from_code(v.code()) == Some(v),
            SecurityLevel::from_code(code) == Some(v) <==> v.code() == code,
    {
    }
}

/// Code of a negative response.
#[derive(Debug, Clone, Copy, PartialEq, Eq, Structural)]
pub enum ServiceError {
    GeneralReject,
    /// The control unit does not support the service.
    ServiceNotSupported,
    FunctionNotSupportedOrInvalidFormat,
    /// Still working on the previous request.
    BusyRepeatRequest,
    /// The conditions for the service are not met, or services that depend on
    /// each other came in the wrong order.
    ConditionsNotCorrect,
    /// Processing is not complete yet.
    RoutineNotComplete,
    /// A parameter is out of the permitted range.
    RequestOutOfRange,
    /// The service needs security access first.
    SecurityAccessRequired,
    InvalidKey,
    /// The limit of failed security accesses is reached.
    TooManyAttempts,
    /// Wait before asking for security access again.
    RequestingTooFast,
    DownloadNotAccepted,
    ImproperDownloadType,
    CannotDownloadToAddress,
    BadDownloadSize,
    UploadNotAccepted,
    ImproperUploadType,
    CannotUploadFromAddress,
    BadUploadSize,
    TransferSuspended,
    TransferAborted,
    IllegalBlockTransferAddress,
    IllegalBlockTransferSize,
    IllegalBlockTransferType,
    BlockTransferChecksumError,
    /// The request was received; the final response is still to come.
    ResponsePending,
    IncorrectByteCountDuringBlockTransfer,
    ServiceNotSupportedInActiveMode,
    NoProgram,
    ScalingNotSupported,
}

impl ServiceError {
    /// The byte that stands for this error code on the wire.
    pub open spec fn code(self) -> u8 {
        match self {
            ServiceError::GeneralReject => 0x10,
            ServiceError::ServiceNotSupported => 0x11,
            ServiceError::FunctionNotSupportedOrInvalidFormat => 0x12,
            ServiceError::BusyRepeatRequest => 0x21,
            ServiceError::ConditionsNotCorrect => 0x22,
            ServiceError::RoutineNotComplete => 0x23,
            ServiceError::RequestOutOfRange => 0x31,
            ServiceError::SecurityAccessRequired => 0x33,
            ServiceError::InvalidKey => 0x35,
            ServiceError::TooManyAttempts => 0x36,
            ServiceError::RequestingTooFast => 0x37,
            ServiceError::DownloadNotAccepted => 0x40,
            ServiceError::ImproperDownloadType => 0x41,
            ServiceError::CannotDownloadToAddress => 0x42,
            ServiceError::BadDownloadSize => 0x43,
            ServiceError::UploadNotAccepted => 0x50,
            ServiceError::ImproperUploadType => 0x51,
            ServiceError::CannotUploadFromAddress => 0x52,
            ServiceError::BadUploadSize => 0x53,
            ServiceError::TransferSuspended => 0x71,
            ServiceError::TransferAborted => 0x72,
            ServiceError::IllegalBlockTransferAddress => 0x74,
            ServiceError::IllegalBlockTransferSize => 0x75,
            ServiceError::IllegalBlockTransferType => 0x76,
            ServiceError::BlockTransferChecksumError => 0x77,
            ServiceError::ResponsePending => 0x78,
            ServiceError::IncorrectByteCountDuringBlockTransfer => 0x79,
            ServiceError::ServiceNotSupportedInActiveMode => 0x80,
            ServiceError::NoProgram => 0x90,
            ServiceError::ScalingNotSupported => 0x91,
        }
    }

    /// The error code that `code` stands for, if there is one: the partial inverse of `code`.
    pub open spec fn from_code(code: u8) -> Option<ServiceError> {
        if exists|v: ServiceError| v.code() == code {
            Some(choose|v: ServiceError| v.code() == code)
        } else {
            None
        }
    }

    /// Encodes the error code as its wire byte.
    pub fn byte(self) -> (b: u8)
        ensures
            b == self.code(),
    {
        match self {
            ServiceError::GeneralReject => 0x10,
            ServiceError::ServiceNotSupported => 0x11,
            ServiceError::FunctionNotSupportedOrInvalidFormat => 0x12,
            ServiceError::BusyRepeatRequest => 0x21,
            ServiceError::ConditionsNotCorrect => 0x22,
            ServiceError::RoutineNotComplete => 0x23,
            ServiceError::RequestOutOfRange => 0x31,
            ServiceError::SecurityAccessRequired => 0x33,
            ServiceError::InvalidKey => 0x35,
            ServiceError::TooManyAttempts => 0x36,
            ServiceError::RequestingTooFast => 0x37,
            ServiceError::DownloadNotAccepted => 0x40,
            ServiceError::ImproperDownloadType => 0x41,
            ServiceError::CannotDownloadToAddress => 0x42,
            ServiceError::BadDownloadSize => 0x43,
            ServiceError::UploadNotAccepted => 0x50,
            ServiceError::ImproperUploadType => 0x51,
            ServiceError::CannotUploadFromAddress => 0x52,
            ServiceError::BadUploadSize => 0x53,
            ServiceError::TransferSuspended => 0x71,
            ServiceError::TransferAborted => 0x72,
            ServiceError::IllegalBlockTransferAddress => 0x74,
            ServiceError::IllegalBlockTransferSize => 0x75,
            ServiceError::IllegalBlockTransferType => 0x76,
            ServiceError::BlockTransferChecksumError => 0x77,
            ServiceError::ResponsePending => 0x78,
            ServiceError::IncorrectByteCountDuringBlockTransfer => 0x79,
            ServiceError::ServiceNotSupportedInActiveMode => 0x80,
            ServiceError::NoProgram => 0x90,
            ServiceError::ScalingNotSupported => 0x91,
        }
    }

    /// Decodes a wire byte; `None` when no error code has that byte.
    pub fn from_repr(discriminant: u8) -> (r: Option<ServiceError>)
        ensures
            r == ServiceError::from_code(discriminant),
    {
        let r = match discriminant {
            0x10 => Some(ServiceError::GeneralReject),
            0x11 => Some(ServiceError::ServiceNotSupported),
            0x12 => Some(ServiceError::FunctionNotSupportedOrInvalidFormat),
            0x21 => Some(ServiceError::BusyRepeatRequest),
            0x22 => Some(ServiceError::ConditionsNotCorrect),
            0x23 => Some(ServiceError::RoutineNotComplete),
            0x31 => Some(ServiceError::RequestOutOfRange),
            0x33 => Some(ServiceError::SecurityAccessRequired),
            0x35 => Some(ServiceError::InvalidKey),
            0x36 => Some(ServiceError::TooManyAttempts),
            0x37 => Some(ServiceError::RequestingTooFast),
            0x40 => Some(ServiceError::DownloadNotAccepted),
            0x41 => Some(ServiceError::ImproperDownloadType),
            0x42 => Some(ServiceError::CannotDownloadToAddress),
            0x43 => Some(ServiceError::BadDownloadSize),
            0x50 => Some(ServiceError::UploadNotAccepted),
            0x51 => Some(ServiceError::ImproperUploadType),
            0x52 => Some(ServiceError::CannotUploadFromAddress),
            0x53 => Some(ServiceError::BadUploadSize),
            0x71 => Some(ServiceError::TransferSuspended),
            0x72 => Some(ServiceError::TransferAborted),
            0x74 => Some(ServiceError::IllegalBlockTransferAddress),
            0x75 => Some(ServiceError::IllegalBlockTransferSize),
            0x76 => Some(ServiceError::IllegalBlockTransferType),
            0x77 => Some(ServiceError::BlockTransferChecksumError),
            0x78 => Some(ServiceError::ResponsePending),
            0x79 => Some(ServiceError::IncorrectByteCountDuringBlockTransfer),
            0x80 => Some(ServiceError::ServiceNotSupportedInActiveMode),
            0x90 => Some(ServiceError::NoProgram),
            0x91 => Some(ServiceError::ScalingNotSupported),
            _ => None,
        };
        proof {
            if let Some(v) = r {
                assert(v.code() == discriminant);
            }
        }
        r
    }

    /// `from_code` inverts `code`: a byte decodes to a error code exactly when that error code encodes to the byte.
    pub proof fn lemma_code_round_trip(v: ServiceError, code: u8)
        ensures
            ServiceError::from_code(v.code()) == Some(v),
            ServiceError::from_code(code) == Some(v) <==> v.code() == code,
    {
    }
}

/// Identifier of a request.
#[derive(Debug, Clone, Copy, PartialEq, Eq, Structural)]
pub enum ServiceId {
    RequestCurrentPowertrainDiagnosticData,
    RequestPowertrainFreezeFrameData,
    RequestEmissionRelatedDiagnosticInformation,
    ClearResetEmissionRelatedDiagnosticInformation,
    RequestOxygenSensorMonitoringTestResults,
    RequestOnBoardMonitoringTestResultsForNoneContMonitoringSystem,
    RequestOnBoardMonitoringTestResultsForContMonitoringSystem,
    RequestControlOfOnBoardSystem,
    RequestVehicleInformation,
    StartDiagnosticSession,
    ECUReset,
    ReadFreezeFrameData,
    ReadDiagnosticTroubleCodes,
    ClearDiagnosticInformation,
    ReadStatusOfDTC,
    ReadDTCByStatus,
    ReadECUIdentification,
    StopDiagnosticSession,
    ReadDataByLocalIdentifier,
    ReadDataByCommonIdentifier,
    ReadMemoryByAddress,
    SetDataRates,
    SecurityAccess,
    DynamicallyDefineLocalIdentifier,
    WriteDataByCommonIdentifier,
    InputOutputControlByCommonIdentifier,
    InputOutputControlByLocalIdentifier,
    StartRoutineByLocalIdentifier,
    StopRoutineByLocalIdentifier,
    RequestRoutineResultsByLocalIdentifier,
    RequestDownload,
    RequestUpload,
    TransferData,
    RequestTransferExit,
    StartRoutineByAddress,
    StopRoutineByAddress,
    ResquestRoutineResultsByAddress,
    WriteDataByLocalIdentifier,
    WriteMemoryByAddress,
    TesterPresent,
    Reserved,
    ESCCode,
    StartCommunication,
    StopCommunication,
    AccessTimingParameter,
}

impl ServiceId {
    /// The byte that stands for this request identifier on the wire.
    pub open spec fn code(self) -> u8 {
        match self {
            ServiceId::RequestCurrentPowertrainDiagnosticData => 0x01,
            ServiceId::RequestPowertrainFreezeFrameData => 0x02,
            ServiceId::RequestEmissionRelatedDiagnosticInformation => 0x03,
            ServiceId::ClearResetEmissionRelatedDiagnosticInformation => 0x04,
            ServiceId::RequestOxygenSensorMonitoringTestResults => 0x05,
            ServiceId::RequestOnBoardMonitoringTestResultsForNoneContMonitoringSystem => 0x06,
            ServiceId::RequestOnBoardMonitoringTestResultsForContMonitoringSystem => 0x07,
            ServiceId::RequestControlOfOnBoardSystem => 0x08,
            ServiceId::RequestVehicleInformation => 0x09,
            ServiceId::StartDiagnosticSession => 0x10,
            ServiceId::ECUReset => 0x11,
            ServiceId::ReadFreezeFrameData => 0x12,
            ServiceId::ReadDiagnosticTroubleCodes => 0x13,
            ServiceId::ClearDiagnosticInformation => 0x14,
            ServiceId::ReadStatusOfDTC => 0x17,
            ServiceId::ReadDTCByStatus => 0x18,
            ServiceId::ReadECUIdentification => 0x1A,
            ServiceId::StopDiagnosticSession => 0x20,
            ServiceId::ReadDataByLocalIdentifier => 0x21,
            ServiceId::ReadDataByCommonIdentifier => 0x22,
            ServiceId::ReadMemoryByAddress => 0x23,
            ServiceId::SetDataRates => 0x26,
            ServiceId::SecurityAccess => 0x27,
            ServiceId::DynamicallyDefineLocalIdentifier => 0x2C,
            ServiceId::WriteDataByCommonIdentifier => 0x2E,
            ServiceId::InputOutputControlByCommonIdentifier => 0x2F,
            ServiceId::InputOutputControlByLocalIdentifier => 0x30,
            ServiceId::StartRoutineByLocalIdentifier => 0x31,
            ServiceId::StopRoutineByLocalIdentifier => 0x32,
            ServiceId::RequestRoutineResultsByLocalIdentifier => 0x33,
            ServiceId::RequestDownload => 0x34,
            ServiceId::RequestUpload => 0x35,
            ServiceId::TransferData => 0x36,
            ServiceId::RequestTransferExit => 0x37,
            ServiceId::StartRoutineByAddress => 0x38,
            ServiceId::StopRoutineByAddress => 0x39,
            ServiceId::ResquestRoutineResultsByAddress => 0x3A,
            ServiceId::WriteDataByLocalIdentifier => 0x3B,
            ServiceId::WriteMemoryByAddress => 0x3D,
            ServiceId::TesterPresent => 0x3E,
            ServiceId::Reserved => 0x3F,
            ServiceId::ESCCode => 0x80,
            ServiceId::StartCommunication => 0x81,
            ServiceId::StopCommunication => 0x82,
            ServiceId::AccessTimingParameter => 0x83,
        }
    }

    /// The request identifier that `code` stands for, if there is one: the partial inverse of `code`.
    pub open spec fn from_code(code: u8) -> Option<ServiceId> {
        if exists|v: ServiceId| v.code() == code {
            Some(choose|v: ServiceId| v.code() == code)
        } else {
            None
        }
    }

    /// Encodes the request identifier as its wire byte.
    pub fn byte(self) -> (b: u8)
        ensures
            b == self.code(),
    {
        match self {
            ServiceId::RequestCurrentPowertrainDiagnosticData => 0x01,
            ServiceId::RequestPowertrainFreezeFrameData => 0x02,
            ServiceId::RequestEmissionRelatedDiagnosticInformation => 0x03,
            ServiceId::ClearResetEmissionRelatedDiagnosticInformation => 0x04,
            ServiceId::RequestOxygenSensorMonitoringTestResults => 0x05,
            ServiceId::RequestOnBoardMonitoringTestResultsForNoneContMonitoringSystem => 0x06,
            ServiceId::RequestOnBoardMonitoringTestResultsForContMonitoringSystem => 0x07,
            ServiceId::RequestControlOfOnBoardSystem => 0x08,
            ServiceId::RequestVehicleInformation => 0x09,
            ServiceId::StartDiagnosticSession => 0x10,
            ServiceId::ECUReset => 0x11,
            ServiceId::ReadFreezeFrameData => 0x12,
            ServiceId::ReadDiagnosticTroubleCodes => 0x13,
            ServiceId::ClearDiagnosticInformation => 0x14,
            ServiceId::ReadStatusOfDTC => 0x17,
            ServiceId::ReadDTCByStatus => 0x18,
            ServiceId::ReadECUIdentification => 0x1A,
            ServiceId::StopDiagnosticSession => 0x20,
            ServiceId::ReadDataByLocalIdentifier => 0x21,
            ServiceId::ReadDataByCommonIdentifier => 0x22,
            ServiceId::ReadMemoryByAddress => 0x23,
            ServiceId::SetDataRates => 0x26,
            ServiceId::SecurityAccess => 0x27,
            ServiceId::DynamicallyDefineLocalIdentifier => 0x2C,
            ServiceId::WriteDataByCommonIdentifier => 0x2E,
            ServiceId::InputOutputControlByCommonIdentifier => 0x2F,
            ServiceId::InputOutputControlByLocalIdentifier => 0x30,
            ServiceId::StartRoutineByLocalIdentifier => 0x31,
            ServiceId::StopRoutineByLocalIdentifier => 0x32,
            ServiceId::RequestRoutineResultsByLocalIdentifier => 0x33,
            ServiceId::RequestDownload => 0x34,
            ServiceId::RequestUpload => 0x35,
            ServiceId::TransferData => 0x36,
            ServiceId::RequestTransferExit => 0x37,
            ServiceId::StartRoutineByAddress => 0x38,
            ServiceId::StopRoutineByAddress => 0x39,
            ServiceId::ResquestRoutineResultsByAddress => 0x3A,
            ServiceId::WriteDataByLocalIdentifier => 0x3B,
            ServiceId::WriteMemoryByAddress => 0x3D,
            ServiceId::TesterPresent => 0x3E,
            ServiceId::Reserved => 0x3F,
            ServiceId::ESCCode => 0x80,
            ServiceId::StartCommunication => 0x81,
            ServiceId::StopCommunication => 0x82,
            ServiceId::AccessTimingParameter => 0x83,
        }
    }

    /// Decodes a wire byte; `None` when no request identifier has that byte.
    pub fn from_repr(discriminant: u8) -> (r: Option<ServiceId>)
        ensures
            r == ServiceId::from_code(discriminant),
    {
        let r = match discriminant {
            0x01 => Some(ServiceId::RequestCurrentPowertrainDiagnosticData),
            0x02 => Some(ServiceId::RequestPowertrainFreezeFrameData),
            0x03 => Some(ServiceId::RequestEmissionRelatedDiagnosticInformation),
            0x04 => Some(ServiceId::ClearResetEmissionRelatedDiagnosticInformation),
            0x05 => Some(ServiceId::RequestOxygenSensorMonitoringTestResults),
            0x06 => Some(ServiceId::RequestOnBoardMonitoringTestResultsForNoneContMonitoringSystem),
            0x07 => Some(ServiceId::RequestOnBoardMonitoringTestResultsForContMonitoringSystem),
            0x08 => Some(ServiceId::RequestControlOfOnBoardSystem),
            0x09 => Some(ServiceId::RequestVehicleInformation),
            0x10 => Some(ServiceId::StartDiagnosticSession),
            0x11 => Some(ServiceId::ECUReset),
            0x12 => Some(ServiceId::ReadFreezeFrameData),
            0x13 => Some(ServiceId::ReadDiagnosticTroubleCodes),
            0x14 => Some(ServiceId::ClearDiagnosticInformation),
            0x17 => Some(ServiceId::ReadStatusOfDTC),
            0x18 => Some(ServiceId::ReadDTCByStatus),
            0x1A => Some(ServiceId::ReadECUIdentification),
            0x20 => Some(ServiceId::StopDiagnosticSession),
            0x21 => Some(ServiceId::ReadDataByLocalIdentifier),
            0x22 => Some(ServiceId::ReadDataByCommonIdentifier),
            0x23 => Some(ServiceId::ReadMemoryByAddress),
            0x26 => Some(ServiceId::SetDataRates),
            0x27 => Some(ServiceId::SecurityAccess),
            0x2C => Some(ServiceId::DynamicallyDefineLocalIdentifier),
            0x2E => Some(ServiceId::WriteDataByCommonIdentifier),
            0x2F => Some(ServiceId::InputOutputControlByCommonIdentifier),
            0x30 => Some(ServiceId::InputOutputControlByLocalIdentifier),
            0x31 => Some(ServiceId::StartRoutineByLocalIdentifier),
            0x32 => Some(ServiceId::StopRoutineByLocalIdentifier),
            0x33 => Some(ServiceId::RequestRoutineResultsByLocalIdentifier),
            0x34 => Some(ServiceId::RequestDownload),
            0x35 => Some(ServiceId::RequestUpload),
            0x36 => Some(ServiceId::TransferData),
            0x37 => Some(ServiceId::RequestTransferExit),
            0x38 => Some(ServiceId::StartRoutineByAddress),
            0x39 => Some(ServiceId::StopRoutineByAddress),
            0x3A => Some(ServiceId::ResquestRoutineResultsByAddress),
            0x3B => Some(ServiceId::WriteDataByLocalIdentifier),
            0x3D => Some(ServiceId::WriteMemoryByAddress),
            0x3E => Some(ServiceId::TesterPresent),
            0x3F => Some(ServiceId::Reserved),
            0x80 => Some(ServiceId::ESCCode),
            0x81 => Some(ServiceId::StartCommunication),
            0x82 => Some(ServiceId::StopCommunication),
            0x83 => Some(ServiceId::AccessTimingParameter),
            _ => None,
        };
        proof {
            if let Some(v) = r {
                assert(v.code() == discriminant);
            }
        }
        r
    }

    /// `from_code` inverts `code`: a byte decodes to a request identifier exactly when that request identifier encodes to the byte.
    pub proof fn lemma_code_round_trip(v: ServiceId, code: u8)
        ensures
            ServiceId::from_code(v.code()) == Some(v),
            ServiceId::from_code(code) == Some(v) <==> v.code() == code,
    {
    }
}

/// Identifier of a response: `NegativeResponse`, or the answer to one request.
#[derive(Debug, Clone, Copy, PartialEq, Eq, Structural)]
pub enum ServiceResponse {
    NegativeResponse,
    RequestCurrentPowertrainDiagnosticData,
    RequestPowertrainFreezeFrameData,
    RequestEmissionRelatedDiagnosticInformation,
    ClearResetEmissionRelatedDiagnosticInformation,
    RequestOxygenSensorMonitoringTestResults,
    RequestOnBoardMonitoringTestResultsForNoneContMonitoringSystem,
    RequestOnBoardMonitoringTestResultsForContMonitoringSystem,
    RequestControlOfOnBoardSystem,
    RequestVehicleInformation,
    StartDiagnosticSession,
    ECUReset,
    ReadFreezeFrameData,
    ReadDiagnosticTroubleCodes,
    ClearDiagnosticInformation,
    ReadStatusOfDTC,
    ReadDTCByStatus,
    ReadECUIdentification,
    StopDiagnosticSession,
    ReadDataByLocalIdentifier,
    ReadDataByCommonIdentifier,
    ReadMemoryByAddress,
    SetDataRates,
    SecurityAccess,
    DynamicallyDefineLocalIdentifier,
    WriteDataByCommonIdentifier,
    InputOutputControlByCommonIdentifier,
    InputOutputControlByLocalIdentifier,
    StartRoutineByLocalIdentifier,
    StopRoutineByLocalIdentifier,
    RequestRoutineResultsByLocalIdentifier,
    RequestDownload,
    RequestUpload,
    TransferData,
    RequestTransferExit,
    StartRoutineByAddress,
    StopRoutineByAddress,
    ResquestRoutineResultsByAddress,
    WriteDataByLocalIdentifier,
    WriteMemoryByAddress,
    TesterPresent,
    /// Never sent: a reserved request is always answered negatively.
    Reserved,
    ESCCode,
    StartCommunication,
    StopCommunication,
    AccessTimingParameter,
}

impl ServiceResponse {
    /// The byte that stands for this response identifier on the wire.
    pub open spec fn code(self) -> u8 {
        match self {
            ServiceResponse::NegativeResponse => 0x7F,
            ServiceResponse::RequestCurrentPowertrainDiagnosticData => 0x41,
            ServiceResponse::RequestPowertrainFreezeFrameData => 0x42,
            ServiceResponse::RequestEmissionRelatedDiagnosticInformation => 0x43,
            ServiceResponse::ClearResetEmissionRelatedDiagnosticInformation => 0x44,
            ServiceResponse::RequestOxygenSensorMonitoringTestResults => 0x45,
            ServiceResponse::RequestOnBoardMonitoringTestResultsForNoneContMonitoringSystem => 0x46,
            ServiceResponse::RequestOnBoardMonitoringTestResultsForContMonitoringSystem => 0x47,
            ServiceResponse::RequestControlOfOnBoardSystem => 0x48,
            ServiceResponse::RequestVehicleInformation => 0x49,
            ServiceResponse::StartDiagnosticSession => 0x50,
            ServiceResponse::ECUReset => 0x51,
            ServiceResponse::ReadFreezeFrameData => 0x52,
            ServiceResponse::ReadDiagnosticTroubleCodes => 0x53,
            ServiceResponse::ClearDiagnosticInformation => 0x54,
            ServiceResponse::ReadStatusOfDTC => 0x57,
            ServiceResponse::ReadDTCByStatus => 0x58,
            ServiceResponse::ReadECUIdentification => 0x5A,
            ServiceResponse::StopDiagnosticSession => 0x60,
            ServiceResponse::ReadDataByLocalIdentifier => 0x61,
            ServiceResponse::ReadDataByCommonIdentifier => 0x62,
            ServiceResponse::ReadMemoryByAddress => 0x63,
            ServiceResponse::SetDataRates => 0x66,
            ServiceResponse::SecurityAccess => 0x67,
            ServiceResponse::DynamicallyDefineLocalIdentifier => 0x6C,
            ServiceResponse::WriteDataByCommonIdentifier => 0x6E,
            ServiceResponse::InputOutputControlByCommonIdentifier => 0x6F,
            ServiceResponse::InputOutputControlByLocalIdentifier => 0x70,
            ServiceResponse::StartRoutineByLocalIdentifier => 0x71,
            ServiceResponse::StopRoutineByLocalIdentifier => 0x72,
            ServiceResponse::RequestRoutineResultsByLocalIdentifier => 0x73,
            ServiceResponse::RequestDownload => 0x74,
            ServiceResponse::RequestUpload => 0x75,
            ServiceResponse::TransferData => 0x76,
            ServiceResponse::RequestTransferExit => 0x77,
            ServiceResponse::StartRoutineByAddress => 0x78,
            ServiceResponse::StopRoutineByAddress => 0x79,
            ServiceResponse::ResquestRoutineResultsByAddress => 0x7A,
            ServiceResponse::WriteDataByLocalIdentifier => 0x7B,
            ServiceResponse::WriteMemoryByAddress => 0x7D,
            ServiceResponse::TesterPresent => 0x7E,
            ServiceResponse::Reserved => 0xFF,
            ServiceResponse::ESCCode => 0xC0,
            ServiceResponse::StartCommunication => 0xC1,
            ServiceResponse::StopCommunication => 0xC2,
            ServiceResponse::AccessTimingParameter => 0xC3,
        }
    }

    /// The response identifier that `code` stands for, if there is one: the partial inverse of `code`.
    pub open spec fn from_code(code: u8) -> Option<ServiceResponse> {
        if exists|v: ServiceResponse| v.code() == code {
            Some(choose|v: ServiceResponse| v.code() == code)
        } else {
            None
        }
    }

    /// Encodes the response identifier as its wire byte.
    pub fn byte(self) -> (b: u8)
        ensures
            b == self.code(),
    {
        match self {
            ServiceResponse::NegativeResponse => 0x7F,
            ServiceResponse::RequestCurrentPowertrainDiagnosticData => 0x41,
            ServiceResponse::RequestPowertrainFreezeFrameData => 0x42,
            ServiceResponse::RequestEmissionRelatedDiagnosticInformation => 0x43,
            ServiceResponse::ClearResetEmissionRelatedDiagnosticInformation => 0x44,
            ServiceResponse::RequestOxygenSensorMonitoringTestResults => 0x45,
            ServiceResponse::RequestOnBoardMonitoringTestResultsForNoneContMonitoringSystem => 0x46,
            ServiceResponse::RequestOnBoardMonitoringTestResultsForContMonitoringSystem => 0x47,
            ServiceResponse::RequestControlOfOnBoardSystem => 0x48,
            ServiceResponse::RequestVehicleInformation => 0x49,
            ServiceResponse::StartDiagnosticSession => 0x50,
            ServiceResponse::ECUReset => 0x51,
            ServiceResponse::ReadFreezeFrameData => 0x52,
            ServiceResponse::ReadDiagnosticTroubleCodes => 0x53,
            ServiceResponse::ClearDiagnosticInformation => 0x54,
            ServiceResponse::ReadStatusOfDTC => 0x57,
            ServiceResponse::ReadDTCByStatus => 0x58,
            ServiceResponse::ReadECUIdentification => 0x5A,
            ServiceResponse::StopDiagnosticSession => 0x60,
            ServiceResponse::ReadDataByLocalIdentifier => 0x61,
            ServiceResponse::ReadDataByCommonIdentifier => 0x62,
            ServiceResponse::ReadMemoryByAddress => 0x63,
            ServiceResponse::SetDataRates => 0x66,
            ServiceResponse::SecurityAccess => 0x67,
            ServiceResponse::DynamicallyDefineLocalIdentifier => 0x6C,
            ServiceResponse::WriteDataByCommonIdentifier => 0x6E,
            ServiceResponse::InputOutputControlByCommonIdentifier => 0x6F,
            ServiceResponse::InputOutputControlByLocalIdentifier => 0x70,
            ServiceResponse::StartRoutineByLocalIdentifier => 0x71,
            ServiceResponse::StopRoutineByLocalIdentifier => 0x72,
            ServiceResponse::RequestRoutineResultsByLocalIdentifier => 0x73,
            ServiceResponse::RequestDownload => 0x74,
            ServiceResponse::RequestUpload => 0x75,
            ServiceResponse::TransferData => 0x76,
            ServiceResponse::RequestTransferExit => 0x77,
            ServiceResponse::StartRoutineByAddress => 0x78,
            ServiceResponse::StopRoutineByAddress => 0x79,
            ServiceResponse::ResquestRoutineResultsByAddress => 0x7A,
            ServiceResponse::WriteDataByLocalIdentifier => 0x7B,
            ServiceResponse::WriteMemoryByAddress => 0x7D,
            ServiceResponse::TesterPresent => 0x7E,
            ServiceResponse::Reserved => 0xFF,
            ServiceResponse::ESCCode => 0xC0,
            ServiceResponse::StartCommunication => 0xC1,
            ServiceResponse::StopCommunication => 0xC2,
            ServiceResponse::AccessTimingParameter => 0xC3,
        }
    }

    /// Decodes a wire byte; `None` when no response identifier has that byte.
    pub fn from_repr(discriminant: u8) -> (r: Option<ServiceResponse>)
        ensures
            r == ServiceResponse::from_code(discriminant),
    {
        let r = match discriminant {
            0x7F => Some(ServiceResponse::NegativeResponse),
            0x41 => Some(ServiceResponse::RequestCurrentPowertrainDiagnosticData),
            0x42 => Some(ServiceResponse::RequestPowertrainFreezeFrameData),
            0x43 => Some(ServiceResponse::RequestEmissionRelatedDiagnosticInformation),
            0x44 => Some(ServiceResponse::ClearResetEmissionRelatedDiagnosticInformation),
            0x45 => Some(ServiceResponse::RequestOxygenSensorMonitoringTestResults),
            0x46 => Some(ServiceResponse::RequestOnBoardMonitoringTestResultsForNoneContMonitoringSystem),
            0x47 => Some(ServiceResponse::RequestOnBoardMonitoringTestResultsForContMonitoringSystem),
            0x48 => Some(ServiceResponse::RequestControlOfOnBoardSystem),
            0x49 => Some(ServiceResponse::RequestVehicleInformation),
            0x50 => Some(ServiceResponse::StartDiagnosticSession),
            0x51 => Some(ServiceResponse::ECUReset),
            0x52 => Some(ServiceResponse::ReadFreezeFrameData),
            0x53 => Some(ServiceResponse::ReadDiagnosticTroubleCodes),
            0x54 => Some(ServiceResponse::ClearDiagnosticInformation),
            0x57 => Some(ServiceResponse::ReadStatusOfDTC),
            0x58 => Some(ServiceResponse::ReadDTCByStatus),
            0x5A => Some(ServiceResponse::ReadECUIdentification),
            0x60 => Some(ServiceResponse::StopDiagnosticSession),
            0x61 => Some(ServiceResponse::ReadDataByLocalIdentifier),
            0x62 => Some(ServiceResponse::ReadDataByCommonIdentifier),
            0x63 => Some(ServiceResponse::ReadMemoryByAddress),
            0x66 => Some(ServiceResponse::SetDataRates),
            0x67 => Some(ServiceResponse::SecurityAccess),
            0x6C => Some(ServiceResponse::DynamicallyDefineLocalIdentifier),
            0x6E => Some(ServiceResponse::WriteDataByCommonIdentifier),
            0x6F => Some(ServiceResponse::InputOutputControlByCommonIdentifier),
            0x70 => Some(ServiceResponse::InputOutputControlByLocalIdentifier),
            0x71 => Some(ServiceResponse::StartRoutineByLocalIdentifier),
            0x72 => Some(ServiceResponse::StopRoutineByLocalIdentifier),
            0x73 => Some(ServiceResponse::RequestRoutineResultsByLocalIdentifier),
            0x74 => Some(ServiceResponse::RequestDownload),
            0x75 => Some(ServiceResponse::RequestUpload),
            0x76 => Some(ServiceResponse::TransferData),
            0x77 => Some(ServiceResponse::RequestTransferExit),
            0x78 => Some(ServiceResponse::StartRoutineByAddress),
            0x79 => Some(ServiceResponse::StopRoutineByAddress),
            0x7A => Some(ServiceResponse::ResquestRoutineResultsByAddress),
            0x7B => Some(ServiceResponse::WriteDataByLocalIdentifier),
            0x7D => Some(ServiceResponse::WriteMemoryByAddress),
            0x7E => Some(ServiceResponse::TesterPresent),
            0xFF => Some(ServiceResponse::Reserved),
            0xC0 => Some(ServiceResponse::ESCCode),
            0xC1 => Some(ServiceResponse::StartCommunication),
            0xC2 => Some(ServiceResponse::StopCommunication),
            0xC3 => Some(ServiceResponse::AccessTimingParameter),
            _ => None,
        };
        proof {
            if let Some(v) = r {
                assert(v.code() == discriminant);
            }
        }
        r
    }

    /// `from_code` inverts `code`: a byte decodes to a response identifier exactly when that response identifier encodes to the byte.
    pub proof fn lemma_code_round_trip(v: ServiceResponse, code: u8)
        ensures
            ServiceResponse::from_code(v.code()) == Some(v),
            ServiceResponse::from_code(code) == Some(v) <==> v.code() == code,
    {
    }
}

/// The service byte of a frame: a request or a response.
#[derive(Debug, Clone, Copy, PartialEq, Eq, Structural)]
pub enum Service {
    Query(ServiceId),
    Response(ServiceResponse),
}

impl Service {
    /// The byte that stands for this service on the wire.
    pub open spec fn code(self) -> u8 {
        match self {
            Service::Query(id) => id.code(),
            Service::Response(response) => response.code(),
        }
    }

    /// The service that `code` stands for: a request where a request has that
    /// byte, else a response where a response has it.
    pub open spec fn from_code(code: u8) -> Option<Service> {
        match ServiceId::from_code(code) {
            Some(id) => Some(Service::Query(id)),
            None => match ServiceResponse::from_code(code) {
                Some(response) => Some(Service::Response(response)),
                None => None,
            },
        }
    }

    /// Encodes the service as its wire byte.
    pub fn byte(self) -> (b: u8)
        ensures
            b == self.code(),
    {
        match self {
            Service::Query(id) => id.byte(),
            Service::Response(response) => response.byte(),
        }
    }

    /// Decodes a service byte; `Error::InvalidService` when neither a request
    /// nor a response has that byte.
    pub fn try_from_byte(value: u8) -> (r: Result<Service, Error>)
        ensures
            match r {
                Ok(service) => Service::from_code(value) == Some(service),
                Err(e) => Service::from_code(value) is None && e is InvalidService,
            },
    {
        if let Some(id) = ServiceId::from_repr(value) {
            Ok(Service::Query(id))
        } else if let Some(response) = ServiceResponse::from_repr(value) {
            Ok(Service::Response(response))
        } else {
            Err(Error::InvalidService)
        }
    }

    /// No byte is both a request and a response, so `from_code` inverts `code`.
    pub proof fn lemma_code_round_trip(service: Service)
        ensures
            Service::from_code(service.code()) == Some(service),
    {
        match service {
            Service::Query(id) => {
                ServiceId::lemma_code_round_trip(id, id.code());
            },
            Service::Response(response) => {
                ServiceResponse::lemma_code_round_trip(response, response.code());
                assert(forall|id: ServiceId| id.code() != response.code());
            },
        }
    }

    /// A byte that decodes to a service is the code of that service.
    pub proof fn lemma_from_code_is_code(code: u8, service: Service)
        requires
            Service::from_code(code) == Some(service),
        ensures
            service.code() == code,
    {
    }
}

} // verus!
