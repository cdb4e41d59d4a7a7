//! The requests that the tester sends, and the frame that each becomes.

use super::baud_rate_to_byte;
use super::baud_byte;
use super::constants::{
    AddressMode, CompressionFormat, DiagnosticMode, DynamicDefinitionMode, EncryptionFormat,
    ReadMode, Service, ServiceId, TimingParameter, data_format_byte, spec_data_format_byte,
};
use super::raw_message::{MAX_DATA_LENGTH, RawFrame, RawMessage, spec_decode};
use crate::ErrorView;
use vstd::prelude::*;

verus! {

/// Direction of a data transfer, seen from the control unit.
#[derive(Debug, Clone, Copy, PartialEq, Eq, Structural)]
pub enum TransferType {
    /// From the tester into the control unit.
    Download,
    /// From the control unit to the tester.
    Upload,
}

/// A request of the tester.
#[allow(inconsistent_fields)]
#[derive(Debug, Clone, PartialEq, Eq)]
pub enum Message {
    /// Enter a diagnostic mode, at a new line speed if one is given.
    StartDiagnosticSession(DiagnosticMode, Option<u32>),
    StopCommunication,
    RequestSecuritySeed,
    ClearLocalIdentifier(u8),
    /// Identifier, mode, largest number of responses.
    ReadLocalIdentifier(u8, ReadMode, u8),
    WriteLocalIdentifier(u8, Vec<u8>),
    /// Identifier, length, address.
    DefineLocalIdentifierAddress(u8, u8, u32),
    SendSecurityKey(u32),
    /// Whether the control unit should answer.
    TesterPresent(bool),
    StopDiagnosticSession,
    ReadMemoryByAddress {
        address: u32,
        size: u8,
        mode: Option<ReadMode>,
        /// Only looked at by the control unit where `mode` is given.
        max_response_count: Option<u8>,
    },
    RequestDataTransfer {
        transfer_type: TransferType,
        address: u32,
        size: u32,
        encryption: EncryptionFormat,
        compression: CompressionFormat,
    },
    /// Ask for the next block of an upload.
    RequestData,
    /// One block of a download.
    SendData(Vec<u8>),
    GetCurrentTiming,
    GetDefaultTiming,
    GetTimingLimits,
    ChangeTimingParameters {
        /// Least time between a request and its response, 0.5 ms a bit.
        p2min: u8,
        /// Most time between a request and its response, 25 ms a bit.
        p2max: u8,
        /// Least time between a response and the next request, 0.5 ms a bit.
        p3min: u8,
        /// Most time between a response and the next request, 250 ms a bit.
        p3max: u8,
        /// Least time between two bytes of the tester, 0.5 ms a bit.
        p4min: u8,
    },
}

/// A `Message` as a mathematical value.
#[allow(inconsistent_fields)]
pub enum MessageView {
    StartDiagnosticSession(DiagnosticMode, Option<u32>),
    StopCommunication,
    RequestSecuritySeed,
    ClearLocalIdentifier(u8),
    ReadLocalIdentifier(u8, ReadMode, u8),
    WriteLocalIdentifier(u8, Seq<u8>),
    DefineLocalIdentifierAddress(u8, u8, u32),
    SendSecurityKey(u32),
    TesterPresent(bool),
    StopDiagnosticSession,
    ReadMemoryByAddress { address: u32, size: u8, mode: Option<ReadMode>, max_response_count: Option<u8> },
    RequestDataTransfer {
        transfer_type: TransferType,
        address: u32,
        size: u32,
        encryption: EncryptionFormat,
        compression: CompressionFormat,
    },
    RequestData,
    SendData(Seq<u8>),
    GetCurrentTiming,
    GetDefaultTiming,
    GetTimingLimits,
    ChangeTimingParameters { p2min: u8, p2max: u8, p3min: u8, p3max: u8, p4min: u8 },
}

impl View for Message {
    type V = MessageView;

    open spec fn view(&self) -> MessageView {
        match self {
            Message::StartDiagnosticSession(mode, baud) => MessageView::StartDiagnosticSession(
                *mode,
                *baud,
            ),
            Message::StopCommunication => MessageView::StopCommunication,
            Message::RequestSecuritySeed => MessageView::RequestSecuritySeed,
            Message::ClearLocalIdentifier(id) => MessageView::ClearLocalIdentifier(*id),
            Message::ReadLocalIdentifier(id, mode, count) => MessageView::ReadLocalIdentifier(
                *id,
                *mode,
                *count,
            ),
            Message::WriteLocalIdentifier(id, items) => MessageView::WriteLocalIdentifier(
                *id,
                items@,
            ),
            Message::DefineLocalIdentifierAddress(id, size, address) => {
                MessageView::DefineLocalIdentifierAddress(*id, *size, *address)
            },
            Message::SendSecurityKey(key) => MessageView::SendSecurityKey(*key),
            Message::TesterPresent(respond) => MessageView::TesterPresent(*respond),
            Message::StopDiagnosticSession => MessageView::StopDiagnosticSession,
            Message::ReadMemoryByAddress { address, size, mode, max_response_count } => {
                MessageView::ReadMemoryByAddress {
                    address: *address,
                    size: *size,
                    mode: *mode,
                    max_response_count: *max_response_count,
                }
            },
            Message::RequestDataTransfer { transfer_type, address, size, encryption, compression } => {
                MessageView::RequestDataTransfer {
                    transfer_type: *transfer_type,
                    address: *address,
                    size: *size,
                    encryption: *encryption,
                    compression: *compression,
                }
            },
            Message::RequestData => MessageView::RequestData,
            Message::SendData(block) => MessageView::SendData(block@),
            Message::GetCurrentTiming => MessageView::GetCurrentTiming,
            Message::GetDefaultTiming => MessageView::GetDefaultTiming,
            Message::GetTimingLimits => MessageView::GetTimingLimits,
            Message::ChangeTimingParameters { p2min, p2max, p3min, p3max, p4min } => {
                MessageView::ChangeTimingParameters {
                    p2min: *p2min,
                    p2max: *p2max,
                    p3min: *p3min,
                    p3max: *p3max,
                    p4min: *p4min,
                }
            },
        }
    }
}

/// The low three bytes of a number, most significant first: addresses and
/// sizes travel as 24 bits, the top byte of the 32 is dropped.
pub open spec fn be_bytes3(value: u32) -> Seq<u8> {
    seq![((value / 0x1_0000) % 0x100) as u8, ((value / 0x100) % 0x100) as u8, (value % 0x100) as u8]
}

/// The four bytes of a number, most significant first.
pub open spec fn be_bytes4(value: u32) -> Seq<u8> {
    seq![
        (value / 0x100_0000) as u8,
        ((value / 0x1_0000) % 0x100) as u8,
        ((value / 0x100) % 0x100) as u8,
        (value % 0x100) as u8,
    ]
}

/// A byte where one is given, nothing else.
pub open spec fn optional_byte(byte: Option<u8>) -> Seq<u8> {
    match byte {
        Some(b) => seq![b],
        None => Seq::<u8>::empty(),
    }
}

impl MessageView {
    /// The service that the request asks for.
    pub open spec fn service(self) -> ServiceId {
        match self {
            MessageView::StartDiagnosticSession(..) => ServiceId::StartDiagnosticSession,
            MessageView::StopCommunication => ServiceId::StopCommunication,
            MessageView::RequestSecuritySeed => ServiceId::SecurityAccess,
            MessageView::ClearLocalIdentifier(..) => ServiceId::DynamicallyDefineLocalIdentifier,
            MessageView::ReadLocalIdentifier(..) => ServiceId::ReadDataByLocalIdentifier,
            MessageView::WriteLocalIdentifier(..) => ServiceId::WriteDataByLocalIdentifier,
            MessageView::DefineLocalIdentifierAddress(..) => {
                ServiceId::DynamicallyDefineLocalIdentifier
            },
            MessageView::SendSecurityKey(..) => ServiceId::SecurityAccess,
            MessageView::TesterPresent(..) => ServiceId::TesterPresent,
            MessageView::StopDiagnosticSession => ServiceId::StopDiagnosticSession,
            MessageView::ReadMemoryByAddress { .. } => ServiceId::ReadMemoryByAddress,
            MessageView::RequestDataTransfer { transfer_type, .. } => match transfer_type {
                TransferType::Download => ServiceId::RequestDownload,
                TransferType::Upload => ServiceId::RequestUpload,
            },
            MessageView::RequestData => ServiceId::TransferData,
            MessageView::SendData(..) => ServiceId::TransferData,
            MessageView::GetCurrentTiming => ServiceId::AccessTimingParameter,
            MessageView::GetDefaultTiming => ServiceId::AccessTimingParameter,
            MessageView::GetTimingLimits => ServiceId::AccessTimingParameter,
            MessageView::ChangeTimingParameters { .. } => ServiceId::AccessTimingParameter,
        }
    }

    /// The payload of the request.
    pub open spec fn payload(self) -> Seq<u8> {
        match self {
            MessageView::StartDiagnosticSession(mode, baud) => seq![mode.code()] + (match baud {
                Some(rate) => seq![baud_byte(rate)],
                None => Seq::<u8>::empty(),
            }),
            MessageView::StopCommunication => Seq::<u8>::empty(),
            MessageView::RequestSecuritySeed => seq![0x01u8],
            MessageView::ClearLocalIdentifier(id) => seq![
                id,
                DynamicDefinitionMode::ClearDynamicallyDefinedLocalIdentifier.code(),
            ],
            MessageView::ReadLocalIdentifier(id, mode, count) => seq![id, mode.code(), count],
            MessageView::WriteLocalIdentifier(id, items) => seq![id] + items,
            MessageView::DefineLocalIdentifierAddress(id, size, address) => seq![
                id,
                DynamicDefinitionMode::DefineByMemoryAddress.code(),
                0x01u8,
                size,
            ] + be_bytes3(address),
            MessageView::SendSecurityKey(key) => seq![0x02u8] + be_bytes4(key),
            MessageView::TesterPresent(respond) => seq![if respond { 0x01u8 } else { 0x02u8 }],
            MessageView::StopDiagnosticSession => Seq::<u8>::empty(),
            MessageView::ReadMemoryByAddress { address, size, mode, max_response_count } => {
                be_bytes3(address) + seq![size] + (match mode {
                    Some(m) => seq![m.code()],
                    None => Seq::<u8>::empty(),
                }) + optional_byte(max_response_count)
            },
            MessageView::RequestDataTransfer { address, size, encryption, compression, .. } => {
                be_bytes3(address) + seq![spec_data_format_byte(compression, encryption)]
                    + be_bytes3(size)
            },
            MessageView::RequestData => Seq::<u8>::empty(),
            MessageView::SendData(block) => block,
            MessageView::GetCurrentTiming => seq![TimingParameter::Read.code()],
            MessageView::GetDefaultTiming => seq![TimingParameter::Defaults.code()],
            MessageView::GetTimingLimits => seq![TimingParameter::Limits.code()],
            MessageView::ChangeTimingParameters { p2min, p2max, p3min, p3max, p4min } => seq![
                TimingParameter::SetParameters.code(),
                p2min,
                p2max,
                p3min,
                p3max,
                p4min,
            ],
        }
    }

    /// A request that fits a frame: its payload leaves room for the service
    /// byte, and a line speed that it names has a baud byte.
    pub open spec fn encodable(self) -> bool {
        &&& self.payload().len() < MAX_DATA_LENGTH
        &&& self matches MessageView::StartDiagnosticSession(_, Some(rate)) ==> rate >= 6400
    }

    /// The frame of the request: unaddressed, with the request's service and payload.
    pub open spec fn frame(self) -> RawFrame {
        RawFrame {
            mode: AddressMode::NoAddress,
            target: None,
            source: None,
            service: Service::Query(self.service()),
            data: self.payload(),
        }
    }
}

/// Appends the low three bytes of `value`, most significant first.
fn push_be3(data: &mut Vec<u8>, value: u32)
    ensures
        final(data)@ == old(data)@ + be_bytes3(value),
{
    data.push(((value / 0x1_0000) % 0x100) as u8);
    data.push(((value / 0x100) % 0x100) as u8);
    data.push((value % 0x100) as u8);
    assert(data@ =~= old(data)@ + be_bytes3(value));
}

impl Message {
    /// Whether the request fits a frame, so that `raw` can be called on it.
    pub fn is_encodable(&self) -> (r: bool)
        ensures
            r == self@.encodable(),
    {
        match self {
            Message::WriteLocalIdentifier(_, items) => {
                assert(self@.payload().len() == 1 + items@.len());
                items.len() < MAX_DATA_LENGTH - 1
            },
            Message::SendData(block) => block.len() < MAX_DATA_LENGTH,
            Message::StartDiagnosticSession(_, Some(rate)) => *rate >= 6400,
            _ => true,
        }
    }

    /// The unaddressed frame that carries the request.
    pub fn raw(self) -> (r: RawMessage)
        requires
            self@.encodable(),
        ensures
            r@ == self@.frame(),
            r@.wf(),
    {
        let service;
        let mut data: Vec<u8> = Vec::new();
        let ghost view = self@;
        match self {
            Message::ChangeTimingParameters { p2min, p2max, p3min, p3max, p4min } => {
                service = ServiceId::AccessTimingParameter;
                data.push(TimingParameter::SetParameters.byte());
                data.push(p2min);
                data.push(p2max);
                data.push(p3min);
                data.push(p3max);
                data.push(p4min);
            },
            Message::GetCurrentTiming => {
                service = ServiceId::AccessTimingParameter;
                data.push(TimingParameter::Read.byte());
            },
            Message::GetTimingLimits => {
                service = ServiceId::AccessTimingParameter;
                data.push(TimingParameter::Limits.byte());
            },
            Message::GetDefaultTiming => {
                service = ServiceId::AccessTimingParameter;
                data.push(TimingParameter::Defaults.byte());
            },
            Message::RequestData => {
                service = ServiceId::TransferData;
            },
            Message::SendData(mut block) => {
                service = ServiceId::TransferData;
                data.append(&mut block);
            },
            Message::RequestDataTransfer { transfer_type, address, size, encryption, compression } => {
                service = match transfer_type {
                    TransferType::Download => ServiceId::RequestDownload,
                    TransferType::Upload => ServiceId::RequestUpload,
                };
                push_be3(&mut data, address);
                data.push(data_format_byte(compression, encryption));
                push_be3(&mut data, size);
            },
            Message::ReadMemoryByAddress { address, size, mode, max_response_count } => {
                service = ServiceId::ReadMemoryByAddress;
                push_be3(&mut data, address);
                data.push(size);
                if let Some(mode) = mode {
                    data.push(mode.byte());
                }
                if let Some(count) = max_response_count {
                    data.push(count);
                }
            },
            Message::StopDiagnosticSession => {
                service = ServiceId::StopDiagnosticSession;
            },
            Message::StartDiagnosticSession(diagnostic_mode, baud) => {
                service = ServiceId::StartDiagnosticSession;
                data.push(diagnostic_mode.byte());
                if let Some(rate) = baud {
                    data.push(baud_rate_to_byte(rate));
                }
            },
            Message::RequestSecuritySeed => {
                service = ServiceId::SecurityAccess;
                data.push(0x01);
            },
            Message::ClearLocalIdentifier(id) => {
                service = ServiceId::DynamicallyDefineLocalIdentifier;
                data.push(id);
                data.push(DynamicDefinitionMode::ClearDynamicallyDefinedLocalIdentifier.byte());
            },
            Message::ReadLocalIdentifier(id, mode, count) => {
                service = ServiceId::ReadDataByLocalIdentifier;
                data.push(id);
                data.push(mode.byte());
                data.push(count);
            },
            Message::WriteLocalIdentifier(id, mut items) => {
                service = ServiceId::WriteDataByLocalIdentifier;
                data.push(id);
                data.append(&mut items);
            },
            Message::DefineLocalIdentifierAddress(id, size, address) => {
                service = ServiceId::DynamicallyDefineLocalIdentifier;
                data.push(id);
                data.push(DynamicDefinitionMode::DefineByMemoryAddress.byte());
                data.push(0x01);
                data.push(size);
                push_be3(&mut data, address);
            },
            Message::SendSecurityKey(key) => {
                service = ServiceId::SecurityAccess;
                data.push(0x02);
                data.push((key / 0x100_0000) as u8);
                data.push(((key / 0x1_0000) % 0x100) as u8);
                data.push(((key / 0x100) % 0x100) as u8);
                data.push((key % 0x100) as u8);
            },
            Message::TesterPresent(respond) => {
                service = ServiceId::TesterPresent;
                data.push(if respond { 0x01 } else { 0x02 });
            },
            Message::StopCommunication => {
                service = ServiceId::StopCommunication;
            },
        }
        assert(data@ =~= view.payload());
        assert(service == view.service());
        RawMessage::new_simple_query(service, data)
    }
}

/// What a request puts on the wire decodes to the frame of the request, and
/// that frame encodes to the same bytes again.
pub proof fn lemma_message_round_trip(message: MessageView)
    requires
        message.encodable(),
    ensures
        spec_decode(message.frame().encode()) == Ok::<(RawFrame, nat), ErrorView>(
            (message.frame(), message.frame().encode().len()),
        ),
        spec_decode(message.frame().encode())->Ok_0.0.encode() == message.frame().encode(),
{
    super::raw_message::lemma_decode_encode(message.frame(), Seq::<u8>::empty());
    assert(message.frame().encode() + Seq::<u8>::empty() =~= message.frame().encode());
}

} // verus!
