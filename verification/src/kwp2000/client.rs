//! The session client.
//!
//! The client does no I/O. Each operation is started by the method of its
//! name, which says what to do first; whatever performs the I/O does it and
//! reports back, with `respond` for a response, `baud_switched` once the line
//! speed was changed and `timed_out` where no response came, and is told what
//! to do next, until the operation is done or has failed.

use super::constants::{
    CompressionFormat, DiagnosticMode, EncryptionFormat, ReadMode, SecurityLevel, ServiceError,
    ServiceId, TimingParameter,
};
use super::message::{Message, MessageView, TransferType};
use super::raw_message::MAX_DATA_LENGTH;
use super::response::{ProcessError, Response, ResponseView};
use super::{security_key, security_key_from_seed};
use crate::bcb::{encrypt_and_compress, lemma_transfer_block_fits, transfer_block};
use crate::{Error, ErrorView};
use vstd::prelude::*;
use vstd::slice::slice_subrange;

verus! {

/// The local identifier that the client defines for its own reads and writes.
pub const SCRATCH_IDENTIFIER: u8 = 0xF0;

/// Where an ME7 keeps its count of failed security accesses, two bytes of RAM.
pub const LOCKOUT_COUNTER_ADDRESS: u32 = 0x0038_0DA8;

/// Smallest block that a download can make progress with.
pub const MIN_BLOCK: usize = 5;

/// Largest block that fits a frame beside the service byte.
pub const MAX_BLOCK: usize = 254;

/// The mode of the session, as far as the client knows it.
#[derive(Debug, Clone, Copy, PartialEq, Eq, Structural)]
pub enum SessionMode {
    /// No mode was entered yet, or the session was stopped.
    Unknown,
    /// The control unit confirmed this mode.
    Active(DiagnosticMode),
    /// Communication was stopped: nothing more can be done.
    Disconnected,
}

/// Whether security access was granted.
#[derive(Debug, Clone, Copy, PartialEq, Eq, Structural)]
pub enum Security {
    Locked,
    Granted(SecurityLevel),
}

/// What follows a write through the scratch identifier.
#[derive(Debug, Clone, Copy, PartialEq, Eq, Structural)]
pub enum Resume {
    /// The write was what was asked for.
    Finish,
    /// The write cleared the lockout counter: ask for security access again.
    RetrySecurity,
}

/// What the scratch identifier is defined for.
#[derive(Debug, Clone, Copy, PartialEq, Eq, Structural)]
pub enum Purpose {
    Read,
    Write(Resume),
}

/// The operation in progress, by the event that the client waits for.
#[derive(Debug, Clone, Copy, PartialEq, Eq, Structural)]
pub enum Task {
    /// No operation is in progress.
    Idle,
    /// The scratch identifier is being cleared, to be defined at `address`.
    Clearing { address: u32, length: u8, purpose: Purpose },
    /// The scratch identifier is being defined.
    Defining { purpose: Purpose },
    /// The scratch identifier is being written.
    Writing { resume: Resume },
    /// The scratch identifier is being read.
    Reading,
    /// An upload was asked for.
    UploadRequested,
    /// A block of an upload was asked for.
    Uploading,
    /// A download was asked for.
    DownloadRequested,
    /// A block of a download was sent.
    Downloading,
    /// The timing limits were asked for.
    TimingLimitsRequested,
    /// New timing was sent.
    TimingChangeRequested,
    /// The diagnostic session is being stopped, before communication is.
    StoppingSession,
    /// Communication is being stopped.
    StoppingCommunication,
    /// A mode was asked for.
    ModeRequested(DiagnosticMode),
    /// The line speed is being changed; `matched` says whether the control
    /// unit entered the mode that was asked for.
    BaudSwitching { matched: bool },
    /// A seed was asked for; `bypass` says whether a lockout may be cleared.
    SeedRequested { bypass: bool },
    /// The key was sent.
    KeySent { bypass: bool },
}

/// What is to be done next for the operation in progress.
#[derive(Debug, PartialEq, Eq)]
pub enum Action {
    /// Send the message, then hand the next response to `respond`.
    Send(Message),
    /// Send nothing; hand the next response to `respond`.
    Wait,
    /// Change the line speed before anything else is sent, then call `baud_switched`.
    SwitchBaud(u32),
    /// The operation is done. The bytes are what it read, if it reads.
    Done(Vec<u8>),
    /// The operation has failed.
    Fail(Error),
}

/// An `Action` as a mathematical value.
pub enum ActionView {
    Send(MessageView),
    Wait,
    SwitchBaud(u32),
    Done(Seq<u8>),
    Fail(ErrorView),
}

impl View for Action {
    type V = ActionView;

    open spec fn view(&self) -> ActionView {
        match self {
            Action::Send(message) => ActionView::Send(message@),
            Action::Wait => ActionView::Wait,
            Action::SwitchBaud(baud) => ActionView::SwitchBaud(*baud),
            Action::Done(data) => ActionView::Done(data@),
            Action::Fail(error) => ActionView::Fail(error@),
        }
    }
}

/// A session with a control unit: its mode, its security state and the
/// operation in progress.
#[derive(Debug)]
pub struct Client {
    mode: SessionMode,
    security: Security,
    task: Task,
    /// Data of the operation: what is to be written, or what was read so far.
    buffer: Vec<u8>,
    /// Key of a download.
    key: Vec<u8>,
    /// Bytes of the buffer that the blocks sent so far stand for.
    sent: usize,
    /// Place in the key at which the next block is encrypted.
    key_index: usize,
    /// Largest block of a download.
    max_block: usize,
}

/// A `Client` as a mathematical value.
pub struct ClientView {
    pub mode: SessionMode,
    pub security: Security,
    pub task: Task,
    pub buffer: Seq<u8>,
    pub key: Seq<u8>,
    pub sent: nat,
    pub key_index: nat,
    pub max_block: nat,
}

/// Whether a negative response says that security access is locked out for a while.
pub open spec fn is_lockout(error: ProcessError) -> bool {
    error.service == ServiceId::SecurityAccess && (error.error == ServiceError::TooManyAttempts
        || error.error == ServiceError::RequestingTooFast)
}

/// The array of the four bytes of a seed.
pub open spec fn seed_array(seed: Seq<u8>) -> [u8; 4] {
    [seed[0], seed[1], seed[2], seed[3]]
}

impl ClientView {
    /// What holds of the data of the operation in progress, in every state
    /// that a `Client` is ever in: what is to be written fits a frame, and a
    /// download has a key, a place in it and a place in its data, and, once
    /// it sends blocks, a block size that moves it on and fits a frame.
    pub open spec fn wf(self) -> bool {
        &&& (self.task matches Task::Clearing { purpose: Purpose::Write(_), .. })
            ==> self.buffer.len() + 1 < MAX_DATA_LENGTH
        &&& (self.task matches Task::Defining { purpose: Purpose::Write(_) }) ==> self.buffer.len()
            + 1 < MAX_DATA_LENGTH
        &&& (self.task is DownloadRequested || self.task is Downloading) ==> self.key.len() > 0
            && self.sent <= self.buffer.len() && self.key_index < self.key.len()
        &&& self.task is Downloading ==> MIN_BLOCK <= self.max_block <= MAX_BLOCK
    }

    /// The state with another operation in progress.
    pub open spec fn with_task(self, task: Task) -> ClientView {
        ClientView { task, ..self }
    }

    /// The operation ends with an error.
    pub open spec fn fail(self, error: ErrorView) -> (ClientView, ActionView) {
        (self.with_task(Task::Idle), ActionView::Fail(error))
    }

    /// The operation ends because the response is none that it allows.
    pub open spec fn refuse(self, response: ResponseView) -> (ClientView, ActionView) {
        self.fail(ErrorView::UnexpectedResponse(response))
    }

    /// The operation is done and has read nothing.
    pub open spec fn finish(self) -> (ClientView, ActionView) {
        (self.with_task(Task::Idle), ActionView::Done(Seq::<u8>::empty()))
    }

    /// The operation is done; what the buffer holds is handed out.
    pub open spec fn hand_out(self) -> (ClientView, ActionView) {
        (
            ClientView { task: Task::Idle, buffer: Seq::<u8>::empty(), ..self },
            ActionView::Done(self.buffer),
        )
    }

    /// Whether an operation can be started: none is in progress and
    /// communication was not stopped.
    pub open spec fn ready(self) -> bool {
        self.task == Task::Idle && self.mode != SessionMode::Disconnected
    }

    /// Starts an operation with `message`, where the session is ready and
    /// `allowed`; the buffer is set to `buffer`.
    pub open spec fn begin(self, allowed: bool, task: Task, buffer: Seq<u8>, message: MessageView) -> (
        ClientView,
        ActionView,
    ) {
        if self.ready() && allowed {
            (ClientView { task, buffer, ..self }, ActionView::Send(message))
        } else {
            (self, ActionView::Fail(ErrorView::UnexpectedState))
        }
    }

    /// The next block of a download is sent, the first one if `first`. Where
    /// a later block would stand for no data, what is left cannot be packed
    /// and the download fails.
    pub open spec fn send_block(self, first: bool) -> (ClientView, ActionView) {
        let block = transfer_block(
            self.max_block as int,
            self.buffer.skip(self.sent as int),
            self.key_index as int,
            self.key,
            first,
        );
        if block.0 == 0 && !first {
            self.fail(ErrorView::UnalignedData)
        } else {
            (
                ClientView {
                    task: Task::Downloading,
                    sent: self.sent + block.0,
                    key_index: ((self.key_index + block.1.len()) % self.key.len()) as nat,
                    ..self
                },
                ActionView::Send(MessageView::SendData(block.1)),
            )
        }
    }

    /// The control unit refuses security access for a while. Where the
    /// operation may clear the lockout it starts to, once; else it fails.
    pub open spec fn locked_out(self, bypass: bool) -> (ClientView, ActionView) {
        if bypass {
            (
                ClientView {
                    task: Task::Clearing {
                        address: LOCKOUT_COUNTER_ADDRESS,
                        length: 2,
                        purpose: Purpose::Write(Resume::RetrySecurity),
                    },
                    buffer: seq![0u8, 0u8],
                    ..self
                },
                ActionView::Send(MessageView::ClearLocalIdentifier(SCRATCH_IDENTIFIER)),
            )
        } else {
            self.fail(ErrorView::SecurityTimout)
        }
    }

    /// Security access is granted and the operation done.
    pub open spec fn granted(self, level: SecurityLevel) -> (ClientView, ActionView) {
        (
            ClientView { task: Task::Idle, security: Security::Granted(level), ..self },
            ActionView::Done(Seq::<u8>::empty()),
        )
    }

    /// After the scratch identifier was asked to be cleared: once the control
    /// unit confirms, the identifier is defined at the address.
    pub open spec fn when_clearing(
        self,
        address: u32,
        length: u8,
        purpose: Purpose,
        response: ResponseView,
    ) -> (ClientView, ActionView) {
        match response {
            ResponseView::LocalIdentifierDefined(id) if id == SCRATCH_IDENTIFIER => (
                self.with_task(Task::Defining { purpose }),
                ActionView::Send(
                    MessageView::DefineLocalIdentifierAddress(SCRATCH_IDENTIFIER, length, address),
                ),
            ),
            _ => self.refuse(response),
        }
    }

    /// After the scratch identifier was asked to be defined: once the control
    /// unit confirms, the identifier is written with what the buffer holds,
    /// or read.
    pub open spec fn when_defining(self, purpose: Purpose, response: ResponseView) -> (
        ClientView,
        ActionView,
    ) {
        match response {
            ResponseView::LocalIdentifierDefined(id) if id == SCRATCH_IDENTIFIER => match purpose {
                Purpose::Write(resume) => (
                    ClientView { task: Task::Writing { resume }, buffer: Seq::<u8>::empty(), ..self },
                    ActionView::Send(
                        MessageView::WriteLocalIdentifier(SCRATCH_IDENTIFIER, self.buffer),
                    ),
                ),
                Purpose::Read => (
                    self.with_task(Task::Reading),
                    ActionView::Send(
                        MessageView::ReadLocalIdentifier(SCRATCH_IDENTIFIER, ReadMode::Single, 1),
                    ),
                ),
            },
            _ => self.refuse(response),
        }
    }

    /// After the scratch identifier was written: once the control unit
    /// confirms, the write is done, or security access is asked for again.
    pub open spec fn when_writing(self, resume: Resume, response: ResponseView) -> (
        ClientView,
        ActionView,
    ) {
        match response {
            ResponseView::LocalIdentifierWritten(id) if id == SCRATCH_IDENTIFIER => match resume {
                Resume::Finish => self.finish(),
                Resume::RetrySecurity => (
                    self.with_task(Task::SeedRequested { bypass: false }),
                    ActionView::Send(MessageView::RequestSecuritySeed),
                ),
            },
            _ => self.refuse(response),
        }
    }

    /// After the scratch identifier was asked to be read: the bytes that come
    /// are handed out.
    pub open spec fn when_reading(self, response: ResponseView) -> (ClientView, ActionView) {
        match response {
            ResponseView::LocalIdentifierRead(_, data) => (
                self.with_task(Task::Idle),
                ActionView::Done(data),
            ),
            _ => self.refuse(response),
        }
    }

    /// After an upload was asked for: once the control unit confirms, the
    /// first block is asked for.
    pub open spec fn when_upload_requested(self, response: ResponseView) -> (ClientView, ActionView) {
        match response {
            ResponseView::UploadConfirmation(_) => (
                self.with_task(Task::Uploading),
                ActionView::Send(MessageView::RequestData),
            ),
            _ => self.refuse(response),
        }
    }

    /// After a block of an upload was asked for: a block with data is added
    /// to the buffer and the next one asked for; an empty one ends the upload,
    /// and what the buffer holds is handed out.
    pub open spec fn when_uploading(self, response: ResponseView) -> (ClientView, ActionView) {
        match response {
            ResponseView::DataTransfer(data) => if data.len() > 0 {
                (
                    ClientView { buffer: self.buffer + data, ..self },
                    ActionView::Send(MessageView::RequestData),
                )
            } else {
                self.hand_out()
            },
            ResponseView::ReadyForMoreData => self.hand_out(),
            _ => self.refuse(response),
        }
    }

    /// After a download was asked for: once the control unit confirms, the
    /// first block is sent, in no more bytes than the control unit takes and
    /// a frame holds. A download of no data is done; one in blocks of less
    /// than `MIN_BLOCK` bytes fails.
    pub open spec fn when_download_requested(self, response: ResponseView) -> (
        ClientView,
        ActionView,
    ) {
        match response {
            ResponseView::DownloadConfirmation(max) => if self.sent >= self.buffer.len() {
                self.finish()
            } else if max < MIN_BLOCK {
                self.fail(ErrorView::UnexpectedValue)
            } else {
                (ClientView {
                    max_block: if max > MAX_BLOCK {
                        MAX_BLOCK as nat
                    } else {
                        max as nat
                    },
                    ..self
                }).send_block(true)
            },
            _ => self.refuse(response),
        }
    }

    /// After a block of a download was sent: once the control unit is ready,
    /// the next block is sent, or the download is done where no data is left.
    /// While the control unit says that it is still busy with the download,
    /// the client waits.
    pub open spec fn when_downloading(self, response: ResponseView) -> (ClientView, ActionView) {
        match response {
            ResponseView::ReadyForMoreData => if self.sent >= self.buffer.len() {
                self.finish()
            } else {
                self.send_block(false)
            },
            ResponseView::Error(error) if error.error == ServiceError::RoutineNotComplete
                && error.service == ServiceId::RequestDownload => (self, ActionView::Wait),
            _ => self.refuse(response),
        }
    }

    /// After the timing limits were asked for: the limits that come are sent
    /// back as the timing to adopt.
    pub open spec fn when_timing_limits_requested(self, response: ResponseView) -> (
        ClientView,
        ActionView,
    ) {
        match response {
            ResponseView::TimingParameters { kind, p2min, p2max, p3min, p3max, p4min } if kind
                == TimingParameter::Limits => (
                self.with_task(Task::TimingChangeRequested),
                ActionView::Send(
                    MessageView::ChangeTimingParameters { p2min, p2max, p3min, p3max, p4min },
                ),
            ),
            _ => self.refuse(response),
        }
    }

    /// After new timing was sent: once the control unit confirms, it is done.
    pub open spec fn when_timing_change_requested(self, response: ResponseView) -> (
        ClientView,
        ActionView,
    ) {
        match response {
            ResponseView::TimingSet => self.finish(),
            _ => self.refuse(response),
        }
    }

    /// After the diagnostic session was asked to stop: communication is
    /// stopped next, whether the control unit confirms or answers with an
    /// error. Where it confirms, the mode is unknown again and security
    /// access gone.
    pub open spec fn when_stopping_session(self, response: ResponseView) -> (ClientView, ActionView) {
        match response {
            ResponseView::DiagnosticSessionStopped => (
                ClientView {
                    task: Task::StoppingCommunication,
                    mode: SessionMode::Unknown,
                    security: Security::Locked,
                    ..self
                },
                ActionView::Send(MessageView::StopCommunication),
            ),
            ResponseView::Error(_) => (
                self.with_task(Task::StoppingCommunication),
                ActionView::Send(MessageView::StopCommunication),
            ),
            _ => self.refuse(response),
        }
    }

    /// After communication was asked to stop: once the control unit confirms,
    /// the session is disconnected.
    pub open spec fn when_stopping_communication(self, response: ResponseView) -> (
        ClientView,
        ActionView,
    ) {
        match response {
            ResponseView::CommunicationStopped => (
                ClientView {
                    task: Task::Idle,
                    mode: SessionMode::Disconnected,
                    security: Security::Locked,
                    ..self
                },
                ActionView::Done(Seq::<u8>::empty()),
            ),
            _ => self.refuse(response),
        }
    }

    /// After a mode was asked for: the mode that the control unit entered is
    /// the mode of the session, and security access is gone. Where the control
    /// unit names a new line speed, the speed is changed first. The change of
    /// mode fails where the control unit entered another mode than `target`.
    pub open spec fn when_mode_requested(self, target: DiagnosticMode, response: ResponseView) -> (
        ClientView,
        ActionView,
    ) {
        match response {
            ResponseView::StartedDiagnosticMode(mode, baud) => {
                let entered = ClientView {
                    mode: SessionMode::Active(mode),
                    security: Security::Locked,
                    ..self
                };
                match baud {
                    Some(rate) => (
                        entered.with_task(Task::BaudSwitching { matched: mode == target }),
                        ActionView::SwitchBaud(rate),
                    ),
                    None => if mode == target {
                        entered.finish()
                    } else {
                        entered.fail(ErrorView::UnexpectedMode)
                    },
                }
            },
            _ => self.refuse(response),
        }
    }

    /// After a seed was asked for: a seed of four bytes is answered with its
    /// key; access may also be granted at once, or be locked out.
    pub open spec fn when_seed_requested(self, bypass: bool, response: ResponseView) -> (
        ClientView,
        ActionView,
    ) {
        match response {
            ResponseView::SecurityAccessGranted(level) => self.granted(level),
            ResponseView::SecurityAccessSeed(_, seed) if seed.len() == 4 => (
                self.with_task(Task::KeySent { bypass }),
                ActionView::Send(MessageView::SendSecurityKey(security_key(seed_array(seed)))),
            ),
            ResponseView::Error(error) if is_lockout(error) => self.locked_out(bypass),
            _ => self.refuse(response),
        }
    }

    /// After the key was sent: access is granted, or locked out.
    pub open spec fn when_key_sent(self, bypass: bool, response: ResponseView) -> (
        ClientView,
        ActionView,
    ) {
        match response {
            ResponseView::SecurityAccessGranted(level) => self.granted(level),
            ResponseView::Error(error) if is_lockout(error) => self.locked_out(bypass),
            _ => self.refuse(response),
        }
    }

    /// The state after a response, and what is to be done next. A response
    /// that the operation in progress does not allow ends it.
    pub open spec fn respond(self, response: ResponseView) -> (ClientView, ActionView) {
        match self.task {
            Task::Idle => (self, ActionView::Fail(ErrorView::UnexpectedState)),
            Task::BaudSwitching { .. } => self.fail(ErrorView::UnexpectedState),
            Task::Clearing { address, length, purpose } => self.when_clearing(
                address,
                length,
                purpose,
                response,
            ),
            Task::Defining { purpose } => self.when_defining(purpose, response),
            Task::Writing { resume } => self.when_writing(resume, response),
            Task::Reading => self.when_reading(response),
            Task::UploadRequested => self.when_upload_requested(response),
            Task::Uploading => self.when_uploading(response),
            Task::DownloadRequested => self.when_download_requested(response),
            Task::Downloading => self.when_downloading(response),
            Task::TimingLimitsRequested => self.when_timing_limits_requested(response),
            Task::TimingChangeRequested => self.when_timing_change_requested(response),
            Task::StoppingSession => self.when_stopping_session(response),
            Task::StoppingCommunication => self.when_stopping_communication(response),
            Task::ModeRequested(target) => self.when_mode_requested(target, response),
            Task::SeedRequested { bypass } => self.when_seed_requested(bypass, response),
            Task::KeySent { bypass } => self.when_key_sent(bypass, response),
        }
    }

    /// The state after the line speed was changed, and what is to be done next.
    pub open spec fn baud_switched(self) -> (ClientView, ActionView) {
        match self.task {
            Task::BaudSwitching { matched } => if matched {
                self.finish()
            } else {
                self.fail(ErrorView::UnexpectedMode)
            },
            Task::Idle => (self, ActionView::Fail(ErrorView::UnexpectedState)),
            _ => self.fail(ErrorView::UnexpectedState),
        }
    }

    /// Whether silence is how the operation in progress ends: all the data of
    /// a download was sent, and only the answer to the last block is missing.
    pub open spec fn silence_is_the_end(self) -> bool {
        self.task == Task::Downloading && self.sent >= self.buffer.len()
    }

    /// Whether the session is in the mode `mode`.
    pub open spec fn in_mode(self, mode: DiagnosticMode) -> bool {
        self.mode == SessionMode::Active(mode)
    }

    /// A write of `data` to `address` through the scratch identifier starts.
    pub open spec fn dd_write_address(self, address: u32, data: Seq<u8>) -> (ClientView, ActionView) {
        self.begin(
            true,
            Task::Clearing {
                address,
                length: data.len() as u8,
                purpose: Purpose::Write(Resume::Finish),
            },
            data,
            MessageView::ClearLocalIdentifier(SCRATCH_IDENTIFIER),
        )
    }

    /// A read of `length` bytes at `address` through the scratch identifier starts.
    pub open spec fn dd_read_address(self, address: u32, length: u8) -> (ClientView, ActionView) {
        self.begin(
            true,
            Task::Clearing { address, length, purpose: Purpose::Read },
            self.buffer,
            MessageView::ClearLocalIdentifier(SCRATCH_IDENTIFIER),
        )
    }

    /// An upload of `size` bytes from `address` starts. It needs security access.
    pub open spec fn read_data(self, address: u32, size: u32) -> (ClientView, ActionView) {
        self.begin(
            self.security is Granted,
            Task::UploadRequested,
            Seq::<u8>::empty(),
            MessageView::RequestDataTransfer {
                transfer_type: TransferType::Upload,
                address,
                size,
                encryption: EncryptionFormat::Unencrypted,
                compression: CompressionFormat::Uncompressed,
            },
        )
    }

    /// A download of `data` to `address` starts, compressed and encrypted
    /// with `key`. It needs the programming mode and security access.
    pub open spec fn write_data_bosch(self, address: u32, data: Seq<u8>, key: Seq<u8>) -> (
        ClientView,
        ActionView,
    ) {
        if self.ready() && self.in_mode(DiagnosticMode::Programming) && self.security is Granted {
            (
                ClientView {
                    task: Task::DownloadRequested,
                    buffer: data,
                    key,
                    sent: 0,
                    key_index: 0,
                    ..self
                },
                ActionView::Send(
                    MessageView::RequestDataTransfer {
                        transfer_type: TransferType::Download,
                        address,
                        size: data.len() as u32,
                        encryption: EncryptionFormat::Bosch,
                        compression: CompressionFormat::Bosch,
                    },
                ),
            )
        } else {
            (self, ActionView::Fail(ErrorView::UnexpectedState))
        }
    }

    /// The negotiation of the fastest timing starts. It needs the programming
    /// or the developer mode.
    pub open spec fn use_fastest_timing(self) -> (ClientView, ActionView) {
        self.begin(
            self.in_mode(DiagnosticMode::Programming) || self.in_mode(DiagnosticMode::Developer),
            Task::TimingLimitsRequested,
            self.buffer,
            MessageView::GetTimingLimits,
        )
    }

    /// The end of the session starts.
    pub open spec fn disconnect(self) -> (ClientView, ActionView) {
        self.begin(true, Task::StoppingSession, self.buffer, MessageView::StopDiagnosticSession)
    }

    /// The change to the mode `new_mode` starts.
    pub open spec fn switch_mode(self, new_mode: DiagnosticMode, baud_rate: Option<u32>) -> (
        ClientView,
        ActionView,
    ) {
        self.begin(
            true,
            Task::ModeRequested(new_mode),
            self.buffer,
            MessageView::StartDiagnosticSession(new_mode, baud_rate),
        )
    }

    /// Security access starts; `bypass` says whether a lockout may be cleared.
    pub open spec fn request_security(self, bypass: bool) -> (ClientView, ActionView) {
        self.begin(
            true,
            Task::SeedRequested { bypass },
            self.buffer,
            MessageView::RequestSecuritySeed,
        )
    }
}

/// A place in a key, counted round the key.
proof fn lemma_key_index_in_key(position: int, key_len: int)
    by (nonlinear_arith)
    requires
        position >= 0,
        key_len > 0,
    ensures
        0 <= position % key_len < key_len,
{
}

/// No event leads out of the well-formed states.
pub proof fn lemma_well_formed_stays(state: ClientView, response: ResponseView)
    requires
        state.wf(),
    ensures
        state.respond(response).0.wf(),
        state.baud_switched().0.wf(),
        state.with_task(Task::Idle).wf(),
{
    let rest = state.buffer.skip(state.sent as int);
    match state.task {
        Task::DownloadRequested => {
            if let ResponseView::DownloadConfirmation(max) = response {
                if state.sent < state.buffer.len() && max >= MIN_BLOCK {
                    let max_block = if max > MAX_BLOCK {
                        MAX_BLOCK as int
                    } else {
                        max as int
                    };
                    lemma_transfer_block_fits(max_block, rest, state.key_index as int, state.key, true);
                    let block = transfer_block(
                        max_block,
                        rest,
                        state.key_index as int,
                        state.key,
                        true,
                    );
                    lemma_key_index_in_key((state.key_index + block.1.len()) as int, state.key.len() as int);
                }
            }
        },
        Task::Downloading => {
            lemma_transfer_block_fits(
                state.max_block as int,
                rest,
                state.key_index as int,
                state.key,
                false,
            );
            let block = transfer_block(
                state.max_block as int,
                rest,
                state.key_index as int,
                state.key,
                false,
            );
            lemma_key_index_in_key((state.key_index + block.1.len()) as int, state.key.len() as int);
        },
        _ => {},
    }
}

/// Security access does not outlive a change of mode: whatever the response,
/// where the mode after it is another than before, access is locked. A change
/// of the line speed changes neither.
pub proof fn lemma_mode_change_locks(state: ClientView, response: ResponseView)
    ensures
        state.respond(response).0.mode != state.mode ==> state.respond(response).0.security
            == Security::Locked,
        state.baud_switched().0.mode == state.mode,
        state.baud_switched().0.security == state.security,
{
}

/// Only the control unit grants access: access that is granted after a
/// response was granted before it, or is granted by that response.
pub proof fn lemma_access_is_granted_by_the_control_unit(
    state: ClientView,
    response: ResponseView,
    level: SecurityLevel,
)
    requires
        state.respond(response).0.security == Security::Granted(level),
    ensures
        state.security == Security::Granted(level) || response
            == ResponseView::SecurityAccessGranted(level),
{
}

/// An operation starts only in a state that allows it: none while another is
/// in progress or after communication was stopped, a download only in the
/// programming mode with access granted, an upload only with access granted,
/// and the negotiation of timing only in the programming or the developer
/// mode. What does not start leaves the state as it is.
pub proof fn lemma_operations_need_their_state(
    state: ClientView,
    address: u32,
    size: u32,
    length: u8,
    data: Seq<u8>,
    key: Seq<u8>,
    mode: DiagnosticMode,
    baud_rate: Option<u32>,
    bypass: bool,
)
    ensures
        state.write_data_bosch(address, data, key).1 is Send ==> state.ready() && state.in_mode(
            DiagnosticMode::Programming,
        ) && state.security is Granted,
        state.read_data(address, size).1 is Send ==> state.ready() && state.security is Granted,
        state.use_fastest_timing().1 is Send ==> state.ready() && (state.in_mode(
            DiagnosticMode::Programming,
        ) || state.in_mode(DiagnosticMode::Developer)),
        !state.ready() ==> {
            let refused = (state, ActionView::Fail(ErrorView::UnexpectedState));
            &&& state.write_data_bosch(address, data, key) == refused
            &&& state.read_data(address, size) == refused
            &&& state.use_fastest_timing() == refused
            &&& state.dd_write_address(address, data) == refused
            &&& state.dd_read_address(address, length) == refused
            &&& state.switch_mode(mode, baud_rate) == refused
            &&& state.request_security(bypass) == refused
            &&& state.disconnect() == refused
        },
{
}

/// A download moves on with every block: a block that is sent fits a frame
/// and the size that the control unit takes, the blocks sent so far never
/// stand for more than the data, and every block after the first stands for
/// at least one byte more.
pub proof fn lemma_download_moves_on(state: ClientView, response: ResponseView)
    requires
        state.wf(),
        state.task is DownloadRequested || state.task is Downloading,
    ensures
        state.respond(response).1 matches ActionView::Send(MessageView::SendData(block)) ==> {
            let next = state.respond(response).0;
            &&& next.task is Downloading
            &&& block.len() <= next.max_block
            &&& MIN_BLOCK <= next.max_block <= MAX_BLOCK
            &&& response matches ResponseView::DownloadConfirmation(max) ==> next.max_block <= max
            &&& state.sent <= next.sent <= state.buffer.len()
            &&& state.task is Downloading ==> state.sent < next.sent
            &&& next.buffer == state.buffer
            &&& next.key == state.key
        },
        state.respond(response).1 is Send ==> state.respond(response).1 matches ActionView::Send(
            MessageView::SendData(_),
        ),
{
    let rest = state.buffer.skip(state.sent as int);
    match state.task {
        Task::DownloadRequested => {
            if let ResponseView::DownloadConfirmation(max) = response {
                if state.sent < state.buffer.len() && max >= MIN_BLOCK {
                    let max_block = if max > MAX_BLOCK {
                        MAX_BLOCK as nat
                    } else {
                        max as nat
                    };
                    lemma_transfer_block_fits(
                        max_block as int,
                        rest,
                        state.key_index as int,
                        state.key,
                        true,
                    );
                }
            }
        },
        Task::Downloading => {
            lemma_transfer_block_fits(
                state.max_block as int,
                rest,
                state.key_index as int,
                state.key,
                false,
            );
        },
        _ => {},
    }
}

impl View for Client {
    type V = ClientView;

    closed spec fn view(&self) -> ClientView {
        ClientView {
            mode: self.mode,
            security: self.security,
            task: self.task,
            buffer: self.buffer@,
            key: self.key@,
            sent: self.sent as nat,
            key_index: self.key_index as nat,
            max_block: self.max_block as nat,
        }
    }
}

impl Client {
    /// Every client is in a well-formed state.
    #[verifier::type_invariant]
    spec fn inv(self) -> bool {
        self@.wf()
    }

    /// A session of which nothing is known yet.
    pub fn new() -> (client: Client)
        ensures
            client@.wf(),
            client@ == (ClientView {
                mode: SessionMode::Unknown,
                security: Security::Locked,
                task: Task::Idle,
                buffer: Seq::<u8>::empty(),
                key: Seq::<u8>::empty(),
                sent: 0,
                key_index: 0,
                max_block: 0,
            }),
    {
        Client {
            mode: SessionMode::Unknown,
            security: Security::Locked,
            task: Task::Idle,
            buffer: Vec::new(),
            key: Vec::new(),
            sent: 0,
            key_index: 0,
            max_block: 0,
        }
    }

    /// The mode of the session.
    pub fn mode(&self) -> (mode: SessionMode)
        ensures
            self@.wf(),
            mode == self@.mode,
    {
        proof {
            use_type_invariant(self);
        }
        self.mode
    }

    /// Whether security access was granted.
    pub fn security(&self) -> (security: Security)
        ensures
            self@.wf(),
            security == self@.security,
    {
        proof {
            use_type_invariant(self);
        }
        self.security
    }

    /// The operation in progress.
    pub fn task(&self) -> (task: Task)
        ensures
            self@.wf(),
            task == self@.task,
    {
        proof {
            use_type_invariant(self);
        }
        self.task
    }

    /// Whether an operation can be started.
    fn ready(&self) -> (r: bool)
        ensures
            r == self@.ready(),
    {
        self.task == Task::Idle && self.mode != SessionMode::Disconnected
    }

    /// Ends the operation because of a response that it does not allow.
    fn refuse(&mut self, response: Response) -> (action: Action)
        ensures
            (final(self)@, action@) == old(self)@.refuse(response@),
    {
        self.task = Task::Idle;
        Action::Fail(Error::UnexpectedResponse(response))
    }

    /// Ends the operation with an error.
    fn fail(&mut self, error: Error) -> (action: Action)
        ensures
            (final(self)@, action@) == old(self)@.fail(error@),
    {
        self.task = Task::Idle;
        Action::Fail(error)
    }

    /// Ends the operation, which has read nothing.
    fn finish(&mut self) -> (action: Action)
        ensures
            (final(self)@, action@) == old(self)@.finish(),
    {
        self.task = Task::Idle;
        Action::Done(Vec::new())
    }

    /// Ends the operation and hands out what the buffer holds.
    fn hand_out(&mut self) -> (action: Action)
        ensures
            (final(self)@, action@) == old(self)@.hand_out(),
    {
        self.task = Task::Idle;
        let mut data: Vec<u8> = Vec::new();
        core::mem::swap(&mut self.buffer, &mut data);
        Action::Done(data)
    }

    /// Sends the next block of a download.
    fn send_block(&mut self, first: bool) -> (action: Action)
        requires
            old(self).task is DownloadRequested || old(self).task is Downloading,
            MIN_BLOCK <= old(self).max_block <= MAX_BLOCK,
        ensures
            (final(self)@, action@) == old(self)@.send_block(first),
            action matches Action::Send(message) ==> message@.encodable(),
    {
        proof {
            use_type_invariant(&*self);
        }
        let remaining = slice_subrange(self.buffer.as_slice(), self.sent, self.buffer.len());
        assert(remaining@ == self.buffer@.skip(self.sent as int));
        let mut key_index: usize = self.key_index;
        let (consumed, block) = encrypt_and_compress(
            self.max_block,
            remaining,
            &mut key_index,
            self.key.as_slice(),
            first,
        );
        if consumed == 0 && !first {
            self.fail(Error::UnalignedData)
        } else {
            self.sent = self.sent + consumed;
            self.key_index = key_index;
            self.task = Task::Downloading;
            Action::Send(Message::SendData(block))
        }
    }

    /// Reacts to a lockout of security access.
    fn locked_out(&mut self, bypass: bool) -> (action: Action)
        ensures
            (final(self)@, action@) == old(self)@.locked_out(bypass),
            action matches Action::Send(message) ==> message@.encodable(),
    {
        if bypass {
            self.task = Task::Idle;
            let mut zeros: Vec<u8> = Vec::new();
            zeros.push(0);
            zeros.push(0);
            assert(zeros@ =~= seq![0u8, 0u8]);
            self.buffer = zeros;
            self.task = Task::Clearing {
                address: LOCKOUT_COUNTER_ADDRESS,
                length: 2,
                purpose: Purpose::Write(Resume::RetrySecurity),
            };
            Action::Send(Message::ClearLocalIdentifier(SCRATCH_IDENTIFIER))
        } else {
            self.fail(Error::SecurityTimout)
        }
    }

    /// Ends the operation with security access granted.
    fn granted(&mut self, level: SecurityLevel) -> (action: Action)
        ensures
            (final(self)@, action@) == old(self)@.granted(level),
    {
        self.task = Task::Idle;
        self.security = Security::Granted(level);
        Action::Done(Vec::new())
    }

    /// Takes a response while `Task::Clearing` is the task.
    fn when_clearing(&mut self, address: u32, length: u8, purpose: Purpose, response: Response) -> (action: Action)
        requires
            old(self).task == (Task::Clearing { address, length, purpose }),
        ensures
            (final(self)@, action@) == old(self)@.when_clearing(address, length, purpose, response@),
            action matches Action::Send(message) ==> message@.encodable(),
    {
        proof {
            use_type_invariant(&*self);
        }
        match response {
            Response::LocalIdentifierDefined(id) if id == SCRATCH_IDENTIFIER => {
                self.task = Task::Defining { purpose };
                Action::Send(
                    Message::DefineLocalIdentifierAddress(SCRATCH_IDENTIFIER, length, address),
                )
            },
            _ => self.refuse(response),
        }
    }

    /// Takes a response while `Task::Defining` is the task.
    fn when_defining(&mut self, purpose: Purpose, response: Response) -> (action: Action)
        requires
            old(self).task == (Task::Defining { purpose }),
        ensures
            (final(self)@, action@) == old(self)@.when_defining(purpose, response@),
            action matches Action::Send(message) ==> message@.encodable(),
    {
        proof {
            use_type_invariant(&*self);
        }
        match response {
            Response::LocalIdentifierDefined(id) if id == SCRATCH_IDENTIFIER => match purpose {
                Purpose::Write(resume) => {
                    self.task = Task::Writing { resume };
                    let mut data: Vec<u8> = Vec::new();
                    core::mem::swap(&mut self.buffer, &mut data);
                    Action::Send(Message::WriteLocalIdentifier(SCRATCH_IDENTIFIER, data))
                },
                Purpose::Read => {
                    self.task = Task::Reading;
                    Action::Send(
                        Message::ReadLocalIdentifier(SCRATCH_IDENTIFIER, ReadMode::Single, 1),
                    )
                },
            },
            _ => self.refuse(response),
        }
    }

    /// Takes a response while `Task::Writing` is the task.
    fn when_writing(&mut self, resume: Resume, response: Response) -> (action: Action)
        requires
            old(self).task is Writing,
        ensures
            (final(self)@, action@) == old(self)@.when_writing(resume, response@),
            action matches Action::Send(message) ==> message@.encodable(),
    {
        proof {
            use_type_invariant(&*self);
        }
        match response {
            Response::LocalIdentifierWritten(id) if id == SCRATCH_IDENTIFIER => match resume {
                Resume::Finish => self.finish(),
                Resume::RetrySecurity => {
                    self.task = Task::SeedRequested { bypass: false };
                    Action::Send(Message::RequestSecuritySeed)
                },
            },
            _ => self.refuse(response),
        }
    }

    /// Takes a response while `Task::Reading` is the task.
    fn when_reading(&mut self, response: Response) -> (action: Action)
        requires
            old(self).task is Reading,
        ensures
            (final(self)@, action@) == old(self)@.when_reading(response@),
            action matches Action::Send(message) ==> message@.encodable(),
    {
        proof {
            use_type_invariant(&*self);
        }
        match response {
            Response::LocalIdentifierRead(_, data) => {
                self.task = Task::Idle;
                Action::Done(data)
            },
            _ => self.refuse(response),
        }
    }

    /// Takes a response while `Task::UploadRequested` is the task.
    fn when_upload_requested(&mut self, response: Response) -> (action: Action)
        requires
            old(self).task is UploadRequested,
        ensures
            (final(self)@, action@) == old(self)@.when_upload_requested(response@),
            action matches Action::Send(message) ==> message@.encodable(),
    {
        proof {
            use_type_invariant(&*self);
        }
        match response {
            Response::UploadConfirmation(_) => {
                self.task = Task::Uploading;
                Action::Send(Message::RequestData)
            },
            _ => self.refuse(response),
        }
    }

    /// Takes a response while `Task::Uploading` is the task.
    fn when_uploading(&mut self, response: Response) -> (action: Action)
        requires
            old(self).task is Uploading,
        ensures
            (final(self)@, action@) == old(self)@.when_uploading(response@),
            action matches Action::Send(message) ==> message@.encodable(),
    {
        proof {
            use_type_invariant(&*self);
        }
        match response {
            Response::DataTransfer(mut data) => {
                if data.len() > 0 {
                    let mut received: Vec<u8> = Vec::new();
                    core::mem::swap(&mut self.buffer, &mut received);
                    received.append(&mut data);
                    self.buffer = received;
                    Action::Send(Message::RequestData)
                } else {
                    self.hand_out()
                }
            },
            Response::ReadyForMoreData => self.hand_out(),
            _ => self.refuse(response),
        }
    }

    /// Takes a response while `Task::DownloadRequested` is the task.
    fn when_download_requested(&mut self, response: Response) -> (action: Action)
        requires
            old(self).task is DownloadRequested,
        ensures
            (final(self)@, action@) == old(self)@.when_download_requested(response@),
            action matches Action::Send(message) ==> message@.encodable(),
    {
        proof {
            use_type_invariant(&*self);
        }
        match response {
            Response::DownloadConfirmation(max) => {
                if self.sent >= self.buffer.len() {
                    self.finish()
                } else if (max as usize) < MIN_BLOCK {
                    self.fail(Error::UnexpectedValue)
                } else {
                    self.max_block = if max as usize > MAX_BLOCK {
                        MAX_BLOCK
                    } else {
                        max as usize
                    };
                    self.send_block(true)
                }
            },
            _ => self.refuse(response),
        }
    }

    /// Takes a response while `Task::Downloading` is the task.
    fn when_downloading(&mut self, response: Response) -> (action: Action)
        requires
            old(self).task is Downloading,
        ensures
            (final(self)@, action@) == old(self)@.when_downloading(response@),
            action matches Action::Send(message) ==> message@.encodable(),
    {
        proof {
            use_type_invariant(&*self);
        }
        match response {
            Response::ReadyForMoreData => {
                if self.sent >= self.buffer.len() {
                    self.finish()
                } else {
                    self.send_block(false)
                }
            },
            Response::Error(error) if error.error == ServiceError::RoutineNotComplete
                && error.service == ServiceId::RequestDownload => Action::Wait,
            _ => self.refuse(response),
        }
    }

    /// Takes a response while `Task::TimingLimitsRequested` is the task.
    fn when_timing_limits_requested(&mut self, response: Response) -> (action: Action)
        requires
            old(self).task is TimingLimitsRequested,
        ensures
            (final(self)@, action@) == old(self)@.when_timing_limits_requested(response@),
            action matches Action::Send(message) ==> message@.encodable(),
    {
        proof {
            use_type_invariant(&*self);
        }
        match response {
            Response::TimingParameters { kind, p2min, p2max, p3min, p3max, p4min } if kind
                == TimingParameter::Limits => {
                self.task = Task::TimingChangeRequested;
                Action::Send(
                    Message::ChangeTimingParameters { p2min, p2max, p3min, p3max, p4min },
                )
            },
            _ => self.refuse(response),
        }
    }

    /// Takes a response while `Task::TimingChangeRequested` is the task.
    fn when_timing_change_requested(&mut self, response: Response) -> (action: Action)
        requires
            old(self).task is TimingChangeRequested,
        ensures
            (final(self)@, action@) == old(self)@.when_timing_change_requested(response@),
            action matches Action::Send(message) ==> message@.encodable(),
    {
        proof {
            use_type_invariant(&*self);
        }
        match response {
            Response::TimingSet => self.finish(),
            _ => self.refuse(response),
        }
    }

    /// Takes a response while `Task::StoppingSession` is the task.
    fn when_stopping_session(&mut self, response: Response) -> (action: Action)
        requires
            old(self).task is StoppingSession,
        ensures
            (final(self)@, action@) == old(self)@.when_stopping_session(response@),
            action matches Action::Send(message) ==> message@.encodable(),
    {
        proof {
            use_type_invariant(&*self);
        }
        match response {
            Response::DiagnosticSessionStopped => {
                self.task = Task::StoppingCommunication;
                self.mode = SessionMode::Unknown;
                self.security = Security::Locked;
                Action::Send(Message::StopCommunication)
            },
            Response::Error(_) => {
                self.task = Task::StoppingCommunication;
                Action::Send(Message::StopCommunication)
            },
            _ => self.refuse(response),
        }
    }

    /// Takes a response while `Task::StoppingCommunication` is the task.
    fn when_stopping_communication(&mut self, response: Response) -> (action: Action)
        requires
            old(self).task is StoppingCommunication,
        ensures
            (final(self)@, action@) == old(self)@.when_stopping_communication(response@),
            action matches Action::Send(message) ==> message@.encodable(),
    {
        proof {
            use_type_invariant(&*self);
        }
        match response {
            Response::CommunicationStopped => {
                self.task = Task::Idle;
                self.mode = SessionMode::Disconnected;
                self.security = Security::Locked;
                Action::Done(Vec::new())
            },
            _ => self.refuse(response),
        }
    }

    /// Takes a response while `Task::ModeRequested` is the task.
    fn when_mode_requested(&mut self, target: DiagnosticMode, response: Response) -> (action: Action)
        requires
            old(self).task is ModeRequested,
        ensures
            (final(self)@, action@) == old(self)@.when_mode_requested(target, response@),
            action matches Action::Send(message) ==> message@.encodable(),
    {
        proof {
            use_type_invariant(&*self);
        }
        match response {
            Response::StartedDiagnosticMode(mode, baud) => {
                self.mode = SessionMode::Active(mode);
                self.security = Security::Locked;
                match baud {
                    Some(rate) => {
                        self.task = Task::BaudSwitching { matched: mode == target };
                        Action::SwitchBaud(rate)
                    },
                    None => {
                        if mode == target {
                            self.finish()
                        } else {
                            self.fail(Error::UnexpectedMode)
                        }
                    },
                }
            },
            _ => self.refuse(response),
        }
    }

    /// Takes a response while `Task::SeedRequested` is the task.
    fn when_seed_requested(&mut self, bypass: bool, response: Response) -> (action: Action)
        requires
            old(self).task is SeedRequested,
        ensures
            (final(self)@, action@) == old(self)@.when_seed_requested(bypass, response@),
            action matches Action::Send(message) ==> message@.encodable(),
    {
        proof {
            use_type_invariant(&*self);
        }
        match response {
            Response::SecurityAccessGranted(level) => self.granted(level),
            Response::SecurityAccessSeed(_, seed) if seed.len() == 4 => {
                self.task = Task::KeySent { bypass };
                let key = security_key_from_seed([seed[0], seed[1], seed[2], seed[3]]);
                Action::Send(Message::SendSecurityKey(key))
            },
            Response::Error(error) if error.service == ServiceId::SecurityAccess && (error.error
                == ServiceError::TooManyAttempts || error.error
                == ServiceError::RequestingTooFast) => self.locked_out(bypass),
            _ => self.refuse(response),
        }
    }

    /// Takes a response while `Task::KeySent` is the task.
    fn when_key_sent(&mut self, bypass: bool, response: Response) -> (action: Action)
        requires
            old(self).task is KeySent,
        ensures
            (final(self)@, action@) == old(self)@.when_key_sent(bypass, response@),
            action matches Action::Send(message) ==> message@.encodable(),
    {
        proof {
            use_type_invariant(&*self);
        }
        match response {
            Response::SecurityAccessGranted(level) => self.granted(level),
            Response::Error(error) if error.service == ServiceId::SecurityAccess && (error.error
                == ServiceError::TooManyAttempts || error.error
                == ServiceError::RequestingTooFast) => self.locked_out(bypass),
            _ => self.refuse(response),
        }
    }

    /// Takes the response to the last message and says what to do next.
    ///
    /// A response that the operation in progress does not allow ends it with
    /// `Error::UnexpectedResponse`; a response while nothing waits for one is
    /// answered with `Error::UnexpectedState`.
    pub fn respond(&mut self, response: Response) -> (action: Action)
        ensures
            final(self)@.wf(),
            (final(self)@, action@) == old(self)@.respond(response@),
            action matches Action::Send(message) ==> message@.encodable(),
    {
        proof {
            use_type_invariant(&*self);
        }
        let outcome = {
            match self.task {
                Task::Idle => Action::Fail(Error::UnexpectedState),
                Task::BaudSwitching { .. } => self.fail(Error::UnexpectedState),
                Task::Clearing { address, length, purpose } => self.when_clearing(address, length, purpose, response),
                Task::Defining { purpose } => self.when_defining(purpose, response),
                Task::Writing { resume } => self.when_writing(resume, response),
                Task::Reading => self.when_reading(response),
                Task::UploadRequested => self.when_upload_requested(response),
                Task::Uploading => self.when_uploading(response),
                Task::DownloadRequested => self.when_download_requested(response),
                Task::Downloading => self.when_downloading(response),
                Task::TimingLimitsRequested => self.when_timing_limits_requested(response),
                Task::TimingChangeRequested => self.when_timing_change_requested(response),
                Task::StoppingSession => self.when_stopping_session(response),
                Task::StoppingCommunication => self.when_stopping_communication(response),
                Task::ModeRequested(target) => self.when_mode_requested(target, response),
                Task::SeedRequested { bypass } => self.when_seed_requested(bypass, response),
                Task::KeySent { bypass } => self.when_key_sent(bypass, response),
            }
        };
        proof {
            use_type_invariant(&*self);
        }
        outcome
    }

    /// Takes note that the line speed was changed, and says what to do next:
    /// the change of mode is done, or has failed with `Error::UnexpectedMode`
    /// where the control unit entered another mode than the one asked for.
    pub fn baud_switched(&mut self) -> (action: Action)
        ensures
            final(self)@.wf(),
            (final(self)@, action@) == old(self)@.baud_switched(),
            !(action is Send),
    {
        proof {
            use_type_invariant(&*self);
        }
        let outcome = {
            match self.task {
                Task::BaudSwitching { matched } => {
                    if matched {
                        self.finish()
                    } else {
                        self.fail(Error::UnexpectedMode)
                    }
                },
                Task::Idle => Action::Fail(Error::UnexpectedState),
                _ => self.fail(Error::UnexpectedState),
            }
        };
        proof {
            use_type_invariant(&*self);
        }
        outcome
    }

    /// Takes note that no response came in time, which ends the operation in
    /// progress. Returns whether that is its regular end, as after the last
    /// block of a download, and not a failure.
    pub fn timed_out(&mut self) -> (benign: bool)
        ensures
            final(self)@.wf(),
            benign == old(self)@.silence_is_the_end(),
            final(self)@ == old(self)@.with_task(Task::Idle),
    {
        proof {
            use_type_invariant(&*self);
        }
        let outcome = {
            let benign = self.task == Task::Downloading && self.sent >= self.buffer.len();
            self.task = Task::Idle;
            benign
        };
        proof {
            use_type_invariant(&*self);
        }
        outcome
    }

    /// Starts to write `data` to `address`, through a local identifier that
    /// is defined for it.
    pub fn dd_write_address(&mut self, address: u32, data: Vec<u8>) -> (action: Action)
        requires
            data@.len() <= 253,
        ensures
            final(self)@.wf(),
            (final(self)@, action@) == old(self)@.dd_write_address(address, data@),
            action matches Action::Send(message) ==> message@.encodable(),
    {
        proof {
            use_type_invariant(&*self);
        }
        let outcome = {
            if self.ready() {
                let length: u8 = data.len() as u8;
                self.buffer = data;
                self.task = Task::Clearing { address, length, purpose: Purpose::Write(Resume::Finish) };
                Action::Send(Message::ClearLocalIdentifier(SCRATCH_IDENTIFIER))
            } else {
                Action::Fail(Error::UnexpectedState)
            }
        };
        proof {
            use_type_invariant(&*self);
        }
        outcome
    }

    /// Starts to read `length` bytes at `address`, through a local identifier
    /// that is defined for it.
    pub fn dd_read_address(&mut self, address: u32, length: u8) -> (action: Action)
        ensures
            final(self)@.wf(),
            (final(self)@, action@) == old(self)@.dd_read_address(address, length),
            action matches Action::Send(message) ==> message@.encodable(),
    {
        proof {
            use_type_invariant(&*self);
        }
        let outcome = {
            if self.ready() {
                self.task = Task::Clearing { address, length, purpose: Purpose::Read };
                Action::Send(Message::ClearLocalIdentifier(SCRATCH_IDENTIFIER))
            } else {
                Action::Fail(Error::UnexpectedState)
            }
        };
        proof {
            use_type_invariant(&*self);
        }
        outcome
    }

    /// Starts to clear the count of failed security accesses, which ends a lockout.
    pub fn clear_security_wait(&mut self) -> (action: Action)
        ensures
            final(self)@.wf(),
            (final(self)@, action@) == old(self)@.dd_write_address(
                LOCKOUT_COUNTER_ADDRESS,
                seq![0u8, 0u8],
            ),
            action matches Action::Send(message) ==> message@.encodable(),
    {
        proof {
            use_type_invariant(&*self);
        }
        let outcome = {
            let mut zeros: Vec<u8> = Vec::new();
            zeros.push(0);
            zeros.push(0);
            assert(zeros@ =~= seq![0u8, 0u8]);
            self.dd_write_address(LOCKOUT_COUNTER_ADDRESS, zeros)
        };
        proof {
            use_type_invariant(&*self);
        }
        outcome
    }

    /// Starts an upload of `size` bytes from `address`. The bytes come with
    /// `Action::Done`.
    pub fn read_data(&mut self, address: u32, size: u32) -> (action: Action)
        ensures
            final(self)@.wf(),
            (final(self)@, action@) == old(self)@.read_data(address, size),
            action matches Action::Send(message) ==> message@.encodable(),
    {
        proof {
            use_type_invariant(&*self);
        }
        let outcome = {
            let granted = match self.security {
                Security::Granted(_) => true,
                Security::Locked => false,
            };
            if self.ready() && granted {
                self.buffer = Vec::new();
                self.task = Task::UploadRequested;
                Action::Send(
                    Message::RequestDataTransfer {
                        transfer_type: TransferType::Upload,
                        address,
                        size,
                        encryption: EncryptionFormat::Unencrypted,
                        compression: CompressionFormat::Uncompressed,
                    },
                )
            } else {
                Action::Fail(Error::UnexpectedState)
            }
        };
        proof {
            use_type_invariant(&*self);
        }
        outcome
    }

    /// Starts a download of `data` to `address`, compressed and encrypted
    /// with `key`.
    pub fn write_data_bosch(&mut self, address: u32, data: Vec<u8>, key: Vec<u8>) -> (action: Action)
        requires
            data@.len() <= u32::MAX,
            key@.len() > 0,
        ensures
            final(self)@.wf(),
            (final(self)@, action@) == old(self)@.write_data_bosch(address, data@, key@),
            action matches Action::Send(message) ==> message@.encodable(),
    {
        proof {
            use_type_invariant(&*self);
        }
        let outcome = {
            let granted = match self.security {
                Security::Granted(_) => true,
                Security::Locked => false,
            };
            if self.ready() && self.mode == SessionMode::Active(DiagnosticMode::Programming) && granted {
                let size: u32 = data.len() as u32;
                self.buffer = data;
                self.key = key;
                self.sent = 0;
                self.key_index = 0;
                self.task = Task::DownloadRequested;
                Action::Send(
                    Message::RequestDataTransfer {
                        transfer_type: TransferType::Download,
                        address,
                        size,
                        encryption: EncryptionFormat::Bosch,
                        compression: CompressionFormat::Bosch,
                    },
                )
            } else {
                Action::Fail(Error::UnexpectedState)
            }
        };
        proof {
            use_type_invariant(&*self);
        }
        outcome
    }

    /// Starts to ask the control unit for the limits of its timing and to
    /// adopt them.
    pub fn use_fastest_timing(&mut self) -> (action: Action)
        ensures
            final(self)@.wf(),
            (final(self)@, action@) == old(self)@.use_fastest_timing(),
            action matches Action::Send(message) ==> message@.encodable(),
    {
        proof {
            use_type_invariant(&*self);
        }
        let outcome = {
            let allowed = self.mode == SessionMode::Active(DiagnosticMode::Programming) || self.mode
                == SessionMode::Active(DiagnosticMode::Developer);
            if self.ready() && allowed {
                self.task = Task::TimingLimitsRequested;
                Action::Send(Message::GetTimingLimits)
            } else {
                Action::Fail(Error::UnexpectedState)
            }
        };
        proof {
            use_type_invariant(&*self);
        }
        outcome
    }

    /// Starts to end the session: the diagnostic session is stopped, then
    /// communication.
    pub fn disconnect(&mut self) -> (action: Action)
        ensures
            final(self)@.wf(),
            (final(self)@, action@) == old(self)@.disconnect(),
            action matches Action::Send(message) ==> message@.encodable(),
    {
        proof {
            use_type_invariant(&*self);
        }
        let outcome = {
            if self.ready() {
                self.task = Task::StoppingSession;
                Action::Send(Message::StopDiagnosticSession)
            } else {
                Action::Fail(Error::UnexpectedState)
            }
        };
        proof {
            use_type_invariant(&*self);
        }
        outcome
    }

    /// Starts the change to another mode, at a new line speed if one is given.
    pub fn switch_mode(&mut self, new_mode: DiagnosticMode, baud_rate: Option<u32>) -> (action:
        Action)
        requires
            baud_rate matches Some(rate) ==> rate >= 6400,
        ensures
            final(self)@.wf(),
            (final(self)@, action@) == old(self)@.switch_mode(new_mode, baud_rate),
            action matches Action::Send(message) ==> message@.encodable(),
    {
        proof {
            use_type_invariant(&*self);
        }
        let outcome = {
            if self.ready() {
                self.task = Task::ModeRequested(new_mode);
                Action::Send(Message::StartDiagnosticSession(new_mode, baud_rate))
            } else {
                Action::Fail(Error::UnexpectedState)
            }
        };
        proof {
            use_type_invariant(&*self);
        }
        outcome
    }

    /// Starts the change to the programming mode.
    pub fn programming_mode(&mut self, baud_rate: Option<u32>) -> (action: Action)
        requires
            baud_rate matches Some(rate) ==> rate >= 6400,
        ensures
            final(self)@.wf(),
            (final(self)@, action@) == old(self)@.switch_mode(
                DiagnosticMode::Programming,
                baud_rate,
            ),
            action matches Action::Send(message) ==> message@.encodable(),
    {
        proof {
            use_type_invariant(&*self);
        }
        let outcome = {
            self.switch_mode(DiagnosticMode::Programming, baud_rate)
        };
        proof {
            use_type_invariant(&*self);
        }
        outcome
    }

    /// Starts the change to the developer mode.
    pub fn developer_mode(&mut self, baud_rate: Option<u32>) -> (action: Action)
        requires
            baud_rate matches Some(rate) ==> rate >= 6400,
        ensures
            final(self)@.wf(),
            (final(self)@, action@) == old(self)@.switch_mode(DiagnosticMode::Developer, baud_rate),
            action matches Action::Send(message) ==> message@.encodable(),
    {
        proof {
            use_type_invariant(&*self);
        }
        let outcome = {
            self.switch_mode(DiagnosticMode::Developer, baud_rate)
        };
        proof {
            use_type_invariant(&*self);
        }
        outcome
    }

    /// Starts the change to the diagnostic mode.
    pub fn diagnostic_mode(&mut self) -> (action: Action)
        ensures
            final(self)@.wf(),
            (final(self)@, action@) == old(self)@.switch_mode(DiagnosticMode::Diagnostics, None),
            action matches Action::Send(message) ==> message@.encodable(),
    {
        proof {
            use_type_invariant(&*self);
        }
        let outcome = {
            self.switch_mode(DiagnosticMode::Diagnostics, None)
        };
        proof {
            use_type_invariant(&*self);
        }
        outcome
    }

    /// Starts security access. A lockout of the control unit ends it with
    /// `Error::SecurityTimout`.
    pub fn get_security_access(&mut self) -> (action: Action)
        ensures
            final(self)@.wf(),
            (final(self)@, action@) == old(self)@.request_security(false),
            action matches Action::Send(message) ==> message@.encodable(),
    {
        proof {
            use_type_invariant(&*self);
        }
        let outcome = {
            if self.ready() {
                self.task = Task::SeedRequested { bypass: false };
                Action::Send(Message::RequestSecuritySeed)
            } else {
                Action::Fail(Error::UnexpectedState)
            }
        };
        proof {
            use_type_invariant(&*self);
        }
        outcome
    }

    /// Starts security access. Where the control unit is locked out, the
    /// count of failed accesses is cleared and access asked for again, once.
    pub fn security_access_timeout_bypass(&mut self) -> (action: Action)
        ensures
            final(self)@.wf(),
            (final(self)@, action@) == old(self)@.request_security(true),
            action matches Action::Send(message) ==> message@.encodable(),
    {
        proof {
            use_type_invariant(&*self);
        }
        let outcome = {
            if self.ready() {
                self.task = Task::SeedRequested { bypass: true };
                Action::Send(Message::RequestSecuritySeed)
            } else {
                Action::Fail(Error::UnexpectedState)
            }
        };
        proof {
            use_type_invariant(&*self);
        }
        outcome
    }
}

} // verus!
