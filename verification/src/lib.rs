//! Tester-side KWP2000 over K-line for Bosch ME7 control units.
//!
//! The crate holds the protocol's logic and no I/O: frames are encoded to and
//! decoded from bytes, and the session client says which message to send next
//! when it is handed the response to the last one.

use crate::kwp2000::response::{Response, ResponseView};
use vstd::prelude::*;

pub mod bcb;
pub mod k_line;
pub mod kwp2000;
pub mod memory_layout;

verus! {

/// Address that wakes an ME7 control unit during the 5-baud initialisation.
pub const INIT_ADDRESS: u8 = 0x01;

/// Key of the cipher of an ME7: the letters of "GEHEIM".
pub const KEY: [u8; 6] = [0x47, 0x45, 0x48, 0x45, 0x49, 0x4D];

/// The flash of a control unit: where it starts, how large it is, and the
/// sizes of its sectors in ascending order of address.
#[derive(Debug, Clone, PartialEq, Eq)]
pub struct MemoryLayout {
    pub base_address: u32,
    pub size: u32,
    pub sectors: Vec<u32>,
}

/// What can go wrong while framing, parsing or running the protocol.
#[derive(Debug, PartialEq, Eq)]
pub enum Error {
    /// The control unit entered another mode than the one asked for.
    UnexpectedMode,
    /// The response is not one that the request allows.
    UnexpectedResponse(Response),
    /// The control unit is still busy with another service than the last one asked for.
    UnexpectedPending,
    /// A byte of a payload has no meaning where it stands.
    UnexpectedValue,
    /// The response belongs to a service that the tester does not handle.
    NotImplemented,
    /// The bytes end before the frame or the payload that they announce.
    NotEnoughData,
    /// The checksum byte is not the sum of the bytes before it.
    InvalidChecksum,
    /// The service byte is neither a request nor a response.
    InvalidService,
    /// The error byte of a negative response is no known error code.
    InvalidServiceError,
    /// The control unit refuses security access until its lockout has run out.
    SecurityTimout,
    /// The session is not in a state that allows the operation.
    UnexpectedState,
    /// What is left of the data cannot be packed into aligned blocks.
    UnalignedData,
}

/// An `Error` as a mathematical value.
pub enum ErrorView {
    UnexpectedMode,
    UnexpectedResponse(ResponseView),
    UnexpectedPending,
    UnexpectedValue,
    NotImplemented,
    NotEnoughData,
    InvalidChecksum,
    InvalidService,
    InvalidServiceError,
    SecurityTimout,
    UnexpectedState,
    UnalignedData,
}

impl View for Error {
    type V = ErrorView;

    open spec fn view(&self) -> ErrorView {
        match self {
            Error::UnexpectedMode => ErrorView::UnexpectedMode,
            Error::UnexpectedResponse(response) => ErrorView::UnexpectedResponse(response@),
            Error::UnexpectedPending => ErrorView::UnexpectedPending,
            Error::UnexpectedValue => ErrorView::UnexpectedValue,
            Error::NotImplemented => ErrorView::NotImplemented,
            Error::NotEnoughData => ErrorView::NotEnoughData,
            Error::InvalidChecksum => ErrorView::InvalidChecksum,
            Error::InvalidService => ErrorView::InvalidService,
            Error::InvalidServiceError => ErrorView::InvalidServiceError,
            Error::SecurityTimout => ErrorView::SecurityTimout,
            Error::UnexpectedState => ErrorView::UnexpectedState,
            Error::UnalignedData => ErrorView::UnalignedData,
        }
    }
}

} // verus!
