//! Raw frames and their wire format.
//!
//! A frame on the wire is a format byte, two address bytes unless the frame is
//! unaddressed, a length byte where the length does not fit the format byte,
//! the service byte, the payload and a checksum.

use super::constants::{AddressMode, Service, ServiceId};
use crate::{Error, ErrorView};
use vstd::prelude::*;

verus! {

/// Most bytes that a frame can carry, the service byte included.
pub const MAX_DATA_LENGTH: usize = 255;

/// Longest length, service byte included, that fits into the format byte.
pub const SHORT_DATA_LENGTH: usize = 63;

/// A frame as it travels on the wire, before any meaning is given to its payload.
#[derive(Debug, Clone, PartialEq, Eq)]
pub struct RawMessage {
    pub mode: AddressMode,
    pub target: Option<u8>,
    pub source: Option<u8>,
    pub service: Service,
    pub data: Vec<u8>,
}

/// A `RawMessage` as a mathematical value.
pub struct RawFrame {
    pub mode: AddressMode,
    pub target: Option<u8>,
    pub source: Option<u8>,
    pub service: Service,
    pub data: Seq<u8>,
}

impl View for RawMessage {
    type V = RawFrame;

    open spec fn view(&self) -> RawFrame {
        RawFrame {
            mode: self.mode,
            target: self.target,
            source: self.source,
            service: self.service,
            data: self.data@,
        }
    }
}

/// Sum of the bytes modulo 256.
pub open spec fn checksum(bytes: Seq<u8>) -> u8
    decreases bytes.len(),
{
    if bytes.len() == 0 {
        0
    } else {
        ((checksum(bytes.drop_last()) + bytes.last()) % 256) as u8
    }
}

/// The addressing mode in the top two bits of a format byte.
pub open spec fn format_mode(format: u8) -> AddressMode {
    if format < 0x40 {
        AddressMode::NoAddress
    } else if format < 0x80 {
        AddressMode::Carb
    } else if format < 0xC0 {
        AddressMode::Physical
    } else {
        AddressMode::Functional
    }
}

/// The length in the low six bits of a format byte; zero says that a length
/// byte follows the addresses.
pub open spec fn format_length(format: u8) -> nat {
    (format % 64) as nat
}

/// Number of bytes before the service byte in a frame that starts with `format`.
pub open spec fn header_len(format: u8) -> nat {
    (1 + (if format_mode(format) == AddressMode::NoAddress { 0nat } else { 2nat })
        + (if format_length(format) == 0 { 1nat } else { 0nat })) as nat
}

/// Number of bytes of the whole frame that `bytes` starts with, checksum
/// included, as its header states it. `None` while the byte that states the
/// length is still missing.
pub open spec fn frame_len(bytes: Seq<u8>) -> Option<nat> {
    if bytes.len() == 0 || (format_length(bytes[0]) == 0 && bytes.len() < header_len(bytes[0])) {
        None
    } else {
        let h = header_len(bytes[0]);
        let length = if format_length(bytes[0]) == 0 {
            bytes[h - 1] as nat
        } else {
            format_length(bytes[0])
        };
        // service byte, payload, checksum; a stated length of zero still holds the service byte
        Some((h + (if length > 1 { length } else { 1 }) + 1) as nat)
    }
}

/// Whether the frame that `bytes` starts with states its length in the one way
/// that the encoder uses: in the format byte where it fits, else in a length
/// byte of 64 or more.
pub open spec fn canonical(bytes: Seq<u8>) -> bool {
    bytes.len() > 0 && bytes.len() >= header_len(bytes[0]) && (format_length(bytes[0]) == 0
        ==> bytes[header_len(bytes[0]) - 1] > SHORT_DATA_LENGTH)
}

/// What decoding `bytes` gives: the frame at their start with the number of
/// bytes it takes, or the first error met on the way.
pub open spec fn spec_decode(bytes: Seq<u8>) -> Result<(RawFrame, nat), ErrorView> {
    match frame_len(bytes) {
        None => Err(ErrorView::NotEnoughData),
        Some(n) => {
            let h = header_len(bytes[0]) as int;
            if bytes.len() <= h {
                Err(ErrorView::NotEnoughData)
            } else {
                match Service::from_code(bytes[h]) {
                    None => Err(ErrorView::InvalidService),
                    Some(service) => {
                        if bytes.len() < n {
                            Err(ErrorView::NotEnoughData)
                        } else if bytes[n - 1] != checksum(bytes.subrange(0, n - 1)) {
                            Err(ErrorView::InvalidChecksum)
                        } else {
                            let addressed = format_mode(bytes[0]) != AddressMode::NoAddress;
                            Ok(
                                (
                                    RawFrame {
                                        mode: format_mode(bytes[0]),
                                        target: if addressed { Some(bytes[1]) } else { None },
                                        source: if addressed { Some(bytes[2]) } else { None },
                                        service,
                                        data: bytes.subrange(h + 1, n - 1),
                                    },
                                    n,
                                ),
                            )
                        }
                    },
                }
            }
        },
    }
}

impl RawFrame {
    /// A frame that can be put on the wire: at most 254 payload bytes, and
    /// both addresses present exactly when the frame is addressed.
    pub open spec fn wf(self) -> bool {
        &&& self.data.len() < MAX_DATA_LENGTH
        &&& self.mode == AddressMode::NoAddress ==> self.target is None && self.source is None
        &&& self.mode != AddressMode::NoAddress ==> self.target is Some && self.source is Some
    }

    /// The length that the frame states: the service byte and the payload.
    pub open spec fn length(self) -> nat {
        1 + self.data.len()
    }

    /// The format byte: the addressing mode, and the length where it fits.
    pub open spec fn format(self) -> u8 {
        if self.length() <= SHORT_DATA_LENGTH {
            (self.mode.code() + self.length()) as u8
        } else {
            self.mode.code()
        }
    }

    /// The bytes before the service byte.
    pub open spec fn header(self) -> Seq<u8> {
        seq![self.format()] + (if self.mode != AddressMode::NoAddress {
            seq![self.target->0, self.source->0]
        } else {
            Seq::<u8>::empty()
        }) + (if self.length() > SHORT_DATA_LENGTH {
            seq![self.length() as u8]
        } else {
            Seq::<u8>::empty()
        })
    }

    /// The bytes that the checksum covers.
    pub open spec fn body(self) -> Seq<u8> {
        self.header() + seq![self.service.code()] + self.data
    }

    /// The frame on the wire.
    pub open spec fn encode(self) -> Seq<u8> {
        self.body() + seq![checksum(self.body())]
    }
}

/// Decoding looks at the frame and at nothing behind it: the bytes that the
/// header announces decide the result.
pub proof fn lemma_decode_ignores_rest(bytes: Seq<u8>)
    requires
        frame_len(bytes) matches Some(n) && n <= bytes.len(),
    ensures
        spec_decode(bytes) == spec_decode(bytes.subrange(0, frame_len(bytes)->0 as int)),
{
    let n = frame_len(bytes)->0 as int;
    let head = bytes.subrange(0, n);
    assert(head[0] == bytes[0]);
    let h = header_len(bytes[0]) as int;
    assert(h < n);
    assert(head[h - 1] == bytes[h - 1]);
    assert(frame_len(head) == Some(n as nat));
    assert(head[h] == bytes[h]);
    assert(head[n - 1] == bytes[n - 1]);
    assert(head.subrange(0, n - 1) =~= bytes.subrange(0, n - 1));
    assert(head.subrange(h + 1, n - 1) =~= bytes.subrange(h + 1, n - 1));
    if format_mode(bytes[0]) != AddressMode::NoAddress {
        assert(head[1] == bytes[1]);
        assert(head[2] == bytes[2]);
    }
}

/// A frame whose checksum byte is wrong is refused as such, whatever follows
/// it: once the header is complete, the service known and all the bytes of
/// the frame there, a checksum byte that differs from the sum of the bytes
/// before it gives `InvalidChecksum`, and the bytes behind the frame have no
/// part in that.
pub proof fn lemma_wrong_checksum_is_refused(bytes: Seq<u8>)
    requires
        frame_len(bytes) matches Some(n) && n <= bytes.len(),
        Service::from_code(bytes[header_len(bytes[0]) as int]) is Some,
        bytes[frame_len(bytes)->0 - 1] != checksum(bytes.subrange(0, frame_len(bytes)->0 - 1)),
    ensures
        spec_decode(bytes) == Err::<(RawFrame, nat), ErrorView>(ErrorView::InvalidChecksum),
        spec_decode(bytes.subrange(0, frame_len(bytes)->0 as int)) == spec_decode(bytes),
{
    lemma_decode_ignores_rest(bytes);
}

/// What decodes is a frame that can be put on the wire again, and it takes
/// the bytes that the header announces, which are all there.
pub proof fn lemma_decoded_is_well_formed(bytes: Seq<u8>)
    requires
        spec_decode(bytes) is Ok,
    ensures
        spec_decode(bytes)->Ok_0.0.wf(),
        frame_len(bytes) == Some(spec_decode(bytes)->Ok_0.1),
        spec_decode(bytes)->Ok_0.1 <= bytes.len(),
{
}

/// Decoding inverts encoding: the bytes of a frame, with anything behind them,
/// decode to that frame and to its length.
pub proof fn lemma_decode_encode(frame: RawFrame, rest: Seq<u8>)
    requires
        frame.wf(),
    ensures
        spec_decode(frame.encode() + rest) == Ok::<(RawFrame, nat), ErrorView>(
            (frame, frame.encode().len()),
        ),
        frame_len(frame.encode() + rest) == Some(frame.encode().len()),
        canonical(frame.encode() + rest),
{
    let wire = frame.encode();
    let bytes = wire + rest;
    let header = frame.header();
    let body = frame.body();
    let h = header.len() as int;
    let n = wire.len() as int;
    let format = frame.format();
    assert(header[0] == format);
    assert(bytes[0] == format);
    assert(format_mode(format) == frame.mode);
    assert(format_length(format) == if frame.length() <= SHORT_DATA_LENGTH {
        frame.length()
    } else {
        0
    });
    assert(header_len(format) == h);
    if frame.length() > SHORT_DATA_LENGTH {
        assert(bytes[h - 1] == header[h - 1]);
        assert(header[h - 1] == frame.length() as u8);
    }
    assert(frame_len(bytes) == Some(n as nat));
    assert(bytes[h] == frame.service.code());
    Service::lemma_code_round_trip(frame.service);
    assert(bytes.subrange(0, n - 1) =~= body);
    assert(bytes[n - 1] == checksum(body));
    assert(bytes.subrange(h + 1, n - 1) =~= frame.data);
    if frame.mode != AddressMode::NoAddress {
        assert(bytes[1] == frame.target->0);
        assert(bytes[2] == frame.source->0);
    }
}

/// Encoding inverts decoding on frames that state their length as the encoder
/// does: what such bytes decode to is a well-formed frame, and its encoding
/// gives back the bytes that were taken.
pub proof fn lemma_encode_decode(bytes: Seq<u8>)
    requires
        spec_decode(bytes) is Ok,
        canonical(bytes),
    ensures
        spec_decode(bytes)->Ok_0.0.wf(),
        spec_decode(bytes)->Ok_0.1 <= bytes.len(),
        spec_decode(bytes)->Ok_0.0.encode() == bytes.subrange(0, spec_decode(bytes)->Ok_0.1 as int),
{
    let (frame, taken) = spec_decode(bytes)->Ok_0;
    let n = taken as int;
    let h = header_len(bytes[0]) as int;
    let service = Service::from_code(bytes[h])->0;
    Service::lemma_from_code_is_code(bytes[h], service);
    assert(frame.data.len() == n - h - 2);
    assert(frame.format() == bytes[0]);
    assert(frame.header() =~= bytes.subrange(0, h));
    assert(frame.body() =~= bytes.subrange(0, n - 1));
    assert(frame.encode() =~= bytes.subrange(0, n));
}

/// Sum modulo 256 of the first `end` bytes.
fn checksum_of(bytes: &[u8], end: usize) -> (sum: u8)
    requires
        end <= bytes@.len(),
    ensures
        sum == checksum(bytes@.subrange(0, end as int)),
{
    let mut sum: u8 = 0;
    let mut i: usize = 0;
    while i < end
        invariant
            i <= end <= bytes@.len(),
            sum == checksum(bytes@.subrange(0, i as int)),
        decreases end - i,
    {
        proof {
            let next = bytes@.subrange(0, i + 1);
            assert(next.drop_last() =~= bytes@.subrange(0, i as int));
            assert(next.last() == bytes@[i as int]);
        }
        sum = ((sum as u16 + bytes[i] as u16) % 256) as u8;
        i += 1;
    }
    sum
}

/// Splits a format byte into the addressing mode and the length it holds;
/// `None` for the length says that a length byte follows the addresses.
pub fn decode_format(byte: u8) -> (r: (AddressMode, Option<u8>))
    ensures
        r.0 == format_mode(byte),
        format_length(byte) == 0 ==> r.1 is None,
        format_length(byte) != 0 ==> r.1 == Some(format_length(byte) as u8),
{
    let length: u8 = byte % 64;
    let mode = if byte < 0x40 {
        AddressMode::NoAddress
    } else if byte < 0x80 {
        AddressMode::Carb
    } else if byte < 0xC0 {
        AddressMode::Physical
    } else {
        AddressMode::Functional
    };
    (mode, if length == 0 { None } else { Some(length) })
}

impl RawMessage {
    /// Whether the frame can be put on the wire, so that `to_bytes` can be
    /// called on it.
    pub fn is_well_formed(&self) -> (r: bool)
        ensures
            r == self@.wf(),
    {
        let addressed = match self.mode {
            AddressMode::NoAddress => false,
            _ => true,
        };
        self.data.len() < MAX_DATA_LENGTH && self.target.is_some() == addressed
            && self.source.is_some() == addressed
    }

    /// An unaddressed request.
    pub fn new_simple_query(service: ServiceId, data: Vec<u8>) -> (r: RawMessage)
        requires
            data@.len() < MAX_DATA_LENGTH,
        ensures
            r@ == (RawFrame {
                mode: AddressMode::NoAddress,
                target: None,
                source: None,
                service: Service::Query(service),
                data: data@,
            }),
            r@.wf(),
    {
        RawMessage::new_query(AddressMode::NoAddress, None, None, service, data)
    }

    /// A request. The payload leaves room for the service byte, and the
    /// addresses are given exactly when the frame is addressed.
    pub fn new_query(
        mode: AddressMode,
        target: Option<u8>,
        source: Option<u8>,
        service: ServiceId,
        data: Vec<u8>,
    ) -> (r: RawMessage)
        requires
            data@.len() < MAX_DATA_LENGTH,
            mode == AddressMode::NoAddress ==> target is None && source is None,
            mode != AddressMode::NoAddress ==> target is Some && source is Some,
        ensures
            r@ == (RawFrame { mode, target, source, service: Service::Query(service), data: data@ }),
            r@.wf(),
    {
        RawMessage { mode, target, source, service: Service::Query(service), data }
    }

    /// The frame as the bytes that go on the wire.
    pub fn to_bytes(self) -> (bytes: Vec<u8>)
        requires
            self@.wf(),
        ensures
            bytes@ == self@.encode(),
    {
        let mut bytes: Vec<u8> = Vec::new();
        // the service byte counts
        let length: usize = 1 + self.data.len();
        if length <= SHORT_DATA_LENGTH {
            bytes.push(self.mode.byte() + length as u8);
        } else {
            bytes.push(self.mode.byte());
        }
        if let (Some(target), Some(source)) = (self.target, self.source) {
            bytes.push(target);
            bytes.push(source);
        }
        if length > SHORT_DATA_LENGTH {
            bytes.push(length as u8);
        }
        assert(bytes@ =~= self@.header());
        bytes.push(self.service.byte());
        let mut data = self.data;
        bytes.append(&mut data);
        assert(bytes@ =~= self@.body());
        let sum = checksum_of(bytes.as_slice(), bytes.len());
        assert(bytes@.subrange(0, bytes@.len() as int) =~= bytes@);
        bytes.push(sum);
        bytes
    }

    /// Number of bytes to have in hand before more can be said of the frame
    /// that `bytes` starts with: one for the format byte, then the header, then
    /// the whole frame.
    pub fn bytes_needed(bytes: &[u8]) -> (n: usize)
        ensures
            bytes@.len() == 0 ==> n == 1,
            bytes@.len() > 0 && frame_len(bytes@) is None ==> n == header_len(bytes@[0]),
            frame_len(bytes@) matches Some(len) ==> n == len,
            n > bytes@.len() <==> !(frame_len(bytes@) matches Some(len) && len <= bytes@.len()),
    {
        if bytes.len() == 0 {
            return 1;
        }
        let (mode, inline) = decode_format(bytes[0]);
        let addresses: usize = match mode {
            AddressMode::NoAddress => 0,
            _ => 2,
        };
        match inline {
            Some(length) => 1 + addresses + length as usize + 1,
            None => {
                let header: usize = 1 + addresses + 1;
                if bytes.len() < header {
                    header
                } else {
                    let length: u8 = bytes[header - 1];
                    header + (if length > 1 { length as usize } else { 1 }) + 1
                }
            },
        }
    }

    /// Decodes the frame at the start of `source` and says how many bytes it
    /// takes. Bytes after the frame are not looked at.
    pub fn from_bytes(source: &[u8]) -> (r: Result<(RawMessage, usize), Error>)
        ensures
            match r {
                Ok((message, taken)) => spec_decode(source@) == Ok::<(RawFrame, nat), ErrorView>(
                    (message@, taken as nat),
                ) && message@.wf() && taken <= source@.len(),
                Err(e) => spec_decode(source@) == Err::<(RawFrame, nat), ErrorView>(e@),
            },
    {
        let total = RawMessage::bytes_needed(source);
        if source.len() == 0 {
            return Err(Error::NotEnoughData);
        }
        let (mode, inline) = decode_format(source[0]);
        let addressed = match mode {
            AddressMode::NoAddress => false,
            _ => true,
        };
        let header: usize = 1 + (if addressed { 2 } else { 0 }) + (if inline.is_none() { 1 } else { 0 });
        if source.len() <= header {
            return Err(Error::NotEnoughData);
        }
        let service = match Service::try_from_byte(source[header]) {
            Ok(service) => service,
            Err(e) => { return Err(Error::InvalidService); },
        };
        if source.len() < total {
            return Err(Error::NotEnoughData);
        }
        let sum = checksum_of(source, total - 1);
        if source[total - 1] != sum {
            return Err(Error::InvalidChecksum);
        }
        let mut data: Vec<u8> = Vec::new();
        let mut i: usize = header + 1;
        while i < total - 1
            invariant
                header + 1 <= i <= total - 1 < source@.len(),
                data@ == source@.subrange(header + 1, i as int),
            decreases total - i,
        {
            data.push(source[i]);
            i += 1;
            assert(data@ =~= source@.subrange(header + 1, i as int));
        }
        let (target, src) = if addressed {
            (Some(source[1]), Some(source[2]))
        } else {
            (None, None)
        };
        Ok((RawMessage { mode, target, source: src, service, data }, total))
    }
}

} // verus!
