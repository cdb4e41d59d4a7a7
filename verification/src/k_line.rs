//! The K-line initialisation: the 5-baud wake-up and the exchange of key bytes.
//!
//! Nothing here touches a line. The wake-up is a list of levels to drive, each
//! with the time to hold it; the exchange is a state that is handed each byte
//! that was read and says what to do next.

use vstd::prelude::*;

verus! {

/// Time that the line idles low before the wake-up, in milliseconds.
pub const IDLE_MS: u64 = 300;

/// Time of one bit at 5 baud, in milliseconds.
pub const BIT_MS: u64 = 200;

/// Line speed of the wake-up.
pub const WAKE_UP_BAUD: u8 = 5;

/// Byte with which the control unit lets the tester find its line speed.
pub const SYNC_BYTE: u8 = 0x55;

/// Key byte that the control unit sends last and the tester answers.
pub const KEY_BYTE: u8 = 0x8F;

/// Time that the tester waits before it answers the key byte, in milliseconds.
pub const REPLY_DELAY_MS: u64 = 25;

/// One step of driving the line: the level, and how long it is held.
#[derive(Debug, Clone, Copy, PartialEq, Eq, Structural)]
pub struct LineStep {
    /// Whether the line is driven high, that is, break is asserted.
    pub high: bool,
    /// Time to hold the level before the next step, in milliseconds.
    pub hold_ms: u64,
}

/// The levels of the lowest `count` bits of `byte`, lowest bit first, each
/// held for `hold_ms`: high for a one, low for a zero.
pub open spec fn bit_steps(byte: u8, count: nat, hold_ms: u64) -> Seq<LineStep>
    decreases count,
{
    if count == 0 {
        Seq::<LineStep>::empty()
    } else {
        seq![LineStep { high: byte % 2 == 1, hold_ms }] + bit_steps(
            byte / 2,
            (count - 1) as nat,
            hold_ms,
        )
    }
}

/// The steps that send `byte` at `baud`: its eight bits, lowest first, and
/// then the line low, so that data can come in.
pub open spec fn bitbang_steps(baud: u8, byte: u8) -> Seq<LineStep> {
    bit_steps(byte, 8, (1000u64 / (baud as u64)) as u64) + seq![LineStep { high: false, hold_ms: 0 }]
}

/// The steps of the 5-baud wake-up of `address`: the line idles low, a start
/// bit of one bit time, then the address.
pub open spec fn wake_up_steps(address: u8) -> Seq<LineStep> {
    seq![LineStep { high: false, hold_ms: IDLE_MS }, LineStep { high: true, hold_ms: BIT_MS }]
        + bitbang_steps(WAKE_UP_BAUD, address)
}

/// The complement of a byte.
pub open spec fn complement(byte: u8) -> u8 {
    (0xFF - byte) as u8
}

/// The steps that send `byte` bit by bit at `baud`.
pub fn bitbang(baud: u8, byte: u8) -> (steps: Vec<LineStep>)
    requires
        baud > 0,
    ensures
        steps@ == bitbang_steps(baud, byte),
{
    let hold_ms: u64 = 1_000 / baud as u64;
    let mut steps: Vec<LineStep> = Vec::new();
    let mut rest: u8 = byte;
    let mut n: usize = 0;
    while n < 8
        invariant
            n <= 8,
            steps@ + bit_steps(rest, (8 - n) as nat, hold_ms) == bit_steps(byte, 8, hold_ms),
        decreases 8 - n,
    {
        let ghost before = steps@;
        steps.push(LineStep { high: rest % 2 == 1, hold_ms });
        proof {
            let step = LineStep { high: rest % 2 == 1, hold_ms };
            let tail = bit_steps((rest / 2) as u8, (8 - n - 1) as nat, hold_ms);
            assert(bit_steps(rest, (8 - n) as nat, hold_ms) == seq![step] + tail);
            assert(before.push(step) + tail =~= before + (seq![step] + tail));
        }
        rest = rest / 2;
        n += 1;
    }
    assert(steps@ + bit_steps(rest, 0, hold_ms) =~= steps@);
    // leave the line low, so that data can come in
    steps.push(LineStep { high: false, hold_ms: 0 });
    steps
}

/// The steps of the 5-baud wake-up of the control unit at `address`.
pub fn send_init_5baud(address: u8) -> (steps: Vec<LineStep>)
    ensures
        steps@ == wake_up_steps(address),
{
    let mut steps: Vec<LineStep> = Vec::new();
    // idle before anything is sent
    steps.push(LineStep { high: false, hold_ms: IDLE_MS });
    // the start bit
    steps.push(LineStep { high: true, hold_ms: BIT_MS });
    let mut bits = bitbang(WAKE_UP_BAUD, address);
    steps.append(&mut bits);
    assert(steps@ =~= wake_up_steps(address));
    steps
}

/// How far the exchange after the wake-up has come.
#[derive(Debug, Clone, Copy, PartialEq, Eq, Structural)]
pub enum InitStage {
    /// The synchronisation byte has not come yet.
    AwaitSync,
    /// The key byte has not come yet.
    AwaitKey,
    /// The key byte was answered; the complement of the address has not come yet.
    AwaitAddress,
    /// The control unit has confirmed: framed messages can follow.
    Established,
}

/// What is to be done next during the exchange.
#[derive(Debug, Clone, Copy, PartialEq, Eq, Structural)]
pub enum InitAction {
    /// Read the next byte and hand it over.
    Read,
    /// Wait for `delay_ms`, send `byte`, then read the next byte and hand it over.
    Reply { delay_ms: u64, byte: u8 },
    /// The initialisation has succeeded.
    Done,
}

/// The exchange of bytes that follows the wake-up of the control unit at `address`.
#[derive(Debug, Clone, Copy, PartialEq, Eq, Structural)]
pub struct Handshake {
    pub address: u8,
    pub stage: InitStage,
}

impl Handshake {
    /// The exchange after the byte `byte` was read, and what is to be done
    /// next. A byte that is not the one waited for is passed over.
    pub open spec fn step(self, byte: u8) -> (Handshake, InitAction) {
        match self.stage {
            InitStage::AwaitSync => if byte == SYNC_BYTE {
                (Handshake { stage: InitStage::AwaitKey, ..self }, InitAction::Read)
            } else {
                (self, InitAction::Read)
            },
            InitStage::AwaitKey => if byte == KEY_BYTE {
                (
                    Handshake { stage: InitStage::AwaitAddress, ..self },
                    InitAction::Reply { delay_ms: REPLY_DELAY_MS, byte: complement(KEY_BYTE) },
                )
            } else {
                (self, InitAction::Read)
            },
            InitStage::AwaitAddress => if byte == complement(self.address) {
                (Handshake { stage: InitStage::Established, ..self }, InitAction::Done)
            } else {
                (self, InitAction::Read)
            },
            InitStage::Established => (self, InitAction::Done),
        }
    }

    /// Whether `byte` is the byte that the exchange waits for.
    pub open spec fn awaits(self, byte: u8) -> bool {
        match self.stage {
            InitStage::AwaitSync => byte == SYNC_BYTE,
            InitStage::AwaitKey => byte == KEY_BYTE,
            InitStage::AwaitAddress => byte == complement(self.address),
            InitStage::Established => false,
        }
    }

    /// Takes a byte that was read and says what to do next.
    pub fn receive(&mut self, byte: u8) -> (action: InitAction)
        ensures
            (*final(self), action) == old(self).step(byte),
    {
        match self.stage {
            InitStage::AwaitSync => {
                if wait_for_byte(SYNC_BYTE, byte) {
                    self.stage = InitStage::AwaitKey;
                }
                InitAction::Read
            },
            InitStage::AwaitKey => {
                if wait_for_byte(KEY_BYTE, byte) {
                    self.stage = InitStage::AwaitAddress;
                    InitAction::Reply { delay_ms: REPLY_DELAY_MS, byte: 0xFF - KEY_BYTE }
                } else {
                    InitAction::Read
                }
            },
            InitStage::AwaitAddress => {
                if wait_for_byte(0xFF - self.address, byte) {
                    self.stage = InitStage::Established;
                    InitAction::Done
                } else {
                    InitAction::Read
                }
            },
            InitStage::Established => InitAction::Done,
        }
    }

    /// Whether the control unit has confirmed.
    pub fn is_established(&self) -> (r: bool)
        ensures
            r == (self.stage == InitStage::Established),
    {
        self.stage == InitStage::Established
    }
}

/// The exchange that follows the wake-up of the control unit at `address`,
/// at its start: the synchronisation byte is waited for.
pub fn init_kwp2000(address: u8) -> (handshake: Handshake)
    ensures
        handshake == (Handshake { address, stage: InitStage::AwaitSync }),
{
    Handshake { address, stage: InitStage::AwaitSync }
}

/// Whether the wait for `byte` is over with the byte `received`.
pub fn wait_for_byte(byte: u8, received: u8) -> (over: bool)
    ensures
        over == (received == byte),
{
    received == byte
}

/// The exchange advances on the byte it waits for and on no other, and it
/// never falls back: the control unit is taken to have confirmed only after
/// the synchronisation byte, the key byte and the complement of the address
/// have come in that order.
pub proof fn lemma_handshake_advances(handshake: Handshake, byte: u8)
    ensures
        handshake.step(byte).0.address == handshake.address,
        handshake.awaits(byte) <==> handshake.step(byte).0.stage != handshake.stage,
        handshake.step(byte).0.stage is Established ==> handshake.stage is Established || (
        handshake.stage is AwaitAddress && byte == complement(handshake.address)),
        handshake.step(byte).0.stage is AwaitAddress ==> handshake.stage is AwaitAddress || (
        handshake.stage is AwaitKey && byte == KEY_BYTE),
        handshake.step(byte).0.stage is AwaitKey ==> handshake.stage is AwaitKey || (
        handshake.stage is AwaitSync && byte == SYNC_BYTE),
        handshake.step(byte).1 is Done <==> handshake.step(byte).0.stage is Established,
{
}

} // verus!
