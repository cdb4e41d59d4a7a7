use kwp_me7::k_line::{
    bitbang, init_kwp2000, send_init_5baud, wait_for_byte, Handshake, InitAction, InitStage,
    LineStep,
};
use kwp_me7::INIT_ADDRESS;

fn levels(steps: &[LineStep]) -> Vec<bool> {
    steps.iter().map(|step| step.high).collect()
}

#[test]
fn wake_up_of_the_me7_address() {
    let steps = send_init_5baud(INIT_ADDRESS);
    assert_eq!(steps.len(), 11);
    assert_eq!(steps[0], LineStep { high: false, hold_ms: 300 });
    assert_eq!(steps[1], LineStep { high: true, hold_ms: 200 });
    // the address, lowest bit first
    assert_eq!(
        levels(&steps[2..10]),
        vec![true, false, false, false, false, false, false, false]
    );
    for step in &steps[2..10] {
        assert_eq!(step.hold_ms, 200);
    }
    assert_eq!(steps[10], LineStep { high: false, hold_ms: 0 });
}

#[test]
fn bits_go_out_lowest_first() {
    let steps = bitbang(5, 0b1010_0110);
    assert_eq!(steps.len(), 9);
    assert_eq!(
        levels(&steps[..8]),
        vec![false, true, true, false, false, true, false, true]
    );
    assert_eq!(steps[8], LineStep { high: false, hold_ms: 0 });
    let steps = bitbang(10, 0xFF);
    assert_eq!(levels(&steps), vec![true, true, true, true, true, true, true, true, false]);
    assert_eq!(steps[0].hold_ms, 100);
    assert_eq!(bitbang(3, 0)[0].hold_ms, 333);
}

#[test]
fn init_handshake() {
    let mut handshake = init_kwp2000(0x01);
    assert_eq!(handshake, Handshake { address: 0x01, stage: InitStage::AwaitSync });
    assert_eq!(handshake.receive(0x55), InitAction::Read);
    assert_eq!(handshake.stage, InitStage::AwaitKey);
    assert_eq!(handshake.receive(0x8F), InitAction::Reply { delay_ms: 25, byte: 0x70 });
    assert_eq!(handshake.stage, InitStage::AwaitAddress);
    assert!(!handshake.is_established());
    assert_eq!(handshake.receive(0xFE), InitAction::Done);
    assert!(handshake.is_established());
    assert_eq!(handshake.receive(0x00), InitAction::Done);
}

#[test]
fn other_bytes_are_passed_over() {
    let mut handshake = init_kwp2000(0x33);
    assert_eq!(handshake.receive(0x00), InitAction::Read);
    assert_eq!(handshake.receive(0x8F), InitAction::Read);
    assert_eq!(handshake.stage, InitStage::AwaitSync);
    assert_eq!(handshake.receive(0x55), InitAction::Read);
    // the first key byte
    assert_eq!(handshake.receive(0xEF), InitAction::Read);
    assert_eq!(handshake.receive(0x55), InitAction::Read);
    assert_eq!(handshake.stage, InitStage::AwaitKey);
    assert_eq!(handshake.receive(0x8F), InitAction::Reply { delay_ms: 25, byte: 0x70 });
    // the echo of the reply
    assert_eq!(handshake.receive(0x70), InitAction::Read);
    assert_eq!(handshake.receive(0xFE), InitAction::Read);
    assert_eq!(handshake.receive(0xCC), InitAction::Done);
    assert_eq!(handshake.stage, InitStage::Established);
}

#[test]
fn wait_is_over_with_the_byte_waited_for() {
    assert!(wait_for_byte(0x55, 0x55));
    assert!(!wait_for_byte(0x55, 0x54));
}
