use complete_pic::pic8259::{ChainedPics, Phase, PicBus, PortOp};
use complete_pic::sim::PicSimulator;

#[test]
fn handles_interrupt_scenario() {
    let pics = ChainedPics::new(32, 40);
    assert!(pics.handles_interrupt(35));
    assert!(pics.handles_interrupt(44));
    assert!(!pics.handles_interrupt(16));
}

#[test]
fn handles_interrupt_boundaries() {
    let pics = ChainedPics::new(32, 40);
    assert!(!pics.handles_interrupt(31));
    assert!(pics.handles_interrupt(32));
    assert!(pics.handles_interrupt(39));
    assert!(pics.handles_interrupt(40));
    assert!(pics.handles_interrupt(47));
    assert!(!pics.handles_interrupt(48));
    assert!(!pics.handles_interrupt(255));
}

#[test]
fn initialize_preserves_masks() {
    let pics = ChainedPics::new(32, 40);
    let mut bus = PicSimulator::new(0xA5, 0x3C);
    pics.initialize(&mut bus);
    let masks = pics.read_interrupt_masks(&mut bus);
    assert_eq!(masks, [0xA5, 0x3C]);
    assert_eq!(bus.primary.offset, 32);
    assert_eq!(bus.secondary.offset, 40);
    assert_eq!(bus.primary.phase, Phase::Ready);
    assert_eq!(bus.secondary.phase, Phase::Ready);
}

#[test]
fn initialize_emits_documented_handshake() {
    let pics = ChainedPics::new(0x20, 0x28);
    let mut bus = PicSimulator::new(0x00, 0xFF);
    pics.initialize(&mut bus);
    let expected = vec![
        PortOp::ReadByte { port: 0x21, value: 0x00 },
        PortOp::ReadByte { port: 0xA1, value: 0xFF },
        PortOp::WriteByte { port: 0x20, value: 0x11 },
        PortOp::WriteByte { port: 0x80, value: 0 },
        PortOp::WriteByte { port: 0xA0, value: 0x11 },
        PortOp::WriteByte { port: 0x80, value: 0 },
        PortOp::WriteByte { port: 0x21, value: 0x20 },
        PortOp::WriteByte { port: 0x80, value: 0 },
        PortOp::WriteByte { port: 0xA1, value: 0x28 },
        PortOp::WriteByte { port: 0x80, value: 0 },
        PortOp::WriteByte { port: 0x21, value: 4 },
        PortOp::WriteByte { port: 0x80, value: 0 },
        PortOp::WriteByte { port: 0xA1, value: 2 },
        PortOp::WriteByte { port: 0x80, value: 0 },
        PortOp::WriteByte { port: 0x21, value: 0x01 },
        PortOp::WriteByte { port: 0x80, value: 0 },
        PortOp::WriteByte { port: 0xA1, value: 0x01 },
        PortOp::WriteByte { port: 0x80, value: 0 },
        PortOp::WriteByte { port: 0x21, value: 0x00 },
        PortOp::WriteByte { port: 0xA1, value: 0xFF },
    ];
    assert_eq!(bus.log, expected);
}

#[test]
fn disable_masks_everything() {
    let pics = ChainedPics::new(32, 40);
    let mut bus = PicSimulator::new(0x00, 0x81);
    pics.disable(&mut bus);
    assert_eq!(pics.read_interrupt_masks(&mut bus), [0xFF, 0xFF]);
    // Idempotent.
    pics.disable(&mut bus);
    assert_eq!(pics.read_interrupt_masks(&mut bus), [0xFF, 0xFF]);
}

#[test]
fn mask_write_and_read_round_trip() {
    let pics = ChainedPics::new(32, 40);
    let mut bus = PicSimulator::new(0xFF, 0xFF);
    pics.write_interrupt_masks(&mut bus, 0x12, 0x34);
    assert_eq!(pics.read_interrupt_masks(&mut bus), [0x12, 0x34]);
}

#[test]
fn notify_in_secondary_range_acknowledges_both() {
    let pics = ChainedPics::new(32, 40);
    let mut bus = PicSimulator::new(0, 0);
    pics.notify_end_of_interrupt(&mut bus, 44);
    let expected = vec![
        PortOp::WriteByte { port: 0xA0, value: 0x20 },
        PortOp::WriteByte { port: 0x20, value: 0x20 },
    ];
    assert_eq!(bus.log, expected);
}

#[test]
fn notify_in_primary_range_acknowledges_primary_alone() {
    let pics = ChainedPics::new(32, 40);
    let mut bus = PicSimulator::new(0, 0);
    pics.notify_end_of_interrupt(&mut bus, 35);
    let expected = vec![PortOp::WriteByte { port: 0x20, value: 0x20 }];
    assert_eq!(bus.log, expected);
}

#[test]
fn notify_outside_both_ranges_acknowledges_neither() {
    let pics = ChainedPics::new(32, 40);
    let mut bus = PicSimulator::new(0, 0);
    pics.notify_end_of_interrupt(&mut bus, 16);
    assert!(bus.log.is_empty());
}

#[test]
fn restore_resets_offsets_to_legacy_defaults() {
    let mut pics = ChainedPics::new(32, 40);
    pics.restore();
    assert_eq!(pics.primary.offset, 0);
    assert_eq!(pics.secondary.offset, 8);
    assert!(pics.handles_interrupt(3));
    assert!(pics.handles_interrupt(12));
    assert!(!pics.handles_interrupt(35));
    // The offsets reset however they were set before.
    let mut other = ChainedPics::new(0xF0, 0x70);
    other.restore();
    assert_eq!(other.primary.offset, 0);
    assert_eq!(other.secondary.offset, 8);
}

#[test]
fn data_write_during_handshake_is_a_handshake_byte() {
    let mut bus = PicSimulator::new(0x55, 0x00);
    // Start the handshake on the primary chip, then write to its data port:
    // the byte is consumed as the vector offset, not as a mask update.
    bus.write_byte(0x20, 0x11);
    bus.write_byte(0x21, 77);
    assert_eq!(bus.primary.offset, 77);
    assert_eq!(bus.primary.mask, 0x55);
    assert_eq!(bus.primary.phase, Phase::AwaitChain);
}
