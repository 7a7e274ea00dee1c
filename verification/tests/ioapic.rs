use complete_pic::ioapic::{ApicBus, DeliveryMode, IoApic, RedirectionTableEntry};
use complete_pic::sim::IoApicSimulator;

const BASE: usize = 0xFEC0_0000;

fn simulator_with(regs: Vec<u32>) -> IoApicSimulator {
    IoApicSimulator::new(BASE, regs)
}

#[test]
fn version_register_decodes() {
    let mut bus = simulator_with(vec![0, 0x0017_0011, 0]);
    let apic = IoApic::new(BASE);
    assert_eq!(apic.version(&mut bus), 0x11);
    assert_eq!(apic.irqs(&mut bus), 0x17);
}

#[test]
fn identity_registers_decode() {
    let mut bus = simulator_with(vec![0x0A00_0000, 0, 0x0500_0000]);
    let apic = IoApic::new(BASE);
    assert_eq!(apic.id(&mut bus), 0x0A);
    assert_eq!(apic.arbitration_id(&mut bus), 0x05);
}

#[test]
fn register_write_read_round_trip() {
    let mut bus = simulator_with(vec![0; 0x40]);
    let apic = IoApic::new(BASE);
    apic.write_reg(&mut bus, 0x12, 0xDEAD_BEEF);
    assert_eq!(apic.read_reg(&mut bus, 0x12), 0xDEAD_BEEF);
    assert_eq!(apic.read_reg(&mut bus, 0x13), 0);
}

#[test]
fn register_access_selects_then_touches_data() {
    let mut bus = simulator_with(vec![7, 8, 9]);
    let apic = IoApic::new(BASE);
    assert_eq!(apic.read_reg(&mut bus, 2), 9);
    assert_eq!(bus.selected, 2);
    apic.write_reg(&mut bus, 1, 42);
    assert_eq!(bus.selected, 1);
    assert_eq!(bus.regs[1], 42);
}

#[test]
fn write_to_unbacked_register_is_dropped() {
    let mut bus = simulator_with(vec![7, 8, 9]);
    let apic = IoApic::new(BASE);
    apic.write_reg(&mut bus, 0x50, 1);
    assert_eq!(bus.regs, vec![7, 8, 9]);
}

#[test]
fn redirection_entry_round_trips_through_registers() {
    let mut bus = simulator_with(vec![0; 0x40]);
    let apic = IoApic::new(BASE);
    let mut entry = RedirectionTableEntry::new(0, 0);
    entry.set_vector(0x30);
    entry.set_delivery_mode(DeliveryMode::LowPriority);
    entry.set_destination(0x0F);
    apic.write_redirection_entry(&mut bus, 1, entry);
    // Entry 1 occupies registers 0x12 (low half) and 0x13 (high half).
    assert_eq!(bus.regs[0x12], entry.low());
    assert_eq!(bus.regs[0x13], entry.high());
    let back = apic.read_redirection_entry(&mut bus, 1);
    assert_eq!(back, entry);
}

#[test]
fn redirection_entry_encodes_fields() {
    let mut entry = RedirectionTableEntry::new(0, 0);
    entry.set_vector(0x30);
    entry.set_delivery_mode(DeliveryMode::Nmi);
    entry.set_logical_destination(true);
    entry.set_active_low(false);
    entry.set_level_triggered(true);
    entry.set_masked(true);
    entry.set_destination(0xBE);
    assert_eq!(entry.low(), 0x0001_8C30);
    assert_eq!(entry.high(), 0xBE00_0000);
    assert_eq!(entry.vector(), 0x30);
    assert_eq!(entry.delivery_mode(), Some(DeliveryMode::Nmi));
    assert!(entry.logical_destination());
    assert!(!entry.active_low());
    assert!(entry.level_triggered());
    assert!(entry.masked());
    assert_eq!(entry.destination(), 0xBE);
}

#[test]
fn redirection_entry_decodes_raw_halves() {
    let entry = RedirectionTableEntry::new(0x0001_8C30, 0xBE00_0000);
    assert_eq!(entry.vector(), 0x30);
    assert_eq!(entry.delivery_mode(), Some(DeliveryMode::Nmi));
    assert!(entry.logical_destination());
    assert!(!entry.active_low());
    assert!(entry.level_triggered());
    assert!(entry.masked());
    assert_eq!(entry.destination(), 0xBE);
}

#[test]
fn setters_leave_other_fields_alone() {
    let mut entry = RedirectionTableEntry::new(0xFFFF_FFFF, 0xFFFF_FFFF);
    entry.set_vector(0);
    assert_eq!(entry.vector(), 0);
    assert!(entry.masked());
    assert!(entry.level_triggered());
    assert_eq!(entry.destination(), 0xFF);
    entry.set_masked(false);
    assert!(!entry.masked());
    assert!(entry.level_triggered());
    assert!(entry.active_low());
    assert_eq!(entry.high(), 0xFFFF_FFFF);
}

#[test]
fn delivery_mode_bit_patterns() {
    let modes = [
        (DeliveryMode::Fixed, 0b000),
        (DeliveryMode::LowPriority, 0b001),
        (DeliveryMode::Smi, 0b010),
        (DeliveryMode::Nmi, 0b100),
        (DeliveryMode::Init, 0b101),
        (DeliveryMode::ExtInit, 0b111),
    ];
    for (mode, bits) in modes {
        assert_eq!(mode.bits(), bits);
        assert_eq!(DeliveryMode::from_bits(bits), Some(mode));
    }
    assert_eq!(DeliveryMode::from_bits(0b011), None);
    assert_eq!(DeliveryMode::from_bits(0b110), None);
    assert_eq!(DeliveryMode::from_bits(8), None);
}

#[test]
fn raw_access_follows_select_data_protocol() {
    let mut bus = simulator_with(vec![5, 6, 7]);
    // A read of the data address returns the register selected beforehand.
    bus.write_dword(BASE, 2);
    assert_eq!(bus.read_dword(BASE + 0x10), 7);
    // Writing elsewhere changes nothing.
    bus.write_dword(BASE + 4, 99);
    assert_eq!(bus.read_dword(BASE + 0x10), 7);
}
