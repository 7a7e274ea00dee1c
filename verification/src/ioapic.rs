//! The register-indexed I/O APIC: a bank of 32-bit registers reached through
//! a select/data port pair, and the bit-packed redirection entries that
//! describe how each interrupt line is routed.
//!
//! Every memory-mapped access goes through an [`ApicBus`] capability whose
//! contract carries a model of the controller ([`IoApicModel`]): the
//! currently selected register index and the register bank. A register
//! transaction is the two-step protocol of writing the index to the select
//! register and then touching the data register; the two steps must not be
//! interleaved with other access to the same controller, so callers supply
//! their own mutual exclusion.

use bit_field::BitField;
use vstd::prelude::*;

verus! {

/// First register index of the redirection table; entry `n` occupies the two
/// registers at `RDT_BASE + 2 * n` (low half first).
pub const RDT_BASE: u8 = 0x10;

/// Register index of the identity register.
pub const IA_ID_REG: u8 = 0x00;

/// Register index of the version register.
pub const IA_VER_REG: u8 = 0x01;

/// Register index of the arbitration register.
pub const IA_ARB_REG: u8 = 0x02;

/// The bits of `value` in the half-open range `start..end`, shifted down to
/// the low end of the word.
pub open spec fn bits_of(value: u32, start: u32, end: u32) -> u32
    recommends
        start < end,
        end <= 32,
{
    (((value as u64) >> (start as u64)) & (((1u64 << ((end - start) as u64)) - 1) as u64)) as u32
}

/// Relies on `bit_field`'s `BitField::get_bits` for `u32`: for a half-open
/// bit range within the word it returns the bits of that range, shifted down
/// to the low end (bit 0 is the least significant).
#[verifier::external_body]
fn get_bits_u32(value: u32, start: u32, end: u32) -> (r: u32)
    requires
        start < end,
        end <= 32,
    ensures
        r == bits_of(value, start, end),
{
    value.get_bits((start as usize)..(end as usize))
}

/// The identity field of the identity register: bits 24 to 27.
pub open spec fn apic_id_of(reg: u32) -> u8 {
    bits_of(reg, 24, 28) as u8
}

/// The version field of the version register, bits 0 to 8, as the byte-wide
/// interface returns it.
pub open spec fn apic_version_of(reg: u32) -> u8 {
    bits_of(reg, 0, 9) as u8
}

/// The line-count field of the version register: bits 16 to 23, the index of
/// the highest redirection entry.
pub open spec fn apic_irq_count_of(reg: u32) -> u8 {
    bits_of(reg, 16, 24) as u8
}

/// The arbitration-identity field of the arbitration register: bits 24 to 27.
pub open spec fn apic_arbitration_of(reg: u32) -> u8 {
    bits_of(reg, 24, 28) as u8
}

/// The modelled state of one I/O APIC: which register index is selected, and
/// the contents of the register bank, keyed by register index. Indices
/// outside the map's domain are not backed by a register; writes to them are
/// dropped and reads of them are unconstrained.
pub struct IoApicModel {
    /// The register index last written to the select register.
    pub selected: u32,
    /// The register bank.
    pub regs: Map<u32, u32>,
}

/// How the controller reacts to a 32-bit write: at the base address it
/// selects a register index; at the data address (a fixed 0x10 past the
/// base) it stores to the selected register, if one is backed; anywhere else
/// it leaves the controller unchanged.
pub open spec fn apic_write_step(d: IoApicModel, base: usize, addr: usize, value: u32) -> IoApicModel {
    if addr == base {
        IoApicModel { selected: value, regs: d.regs }
    } else if addr == base + 0x10 {
        if d.regs.dom().contains(d.selected) {
            IoApicModel { selected: d.selected, regs: d.regs.insert(d.selected, value) }
        } else {
            d
        }
    } else {
        d
    }
}

/// What a 32-bit read is known to return: at the data address, with a backed
/// register selected, it returns that register's value. Reads elsewhere are
/// unconstrained.
pub open spec fn apic_read_agrees(d: IoApicModel, base: usize, addr: usize, value: u32) -> bool {
    addr == base + 0x10 && d.regs.dom().contains(d.selected) ==> value == d.regs[d.selected]
}

/// The register bank after a store to the selected register: updated if the
/// index is backed, unchanged otherwise.
pub open spec fn apic_regs_after_write(regs: Map<u32, u32>, index: u32, value: u32) -> Map<u32, u32> {
    if regs.dom().contains(index) {
        regs.insert(index, value)
    } else {
        regs
    }
}

/// A 32-bit memory-mapped I/O capability for one I/O APIC, supplied by the
/// embedding program.
///
/// Its contract carries the controller's base address and the model of the
/// controller reached through it. An implementation backed by real hardware
/// is trusted to behave as the model says; the in-memory simulator in this
/// crate is verified against it.
pub trait ApicBus {
    /// The base address the controller's select register is mapped at.
    /// Implementations override this; left at the default, nothing is known
    /// of the address.
    open spec fn base_addr(&self) -> usize {
        vstd::pervasive::arbitrary()
    }

    /// The modelled state of the controller. Implementations override this;
    /// left at the default, nothing is known of the state.
    open spec fn dev(&self) -> IoApicModel {
        vstd::pervasive::arbitrary()
    }

    /// Write one 32-bit value at an address.
    fn write_dword(&mut self, addr: usize, value: u32)
        ensures
            final(self).base_addr() == old(self).base_addr(),
            final(self).dev() == apic_write_step(old(self).dev(), old(self).base_addr(), addr, value),
    ;

    /// Read one 32-bit value at an address.
    fn read_dword(&mut self, addr: usize) -> (value: u32)
        ensures
            final(self).base_addr() == old(self).base_addr(),
            final(self).dev() == old(self).dev(),
            apic_read_agrees(old(self).dev(), old(self).base_addr(), addr, value),
    ;
}

/// A single I/O APIC, reached through its two memory-mapped registers.
#[derive(Debug, Clone, Copy, PartialEq, Eq, Structural)]
pub struct IoApic {
    /// Address of the register-select register.
    pub reg_sel: usize,
    /// Address of the data register, a fixed 0x10 past the select register.
    pub data: usize,
}

impl IoApic {
    /// The data register sits at the architecture's fixed offset past the
    /// select register.
    pub open spec fn wf(&self) -> bool {
        &&& self.reg_sel + 0x10 <= usize::MAX
        &&& self.data == self.reg_sel + 0x10
    }

    /// Create a handle for the I/O APIC whose select register is mapped at
    /// `base_addr`. Touches no hardware; the address is supplied by platform
    /// discovery and taken on trust.
    pub fn new(base_addr: usize) -> (r: IoApic)
        requires
            base_addr + 0x10 <= usize::MAX,
        ensures
            r.wf(),
            r.reg_sel == base_addr,
    {
        IoApic { reg_sel: base_addr, data: base_addr + 0x10 }
    }

    /// Read the register at index `reg`: select it, then read the data
    /// register.
    pub fn read_reg<B: ApicBus>(&self, bus: &mut B, reg: u8) -> (r: u32)
        requires
            self.wf(),
            self.reg_sel == old(bus).base_addr(),
        ensures
            final(bus).base_addr() == old(bus).base_addr(),
            final(bus).dev().selected == reg as u32,
            final(bus).dev().regs == old(bus).dev().regs,
            old(bus).dev().regs.dom().contains(reg as u32) ==> r == old(bus).dev().regs[
                reg as u32
            ],
    {
        bus.write_dword(self.reg_sel, reg as u32);
        bus.read_dword(self.data)
    }

    /// Write `val` to the register at index `reg`: select it, then write the
    /// data register.
    pub fn write_reg<B: ApicBus>(&self, bus: &mut B, reg: u8, val: u32)
        requires
            self.wf(),
            self.reg_sel == old(bus).base_addr(),
        ensures
            final(bus).base_addr() == old(bus).base_addr(),
            final(bus).dev().selected == reg as u32,
            final(bus).dev().regs == apic_regs_after_write(old(bus).dev().regs, reg as u32, val),
    {
        bus.write_dword(self.reg_sel, reg as u32);
        bus.write_dword(self.data, val);
    }

    /// Return the identity of this I/O APIC, from the identity register.
    pub fn id<B: ApicBus>(&self, bus: &mut B) -> (r: u8)
        requires
            self.wf(),
            self.reg_sel == old(bus).base_addr(),
        ensures
            final(bus).base_addr() == old(bus).base_addr(),
            final(bus).dev().regs == old(bus).dev().regs,
            old(bus).dev().regs.dom().contains(IA_ID_REG as u32) ==> r == apic_id_of(
                old(bus).dev().regs[IA_ID_REG as u32],
            ),
    {
        let raw = self.read_reg(bus, IA_ID_REG);
        get_bits_u32(raw, 24, 28) as u8
    }

    /// Return the version of this I/O APIC, from the version register.
    pub fn version<B: ApicBus>(&self, bus: &mut B) -> (r: u8)
        requires
            self.wf(),
            self.reg_sel == old(bus).base_addr(),
        ensures
            final(bus).base_addr() == old(bus).base_addr(),
            final(bus).dev().regs == old(bus).dev().regs,
            old(bus).dev().regs.dom().contains(IA_VER_REG as u32) ==> r == apic_version_of(
                old(bus).dev().regs[IA_VER_REG as u32],
            ),
    {
        let raw = self.read_reg(bus, IA_VER_REG);
        get_bits_u32(raw, 0, 9) as u8
    }

    /// Return the line-count field of the version register: the index of the
    /// highest redirection entry this I/O APIC offers.
    pub fn irqs<B: ApicBus>(&self, bus: &mut B) -> (r: u8)
        requires
            self.wf(),
            self.reg_sel == old(bus).base_addr(),
        ensures
            final(bus).base_addr() == old(bus).base_addr(),
            final(bus).dev().regs == old(bus).dev().regs,
            old(bus).dev().regs.dom().contains(IA_VER_REG as u32) ==> r == apic_irq_count_of(
                old(bus).dev().regs[IA_VER_REG as u32],
            ),
    {
        let raw = self.read_reg(bus, IA_VER_REG);
        get_bits_u32(raw, 16, 24) as u8
    }

    /// Return the arbitration identity of this I/O APIC, from the
    /// arbitration register.
    pub fn arbitration_id<B: ApicBus>(&self, bus: &mut B) -> (r: u8)
        requires
            self.wf(),
            self.reg_sel == old(bus).base_addr(),
        ensures
            final(bus).base_addr() == old(bus).base_addr(),
            final(bus).dev().regs == old(bus).dev().regs,
            old(bus).dev().regs.dom().contains(IA_ARB_REG as u32) ==> r == apic_arbitration_of(
                old(bus).dev().regs[IA_ARB_REG as u32],
            ),
    {
        let raw = self.read_reg(bus, IA_ARB_REG);
        get_bits_u32(raw, 24, 28) as u8
    }

    /// Read the redirection entry of interrupt line `irq`, low half first,
    /// from the two registers the line occupies.
    pub fn read_redirection_entry<B: ApicBus>(&self, bus: &mut B, irq: u8) -> (r:
        RedirectionTableEntry)
        requires
            self.wf(),
            self.reg_sel == old(bus).base_addr(),
            irq < 120,
        ensures
            final(bus).base_addr() == old(bus).base_addr(),
            final(bus).dev().regs == old(bus).dev().regs,
            old(bus).dev().regs.dom().contains((RDT_BASE + 2 * irq) as u32) ==> r.spec_low()
                == old(bus).dev().regs[(RDT_BASE + 2 * irq) as u32],
            old(bus).dev().regs.dom().contains((RDT_BASE + 2 * irq + 1) as u32) ==> r.spec_high()
                == old(bus).dev().regs[(RDT_BASE + 2 * irq + 1) as u32],
    {
        let low = self.read_reg(bus, RDT_BASE + 2 * irq);
        let high = self.read_reg(bus, RDT_BASE + 2 * irq + 1);
        RedirectionTableEntry::new(low, high)
    }

    /// Program the redirection entry of interrupt line `irq`, low half
    /// first, into the two registers the line occupies.
    pub fn write_redirection_entry<B: ApicBus>(&self, bus: &mut B, irq: u8, entry:
        RedirectionTableEntry)
        requires
            self.wf(),
            self.reg_sel == old(bus).base_addr(),
            irq < 120,
        ensures
            final(bus).base_addr() == old(bus).base_addr(),
            final(bus).dev().regs == apic_regs_after_write(
                apic_regs_after_write(
                    old(bus).dev().regs,
                    (RDT_BASE + 2 * irq) as u32,
                    entry.spec_low(),
                ),
                (RDT_BASE + 2 * irq + 1) as u32,
                entry.spec_high(),
            ),
    {
        self.write_reg(bus, RDT_BASE + 2 * irq, entry.low());
        self.write_reg(bus, RDT_BASE + 2 * irq + 1, entry.high());
    }
}

/// How a routed interrupt is presented to the receiving processor: a closed
/// set of six named three-bit patterns in a redirection entry. Patterns
/// outside the named set are reserved.
#[derive(Debug, Clone, Copy, PartialEq, Eq, Structural)]
pub enum DeliveryMode {
    /// Deliver on the vector in the entry.
    Fixed,
    /// Deliver to the lowest-priority processor among the destinations.
    LowPriority,
    /// System-management interrupt.
    Smi,
    /// Non-maskable interrupt.
    Nmi,
    /// Initialization signal.
    Init,
    /// Externally supplied vector, as from a legacy controller.
    ExtInit,
}

impl DeliveryMode {
    /// The three-bit pattern of this mode.
    pub open spec fn spec_bits(self) -> u8 {
        match self {
            DeliveryMode::Fixed => 0b000,
            DeliveryMode::LowPriority => 0b001,
            DeliveryMode::Smi => 0b010,
            DeliveryMode::Nmi => 0b100,
            DeliveryMode::Init => 0b101,
            DeliveryMode::ExtInit => 0b111,
        }
    }

    /// The mode a three-bit pattern names, if it names one.
    pub open spec fn spec_from_bits(bits: u8) -> Option<DeliveryMode> {
        if bits == 0b000 {
            Some(DeliveryMode::Fixed)
        } else if bits == 0b001 {
            Some(DeliveryMode::LowPriority)
        } else if bits == 0b010 {
            Some(DeliveryMode::Smi)
        } else if bits == 0b100 {
            Some(DeliveryMode::Nmi)
        } else if bits == 0b101 {
            Some(DeliveryMode::Init)
        } else if bits == 0b111 {
            Some(DeliveryMode::ExtInit)
        } else {
            None
        }
    }

    /// Return this mode's three-bit pattern.
    pub fn bits(self) -> (r: u8)
        ensures
            r == self.spec_bits(),
    {
        match self {
            DeliveryMode::Fixed => 0b000,
            DeliveryMode::LowPriority => 0b001,
            DeliveryMode::Smi => 0b010,
            DeliveryMode::Nmi => 0b100,
            DeliveryMode::Init => 0b101,
            DeliveryMode::ExtInit => 0b111,
        }
    }

    /// Decode a three-bit pattern; reserved patterns decode to `None`.
    pub fn from_bits(bits: u8) -> (r: Option<DeliveryMode>)
        ensures
            r == Self::spec_from_bits(bits),
    {
        if bits == 0b000 {
            Some(DeliveryMode::Fixed)
        } else if bits == 0b001 {
            Some(DeliveryMode::LowPriority)
        } else if bits == 0b010 {
            Some(DeliveryMode::Smi)
        } else if bits == 0b100 {
            Some(DeliveryMode::Nmi)
        } else if bits == 0b101 {
            Some(DeliveryMode::Init)
        } else if bits == 0b111 {
            Some(DeliveryMode::ExtInit)
        } else {
            None
        }
    }
}

/// Encoding law: every named delivery mode decodes back from its own bit
/// pattern, so the six patterns are mutually distinguishable.
pub proof fn lemma_delivery_mode_bits_round_trip(m: DeliveryMode)
    ensures
        DeliveryMode::spec_from_bits(m.spec_bits()) == Some(m),
{
}

/// Redirection entry for one interrupt line: a 64-bit record split in two
/// 32-bit halves. The low half holds the vector (bits 0 to 7), the delivery
/// mode (bits 8 to 10), the destination mode (bit 11), the pin polarity (bit
/// 13), the trigger mode (bit 15) and the mask bit (bit 16); the high half
/// holds the destination identifier (bits 24 to 31).
#[derive(Debug, Clone, Copy, PartialEq, Eq, Structural)]
pub struct RedirectionTableEntry {
    high: u32,
    low: u32,
}

impl RedirectionTableEntry {
    /// The raw low half.
    pub closed spec fn spec_low(self) -> u32 {
        self.low
    }

    /// The raw high half.
    pub closed spec fn spec_high(self) -> u32 {
        self.high
    }

    /// The interrupt vector the line is routed to.
    pub open spec fn spec_vector(self) -> u8 {
        (self.spec_low() & 0xFF) as u8
    }

    /// The raw three-bit delivery-mode field.
    pub open spec fn spec_delivery_bits(self) -> u8 {
        ((self.spec_low() >> 8) & 0b111) as u8
    }

    /// The delivery mode, if the field holds a named pattern.
    pub open spec fn spec_delivery_mode(self) -> Option<DeliveryMode> {
        DeliveryMode::spec_from_bits(self.spec_delivery_bits())
    }

    /// Whether the destination is a logical processor group rather than a
    /// physical processor.
    pub open spec fn spec_logical_destination(self) -> bool {
        (self.spec_low() >> 11) & 1 == 1
    }

    /// Whether the interrupt pin is active-low rather than active-high.
    pub open spec fn spec_active_low(self) -> bool {
        (self.spec_low() >> 13) & 1 == 1
    }

    /// Whether the line is level-triggered rather than edge-triggered.
    pub open spec fn spec_level_triggered(self) -> bool {
        (self.spec_low() >> 15) & 1 == 1
    }

    /// Whether the line is suppressed.
    pub open spec fn spec_masked(self) -> bool {
        (self.spec_low() >> 16) & 1 == 1
    }

    /// The destination identifier.
    pub open spec fn spec_destination(self) -> u8 {
        ((self.spec_high() >> 24) & 0xFF) as u8
    }

    /// Assemble an entry from its raw halves.
    pub fn new(low: u32, high: u32) -> (r: RedirectionTableEntry)
        ensures
            r.spec_low() == low,
            r.spec_high() == high,
    {
        RedirectionTableEntry { high, low }
    }

    /// Return the raw low half.
    pub fn low(self) -> (r: u32)
        ensures
            r == self.spec_low(),
    {
        self.low
    }

    /// Return the raw high half.
    pub fn high(self) -> (r: u32)
        ensures
            r == self.spec_high(),
    {
        self.high
    }

    /// Return the interrupt vector.
    pub fn vector(self) -> (r: u8)
        ensures
            r == self.spec_vector(),
    {
        (self.low & 0xFF) as u8
    }

    /// Return the delivery mode; `None` if the field holds a reserved
    /// pattern.
    pub fn delivery_mode(self) -> (r: Option<DeliveryMode>)
        ensures
            r == self.spec_delivery_mode(),
    {
        DeliveryMode::from_bits(((self.low >> 8) & 0b111) as u8)
    }

    /// Return whether the destination is logical.
    pub fn logical_destination(self) -> (r: bool)
        ensures
            r == self.spec_logical_destination(),
    {
        (self.low >> 11) & 1 == 1
    }

    /// Return whether the pin is active-low.
    pub fn active_low(self) -> (r: bool)
        ensures
            r == self.spec_active_low(),
    {
        (self.low >> 13) & 1 == 1
    }

    /// Return whether the line is level-triggered.
    pub fn level_triggered(self) -> (r: bool)
        ensures
            r == self.spec_level_triggered(),
    {
        (self.low >> 15) & 1 == 1
    }

    /// Return whether the line is suppressed.
    pub fn masked(self) -> (r: bool)
        ensures
            r == self.spec_masked(),
    {
        (self.low >> 16) & 1 == 1
    }

    /// Return the destination identifier.
    pub fn destination(self) -> (r: u8)
        ensures
            r == self.spec_destination(),
    {
        ((self.high >> 24) & 0xFF) as u8
    }

    /// Route the line to the interrupt vector `vector`, leaving every other
    /// field as it was.
    pub fn set_vector(&mut self, vector: u8)
        ensures
            final(self).spec_vector() == vector,
            final(self).spec_delivery_bits() == old(self).spec_delivery_bits(),
            final(self).spec_logical_destination() == old(self).spec_logical_destination(),
            final(self).spec_active_low() == old(self).spec_active_low(),
            final(self).spec_level_triggered() == old(self).spec_level_triggered(),
            final(self).spec_masked() == old(self).spec_masked(),
            final(self).spec_high() == old(self).spec_high(),
    {
        let l = self.low;
        self.low = (l & 0xFFFF_FF00) | (vector as u32);
        proof {
            assert((((l & 0xFFFF_FF00) | (vector as u32)) & 0xFF) as u8 == vector
                && (((l & 0xFFFF_FF00) | (vector as u32)) >> 8) & 0b111 == (l >> 8) & 0b111
                && (((l & 0xFFFF_FF00) | (vector as u32)) >> 11) & 1 == (l >> 11) & 1
                && (((l & 0xFFFF_FF00) | (vector as u32)) >> 13) & 1 == (l >> 13) & 1
                && (((l & 0xFFFF_FF00) | (vector as u32)) >> 15) & 1 == (l >> 15) & 1
                && (((l & 0xFFFF_FF00) | (vector as u32)) >> 16) & 1 == (l >> 16) & 1)
                by (bit_vector);
        }
    }

    /// Set the delivery mode, leaving every other field as it was.
    pub fn set_delivery_mode(&mut self, mode: DeliveryMode)
        ensures
            final(self).spec_delivery_mode() == Some(mode),
            final(self).spec_delivery_bits() == mode.spec_bits(),
            final(self).spec_vector() == old(self).spec_vector(),
            final(self).spec_logical_destination() == old(self).spec_logical_destination(),
            final(self).spec_active_low() == old(self).spec_active_low(),
            final(self).spec_level_triggered() == old(self).spec_level_triggered(),
            final(self).spec_masked() == old(self).spec_masked(),
            final(self).spec_high() == old(self).spec_high(),
    {
        let l = self.low;
        let b = mode.bits();
        self.low = (l & 0xFFFF_F8FF) | ((b as u32) << 8);
        proof {
            assert(((((l & 0xFFFF_F8FF) | ((b as u32) << 8)) >> 8) & 0b111) as u8 == b
                && ((l & 0xFFFF_F8FF) | ((b as u32) << 8)) & 0xFF == l & 0xFF
                && (((l & 0xFFFF_F8FF) | ((b as u32) << 8)) >> 11) & 1 == (l >> 11) & 1
                && (((l & 0xFFFF_F8FF) | ((b as u32) << 8)) >> 13) & 1 == (l >> 13) & 1
                && (((l & 0xFFFF_F8FF) | ((b as u32) << 8)) >> 15) & 1 == (l >> 15) & 1
                && (((l & 0xFFFF_F8FF) | ((b as u32) << 8)) >> 16) & 1 == (l >> 16) & 1)
                by (bit_vector)
                requires
                    b < 8,
            ;
            lemma_delivery_mode_bits_round_trip(mode);
        }
    }

    /// Choose between a logical destination (`true`) and a physical one
    /// (`false`), leaving every other field as it was.
    pub fn set_logical_destination(&mut self, logical: bool)
        ensures
            final(self).spec_logical_destination() == logical,
            final(self).spec_vector() == old(self).spec_vector(),
            final(self).spec_delivery_bits() == old(self).spec_delivery_bits(),
            final(self).spec_active_low() == old(self).spec_active_low(),
            final(self).spec_level_triggered() == old(self).spec_level_triggered(),
            final(self).spec_masked() == old(self).spec_masked(),
            final(self).spec_high() == old(self).spec_high(),
    {
        let l = self.low;
        if logical {
            self.low = l | 0x0000_0800;
            proof {
                assert(((l | 0x0000_0800) >> 11) & 1 == 1
                    && (l | 0x0000_0800) & 0xFF == l & 0xFF
                    && ((l | 0x0000_0800) >> 8) & 0b111 == (l >> 8) & 0b111
                    && ((l | 0x0000_0800) >> 13) & 1 == (l >> 13) & 1
                    && ((l | 0x0000_0800) >> 15) & 1 == (l >> 15) & 1
                    && ((l | 0x0000_0800) >> 16) & 1 == (l >> 16) & 1) by (bit_vector);
            }
        } else {
            self.low = l & 0xFFFF_F7FF;
            proof {
                assert(((l & 0xFFFF_F7FF) >> 11) & 1 == 0
                    && (l & 0xFFFF_F7FF) & 0xFF == l & 0xFF
                    && ((l & 0xFFFF_F7FF) >> 8) & 0b111 == (l >> 8) & 0b111
                    && ((l & 0xFFFF_F7FF) >> 13) & 1 == (l >> 13) & 1
                    && ((l & 0xFFFF_F7FF) >> 15) & 1 == (l >> 15) & 1
                    && ((l & 0xFFFF_F7FF) >> 16) & 1 == (l >> 16) & 1) by (bit_vector);
            }
        }
    }

    /// Choose between an active-low pin (`true`) and an active-high one
    /// (`false`), leaving every other field as it was.
    pub fn set_active_low(&mut self, active_low: bool)
        ensures
            final(self).spec_active_low() == active_low,
            final(self).spec_vector() == old(self).spec_vector(),
            final(self).spec_delivery_bits() == old(self).spec_delivery_bits(),
            final(self).spec_logical_destination() == old(self).spec_logical_destination(),
            final(self).spec_level_triggered() == old(self).spec_level_triggered(),
            final(self).spec_masked() == old(self).spec_masked(),
            final(self).spec_high() == old(self).spec_high(),
    {
        let l = self.low;
        if active_low {
            self.low = l | 0x0000_2000;
            proof {
                assert(((l | 0x0000_2000) >> 13) & 1 == 1
                    && (l | 0x0000_2000) & 0xFF == l & 0xFF
                    && ((l | 0x0000_2000) >> 8) & 0b111 == (l >> 8) & 0b111
                    && ((l | 0x0000_2000) >> 11) & 1 == (l >> 11) & 1
                    && ((l | 0x0000_2000) >> 15) & 1 == (l >> 15) & 1
                    && ((l | 0x0000_2000) >> 16) & 1 == (l >> 16) & 1) by (bit_vector);
            }
        } else {
            self.low = l & 0xFFFF_DFFF;
            proof {
                assert(((l & 0xFFFF_DFFF) >> 13) & 1 == 0
                    && (l & 0xFFFF_DFFF) & 0xFF == l & 0xFF
                    && ((l & 0xFFFF_DFFF) >> 8) & 0b111 == (l >> 8) & 0b111
                    && ((l & 0xFFFF_DFFF) >> 11) & 1 == (l >> 11) & 1
                    && ((l & 0xFFFF_DFFF) >> 15) & 1 == (l >> 15) & 1
                    && ((l & 0xFFFF_DFFF) >> 16) & 1 == (l >> 16) & 1) by (bit_vector);
            }
        }
    }

    /// Choose between level triggering (`true`) and edge triggering
    /// (`false`), leaving every other field as it was.
    pub fn set_level_triggered(&mut self, level: bool)
        ensures
            final(self).spec_level_triggered() == level,
            final(self).spec_vector() == old(self).spec_vector(),
            final(self).spec_delivery_bits() == old(self).spec_delivery_bits(),
            final(self).spec_logical_destination() == old(self).spec_logical_destination(),
            final(self).spec_active_low() == old(self).spec_active_low(),
            final(self).spec_masked() == old(self).spec_masked(),
            final(self).spec_high() == old(self).spec_high(),
    {
        let l = self.low;
        if level {
            self.low = l | 0x0000_8000;
            proof {
                assert(((l | 0x0000_8000) >> 15) & 1 == 1
                    && (l | 0x0000_8000) & 0xFF == l & 0xFF
                    && ((l | 0x0000_8000) >> 8) & 0b111 == (l >> 8) & 0b111
                    && ((l | 0x0000_8000) >> 11) & 1 == (l >> 11) & 1
                    && ((l | 0x0000_8000) >> 13) & 1 == (l >> 13) & 1
                    && ((l | 0x0000_8000) >> 16) & 1 == (l >> 16) & 1) by (bit_vector);
            }
        } else {
            self.low = l & 0xFFFF_7FFF;
            proof {
                assert(((l & 0xFFFF_7FFF) >> 15) & 1 == 0
                    && (l & 0xFFFF_7FFF) & 0xFF == l & 0xFF
                    && ((l & 0xFFFF_7FFF) >> 8) & 0b111 == (l >> 8) & 0b111
                    && ((l & 0xFFFF_7FFF) >> 11) & 1 == (l >> 11) & 1
                    && ((l & 0xFFFF_7FFF) >> 13) & 1 == (l >> 13) & 1
                    && ((l & 0xFFFF_7FFF) >> 16) & 1 == (l >> 16) & 1) by (bit_vector);
            }
        }
    }

    /// Suppress the line (`true`) or let it deliver (`false`), leaving every
    /// other field as it was.
    pub fn set_masked(&mut self, masked: bool)
        ensures
            final(self).spec_masked() == masked,
            final(self).spec_vector() == old(self).spec_vector(),
            final(self).spec_delivery_bits() == old(self).spec_delivery_bits(),
            final(self).spec_logical_destination() == old(self).spec_logical_destination(),
            final(self).spec_active_low() == old(self).spec_active_low(),
            final(self).spec_level_triggered() == old(self).spec_level_triggered(),
            final(self).spec_high() == old(self).spec_high(),
    {
        let l = self.low;
        if masked {
            self.low = l | 0x0001_0000;
            proof {
                assert(((l | 0x0001_0000) >> 16) & 1 == 1
                    && (l | 0x0001_0000) & 0xFF == l & 0xFF
                    && ((l | 0x0001_0000) >> 8) & 0b111 == (l >> 8) & 0b111
                    && ((l | 0x0001_0000) >> 11) & 1 == (l >> 11) & 1
                    && ((l | 0x0001_0000) >> 13) & 1 == (l >> 13) & 1
                    && ((l | 0x0001_0000) >> 15) & 1 == (l >> 15) & 1) by (bit_vector);
            }
        } else {
            self.low = l & 0xFFFE_FFFF;
            proof {
                assert(((l & 0xFFFE_FFFF) >> 16) & 1 == 0
                    && (l & 0xFFFE_FFFF) & 0xFF == l & 0xFF
                    && ((l & 0xFFFE_FFFF) >> 8) & 0b111 == (l >> 8) & 0b111
                    && ((l & 0xFFFE_FFFF) >> 11) & 1 == (l >> 11) & 1
                    && ((l & 0xFFFE_FFFF) >> 13) & 1 == (l >> 13) & 1
                    && ((l & 0xFFFE_FFFF) >> 15) & 1 == (l >> 15) & 1) by (bit_vector);
            }
        }
    }

    /// Set the destination identifier, leaving every other field as it was.
    pub fn set_destination(&mut self, destination: u8)
        ensures
            final(self).spec_destination() == destination,
            final(self).spec_low() == old(self).spec_low(),
    {
        let h = self.high;
        self.high = (h & 0x00FF_FFFF) | ((destination as u32) << 24);
        proof {
            assert((((h & 0x00FF_FFFF) | ((destination as u32) << 24)) >> 24) & 0xFF
                == destination as u32) by (bit_vector);
        }
    }
}

} // verus!
