//! In-memory implementations of the I/O capabilities, following the
//! documented device behaviour step for step. They make the protocol logic
//! observable and testable without a machine: the simulated chips expose
//! their programmable state as plain fields, and every transaction is kept
//! in a log.

use vstd::prelude::*;

use crate::ioapic::{ApicBus, IoApicModel};
use crate::pic8259::{
    chip_on_command, chip_on_data, pics_ready, ChipModel, Phase, PicBus, PicPairModel, PortOp,
    CMD_INIT, PRIMARY_CMD, PRIMARY_DATA, SECONDARY_CMD, SECONDARY_DATA,
};

verus! {

/// Step one simulated chip on a byte written to its command port.
fn sim_chip_on_command(c: ChipModel, value: u8) -> (r: ChipModel)
    ensures
        r == chip_on_command(c, value),
{
    if value == CMD_INIT {
        ChipModel { mask: c.mask, offset: c.offset, phase: Phase::AwaitOffset }
    } else {
        c
    }
}

/// Step one simulated chip on a byte written to its data port.
fn sim_chip_on_data(c: ChipModel, value: u8) -> (r: ChipModel)
    ensures
        r == chip_on_data(c, value),
{
    match c.phase {
        Phase::Ready => ChipModel { mask: value, offset: c.offset, phase: Phase::Ready },
        Phase::AwaitOffset => ChipModel { mask: c.mask, offset: value, phase: Phase::AwaitChain },
        Phase::AwaitChain => ChipModel { mask: c.mask, offset: c.offset, phase: Phase::AwaitMode },
        Phase::AwaitMode => ChipModel { mask: c.mask, offset: c.offset, phase: Phase::Ready },
    }
}

/// A simulated pair of chained 8259 chips behind the architecture-fixed
/// ports, with a log of every transaction issued to them.
pub struct PicSimulator {
    /// The simulated primary chip.
    pub primary: ChipModel,
    /// The simulated secondary chip.
    pub secondary: ChipModel,
    /// Every transaction issued so far, oldest first.
    pub log: Vec<PortOp>,
}

impl PicSimulator {
    /// A fresh pair of ready chips with the given pre-set interrupt masks,
    /// offsets at the legacy defaults of 0 and 8, and an empty log.
    pub fn new(primary_mask: u8, secondary_mask: u8) -> (r: PicSimulator)
        ensures
            r.dev() == (PicPairModel {
                primary: ChipModel { mask: primary_mask, offset: 0, phase: Phase::Ready },
                secondary: ChipModel { mask: secondary_mask, offset: 8, phase: Phase::Ready },
            }),
            pics_ready(r.dev()),
            r.trace() == Seq::<PortOp>::empty(),
    {
        PicSimulator {
            primary: ChipModel { mask: primary_mask, offset: 0, phase: Phase::Ready },
            secondary: ChipModel { mask: secondary_mask, offset: 8, phase: Phase::Ready },
            log: Vec::new(),
        }
    }
}

impl PicBus for PicSimulator {
    open spec fn dev(&self) -> PicPairModel {
        PicPairModel { primary: self.primary, secondary: self.secondary }
    }

    open spec fn trace(&self) -> Seq<PortOp> {
        self.log@
    }

    fn write_byte(&mut self, port: u16, value: u8) {
        if port == PRIMARY_CMD {
            self.primary = sim_chip_on_command(self.primary, value);
        } else if port == PRIMARY_DATA {
            self.primary = sim_chip_on_data(self.primary, value);
        } else if port == SECONDARY_CMD {
            self.secondary = sim_chip_on_command(self.secondary, value);
        } else if port == SECONDARY_DATA {
            self.secondary = sim_chip_on_data(self.secondary, value);
        }
        self.log.push(PortOp::WriteByte { port, value });
    }

    fn read_byte(&mut self, port: u16) -> (value: u8) {
        let v: u8 = if port == PRIMARY_DATA && self.primary.phase == Phase::Ready {
            self.primary.mask
        } else if port == SECONDARY_DATA && self.secondary.phase == Phase::Ready {
            self.secondary.mask
        } else {
            0
        };
        self.log.push(PortOp::ReadByte { port, value: v });
        v
    }
}

/// A simulated I/O APIC: a register bank of consecutive indices starting at
/// 0, reached through the select/data protocol at a base address.
pub struct IoApicSimulator {
    /// The address the select register is mapped at; the data register sits
    /// 0x10 past it.
    pub base: usize,
    /// The register index last written to the select register.
    pub selected: u32,
    /// The register bank; index `i` backs register `i`.
    pub regs: Vec<u32>,
}

impl IoApicSimulator {
    /// A fresh controller at `base` whose register bank holds `regs`, with
    /// register 0 selected.
    pub fn new(base: usize, regs: Vec<u32>) -> (r: IoApicSimulator)
        ensures
            r.base_addr() == base,
            r.dev().selected == 0,
            r.dev().regs == Map::new(
                |i: u32| i < regs@.len(),
                |i: u32| regs@[i as int],
            ),
    {
        IoApicSimulator { base, selected: 0, regs }
    }
}

impl ApicBus for IoApicSimulator {
    open spec fn base_addr(&self) -> usize {
        self.base
    }

    open spec fn dev(&self) -> IoApicModel {
        IoApicModel {
            selected: self.selected,
            regs: Map::new(|i: u32| i < self.regs@.len(), |i: u32| self.regs@[i as int]),
        }
    }

    fn write_dword(&mut self, addr: usize, value: u32) {
        if addr == self.base {
            self.selected = value;
        } else if addr >= 0x10 && addr - 0x10 == self.base {
            let index = self.selected as usize;
            if index < self.regs.len() {
                self.regs.set(index, value);
                proof {
                    assert(self.dev().regs =~= old(self).dev().regs.insert(
                        old(self).selected,
                        value,
                    ));
                }
            }
        }
    }

    fn read_dword(&mut self, addr: usize) -> (value: u32) {
        if addr >= 0x10 && addr - 0x10 == self.base {
            let index = self.selected as usize;
            if index < self.regs.len() {
                self.regs[index]
            } else {
                0
            }
        } else {
            0
        }
    }
}

} // verus!

