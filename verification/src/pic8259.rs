//! The two legacy 8259 interrupt controllers, chained master-to-slave.
//!
//! The primary chip alone talks to the CPU; the secondary chip relays its
//! interrupts through one cascade line of the primary. Every port access goes
//! through a [`PicBus`] capability, whose contract carries a model of the
//! programmable state of both chips ([`PicPairModel`]) and a log of the port
//! transactions issued so far. The operations of [`ChainedPics`] are specified
//! against that model: initialization is mask-preserving, disabling masks
//! every line, and end-of-interrupt notifications reach exactly the chips
//! that were on the signalling path.

use vstd::prelude::*;

verus! {

/// Command port of the primary chip, fixed by architecture convention.
pub const PRIMARY_CMD: u16 = 0x20;

/// Data/mask port of the primary chip.
pub const PRIMARY_DATA: u16 = 0x21;

/// Command port of the secondary chip.
pub const SECONDARY_CMD: u16 = 0xA0;

/// Data/mask port of the secondary chip.
pub const SECONDARY_DATA: u16 = 0xA1;

/// Legacy scratch port; a throwaway write to it serves as a settling delay
/// between initialization bytes on old hardware.
pub const WAIT_PORT: u16 = 0x80;

/// Command byte that starts the three-byte initialization handshake.
pub const CMD_INIT: u8 = 0x11;

/// Command byte acknowledging the end of an interrupt.
pub const CMD_END_OF_INTERRUPT: u8 = 0x20;

/// Operating-mode byte sent as the last handshake step.
pub const MODE_8086: u8 = 0x01;

/// Handshake byte telling the primary chip which input line (as a bitmask)
/// the secondary chip is wired to: line 2.
pub const CASCADE_TO_PRIMARY: u8 = 4;

/// Handshake byte telling the secondary chip its cascade identity.
pub const CASCADE_TO_SECONDARY: u8 = 2;

/// One port transaction, as observed on the bus.
#[derive(Debug, Clone, Copy, PartialEq, Eq, Structural)]
pub enum PortOp {
    /// A byte written to a port.
    WriteByte { port: u16, value: u8 },
    /// A byte read from a port, together with the value the device returned.
    ReadByte { port: u16, value: u8 },
}

/// Where a chip stands in the three-byte initialization handshake.
///
/// Outside the handshake a chip is [`Phase::Ready`]: a write to its data port
/// updates the interrupt mask, and a read returns it. The initialization
/// command moves the chip through the three awaited handshake bytes (vector
/// offset, cascade wiring, operating mode) and back to ready.
#[derive(Debug, Clone, Copy, PartialEq, Eq, Structural)]
pub enum Phase {
    /// No command pending; the data port accesses the interrupt mask.
    Ready,
    /// Awaiting handshake byte 1, the vector offset.
    AwaitOffset,
    /// Awaiting handshake byte 2, the cascade wiring.
    AwaitChain,
    /// Awaiting handshake byte 3, the operating mode.
    AwaitMode,
}

/// The programmable state of one 8259 chip.
#[derive(Debug, Clone, Copy, PartialEq, Eq, Structural)]
pub struct ChipModel {
    /// Which of the chip's 8 lines are suppressed, one bit each.
    pub mask: u8,
    /// The interrupt-vector number of the chip's first line.
    pub offset: u8,
    /// Position in the initialization handshake.
    pub phase: Phase,
}

/// The programmable state of both chained chips.
#[derive(Debug, Clone, Copy, PartialEq, Eq, Structural)]
pub struct PicPairModel {
    /// The chip wired to the CPU, handling the lower vector range.
    pub primary: ChipModel,
    /// The chip relaying through the primary, handling the upper range.
    pub secondary: ChipModel,
}

/// How one chip reacts to a byte written to its command port: the
/// initialization command starts the handshake; every other command byte the
/// library issues (only end-of-interrupt) leaves the programmable state as it
/// was.
pub open spec fn chip_on_command(c: ChipModel, value: u8) -> ChipModel {
    if value == CMD_INIT {
        ChipModel { mask: c.mask, offset: c.offset, phase: Phase::AwaitOffset }
    } else {
        c
    }
}

/// How one chip reacts to a byte written to its data port: outside the
/// handshake it is a mask update; during the handshake it is consumed as the
/// next handshake byte.
pub open spec fn chip_on_data(c: ChipModel, value: u8) -> ChipModel {
    match c.phase {
        Phase::Ready => ChipModel { mask: value, offset: c.offset, phase: Phase::Ready },
        Phase::AwaitOffset => ChipModel { mask: c.mask, offset: value, phase: Phase::AwaitChain },
        Phase::AwaitChain => ChipModel { mask: c.mask, offset: c.offset, phase: Phase::AwaitMode },
        Phase::AwaitMode => ChipModel { mask: c.mask, offset: c.offset, phase: Phase::Ready },
    }
}

/// How the pair of chips reacts to a byte written to a port. Ports of neither
/// chip (the scratch port among them) leave both chips unchanged.
pub open spec fn pic_write_step(d: PicPairModel, port: u16, value: u8) -> PicPairModel {
    if port == PRIMARY_CMD {
        PicPairModel { primary: chip_on_command(d.primary, value), secondary: d.secondary }
    } else if port == PRIMARY_DATA {
        PicPairModel { primary: chip_on_data(d.primary, value), secondary: d.secondary }
    } else if port == SECONDARY_CMD {
        PicPairModel { primary: d.primary, secondary: chip_on_command(d.secondary, value) }
    } else if port == SECONDARY_DATA {
        PicPairModel { primary: d.primary, secondary: chip_on_data(d.secondary, value) }
    } else {
        d
    }
}

/// What a byte read from a port is known to return: a data-port read of a
/// chip with no command pending returns that chip's interrupt mask. Reads of
/// other ports, or during a handshake, are unconstrained.
pub open spec fn pic_read_agrees(d: PicPairModel, port: u16, value: u8) -> bool {
    &&& port == PRIMARY_DATA && d.primary.phase == Phase::Ready ==> value == d.primary.mask
    &&& port == SECONDARY_DATA && d.secondary.phase == Phase::Ready ==> value == d.secondary.mask
}

/// Both chips have no command pending.
pub open spec fn pics_ready(d: PicPairModel) -> bool {
    d.primary.phase == Phase::Ready && d.secondary.phase == Phase::Ready
}

/// A byte-wide port I/O capability, supplied by the embedding program.
///
/// Its contract carries the model of the two 8259 chips reached through the
/// architecture-fixed ports, and the log of all transactions issued so far.
/// An implementation backed by real hardware is trusted to behave as the
/// model says; the in-memory simulator in this crate is verified against it.
pub trait PicBus {
    /// The modelled programmable state of the two chips. Implementations
    /// override this; left at the default, nothing is known of the state.
    open spec fn dev(&self) -> PicPairModel {
        vstd::pervasive::arbitrary()
    }

    /// All port transactions issued through this capability so far.
    /// Implementations override this; left at the default, nothing is known
    /// of the log.
    open spec fn trace(&self) -> Seq<PortOp> {
        vstd::pervasive::arbitrary()
    }

    /// Write one byte to a port.
    fn write_byte(&mut self, port: u16, value: u8)
        ensures
            final(self).trace() == old(self).trace().push(PortOp::WriteByte { port, value }),
            final(self).dev() == pic_write_step(old(self).dev(), port, value),
    ;

    /// Read one byte from a port.
    fn read_byte(&mut self, port: u16) -> (value: u8)
        ensures
            final(self).trace() == old(self).trace().push(PortOp::ReadByte { port, value }),
            final(self).dev() == old(self).dev(),
            pic_read_agrees(old(self).dev(), port, value),
    ;
}

/// An individual 8259 chip: its vector offset and the two ports it is
/// reached through.
#[derive(Debug, Clone, Copy, PartialEq, Eq, Structural)]
pub struct Pic {
    /// The interrupt-vector number this chip answers for first; it answers
    /// for the eight vectors starting there.
    pub offset: u8,
    /// The chip's command port.
    pub command: u16,
    /// The chip's data/mask port.
    pub data: u16,
}

impl Pic {
    /// Create a chip handle from its vector offset and its two port
    /// addresses.
    pub fn new(offset: u8, command: u16, data: u16) -> (r: Pic)
        ensures
            r == (Pic { offset, command, data }),
    {
        Pic { offset, command, data }
    }

    /// Whether this chip answers for the given interrupt vector: each chip
    /// handles the eight vectors starting at its offset.
    pub open spec fn spec_handles(&self, irq_id: u8) -> bool {
        self.offset <= irq_id < self.offset + 8
    }

    /// Check if this chip is in charge of the interrupt vector `irq_id`.
    pub fn handles_interrupt(&self, irq_id: u8) -> (r: bool)
        ensures
            r == self.spec_handles(irq_id),
    {
        self.offset <= irq_id && (irq_id as u16) < (self.offset as u16) + 8
    }

    /// Signal this chip that its pending interrupt has been handled and it
    /// may deliver further ones.
    pub fn end_of_interrupt<B: PicBus>(&self, bus: &mut B)
        ensures
            final(bus).trace() == old(bus).trace().push(
                PortOp::WriteByte { port: self.command, value: CMD_END_OF_INTERRUPT },
            ),
            final(bus).dev() == pic_write_step(old(bus).dev(), self.command, CMD_END_OF_INTERRUPT),
    {
        bus.write_byte(self.command, CMD_END_OF_INTERRUPT);
    }

    /// Read this chip's interrupt mask. With no command pending, the data
    /// port accesses the mask.
    pub fn read_interrupt_mask<B: PicBus>(&self, bus: &mut B) -> (mask: u8)
        ensures
            final(bus).trace() == old(bus).trace().push(
                PortOp::ReadByte { port: self.data, value: mask },
            ),
            final(bus).dev() == old(bus).dev(),
            pic_read_agrees(old(bus).dev(), self.data, mask),
    {
        bus.read_byte(self.data)
    }

    /// Write this chip's interrupt mask. With no command pending, the data
    /// port accesses the mask.
    pub fn write_interrupt_mask<B: PicBus>(&self, bus: &mut B, mask: u8)
        ensures
            final(bus).trace() == old(bus).trace().push(
                PortOp::WriteByte { port: self.data, value: mask },
            ),
            final(bus).dev() == pic_write_step(old(bus).dev(), self.data, mask),
    {
        bus.write_byte(self.data, mask);
    }
}

/// The exact port transactions of the initialization sequence for the given
/// vector offsets, when the chips' masks read back as `primary_mask` and
/// `secondary_mask`: capture both masks, send the three-byte handshake to
/// both chips — each byte to the primary, then to the secondary, with a
/// settling write to the scratch port after every handshake write — and
/// restore the captured masks.
pub open spec fn init_trace(
    primary_offset: u8,
    secondary_offset: u8,
    primary_mask: u8,
    secondary_mask: u8,
) -> Seq<PortOp> {
    seq![
        PortOp::ReadByte { port: PRIMARY_DATA, value: primary_mask },
        PortOp::ReadByte { port: SECONDARY_DATA, value: secondary_mask },
        PortOp::WriteByte { port: PRIMARY_CMD, value: CMD_INIT },
        PortOp::WriteByte { port: WAIT_PORT, value: 0 },
        PortOp::WriteByte { port: SECONDARY_CMD, value: CMD_INIT },
        PortOp::WriteByte { port: WAIT_PORT, value: 0 },
        PortOp::WriteByte { port: PRIMARY_DATA, value: primary_offset },
        PortOp::WriteByte { port: WAIT_PORT, value: 0 },
        PortOp::WriteByte { port: SECONDARY_DATA, value: secondary_offset },
        PortOp::WriteByte { port: WAIT_PORT, value: 0 },
        PortOp::WriteByte { port: PRIMARY_DATA, value: CASCADE_TO_PRIMARY },
        PortOp::WriteByte { port: WAIT_PORT, value: 0 },
        PortOp::WriteByte { port: SECONDARY_DATA, value: CASCADE_TO_SECONDARY },
        PortOp::WriteByte { port: WAIT_PORT, value: 0 },
        PortOp::WriteByte { port: PRIMARY_DATA, value: MODE_8086 },
        PortOp::WriteByte { port: WAIT_PORT, value: 0 },
        PortOp::WriteByte { port: SECONDARY_DATA, value: MODE_8086 },
        PortOp::WriteByte { port: WAIT_PORT, value: 0 },
        PortOp::WriteByte { port: PRIMARY_DATA, value: primary_mask },
        PortOp::WriteByte { port: SECONDARY_DATA, value: secondary_mask },
    ]
}

/// The exact port transactions of an end-of-interrupt notification for
/// vector `irq_id`: the acknowledgment reaches the secondary chip first if
/// its range contains the vector, then always the primary chip if either
/// range does, and neither chip otherwise.
pub open spec fn eoi_trace(pics: ChainedPics, irq_id: u8) -> Seq<PortOp> {
    if pics.secondary.spec_handles(irq_id) {
        seq![
            PortOp::WriteByte { port: SECONDARY_CMD, value: CMD_END_OF_INTERRUPT },
            PortOp::WriteByte { port: PRIMARY_CMD, value: CMD_END_OF_INTERRUPT },
        ]
    } else if pics.primary.spec_handles(irq_id) {
        seq![PortOp::WriteByte { port: PRIMARY_CMD, value: CMD_END_OF_INTERRUPT }]
    } else {
        seq![]
    }
}

/// How the pair of chips reacts to one logged transaction: reads leave the
/// programmable state unchanged; writes step it as [`pic_write_step`] says.
pub open spec fn pic_op_step(d: PicPairModel, op: PortOp) -> PicPairModel {
    match op {
        PortOp::WriteByte { port, value } => pic_write_step(d, port, value),
        PortOp::ReadByte { .. } => d,
    }
}

/// The state of the pair of chips after a sequence of port transactions.
pub open spec fn run_pic(d: PicPairModel, ops: Seq<PortOp>) -> PicPairModel
    decreases ops.len(),
{
    if ops.len() == 0 {
        d
    } else {
        run_pic(pic_op_step(d, ops[0]), ops.drop_first())
    }
}

/// Mask round-trip law: the whole initialization sequence, applied to chips
/// with no command pending, leaves both interrupt masks exactly as they were
/// — for any pre-set mask pair — programs the vector offsets, and leaves
/// both chips ready again, so that a mask read immediately afterwards
/// returns exactly the masks present before.
pub proof fn lemma_initialize_mask_round_trip(
    d: PicPairModel,
    primary_offset: u8,
    secondary_offset: u8,
)
    requires
        pics_ready(d),
    ensures
        ({
            let done = run_pic(
                d,
                init_trace(primary_offset, secondary_offset, d.primary.mask, d.secondary.mask),
            );
            &&& pics_ready(done)
            &&& done.primary.mask == d.primary.mask
            &&& done.secondary.mask == d.secondary.mask
            &&& done.primary.offset == primary_offset
            &&& done.secondary.offset == secondary_offset
            &&& forall|v: u8|
                pic_read_agrees(done, PRIMARY_DATA, v) ==> v == d.primary.mask
            &&& forall|v: u8|
                pic_read_agrees(done, SECONDARY_DATA, v) ==> v == d.secondary.mask
        }),
{
    reveal_with_fuel(run_pic, 21);
}

/// Disabling law: writing an all-ones mask to both data ports of chips with
/// no command pending suppresses every line, so that a mask read immediately
/// afterwards returns all-ones for both chips.
pub proof fn lemma_disable_masks_everything(d: PicPairModel)
    requires
        pics_ready(d),
    ensures
        ({
            let done = run_pic(
                d,
                seq![
                    PortOp::WriteByte { port: PRIMARY_DATA, value: 0xFF },
                    PortOp::WriteByte { port: SECONDARY_DATA, value: 0xFF },
                ],
            );
            &&& pics_ready(done)
            &&& done.primary.mask == 0xFF
            &&& done.secondary.mask == 0xFF
            &&& forall|v: u8| pic_read_agrees(done, PRIMARY_DATA, v) ==> v == 0xFF
            &&& forall|v: u8| pic_read_agrees(done, SECONDARY_DATA, v) ==> v == 0xFF
        }),
{
    reveal_with_fuel(run_pic, 3);
}

/// The two 8259 chips, chained together.
#[derive(Debug, Clone, Copy, PartialEq, Eq, Structural)]
pub struct ChainedPics {
    /// The chip wired to the CPU.
    pub primary: Pic,
    /// The chip relaying through the primary's cascade line.
    pub secondary: Pic,
}

impl ChainedPics {
    /// The chips are reached through the architecture-fixed ports.
    pub open spec fn wf(&self) -> bool {
        &&& self.primary.command == PRIMARY_CMD
        &&& self.primary.data == PRIMARY_DATA
        &&& self.secondary.command == SECONDARY_CMD
        &&& self.secondary.data == SECONDARY_DATA
    }

    /// Create an interface for the two chained chips with the desired vector
    /// offsets. Touches no hardware. The offsets are taken on trust: for the
    /// chaining to be meaningful the two ranges of eight vectors must not
    /// overlap, and in protected mode they must not overlap the CPU-exception
    /// vectors (so both at least 16, conventionally the secondary offset
    /// equal to the primary offset plus 8).
    pub fn new(primary_offset: u8, secondary_offset: u8) -> (r: ChainedPics)
        ensures
            r.wf(),
            r.primary.offset == primary_offset,
            r.secondary.offset == secondary_offset,
    {
        ChainedPics {
            primary: Pic::new(primary_offset, PRIMARY_CMD, PRIMARY_DATA),
            secondary: Pic::new(secondary_offset, SECONDARY_CMD, SECONDARY_DATA),
        }
    }

    /// Initialize both chips: capture the current masks, run the three-byte
    /// handshake (vector offset, cascade wiring, operating mode) on both
    /// chips with a settling write after every handshake byte, and restore
    /// the captured masks, so the sequence is observationally mask-neutral.
    ///
    /// Must run exactly once, with interrupts disabled, before interrupts
    /// are enabled; no other access to the chips may interleave with it.
    pub fn initialize<B: PicBus>(&self, bus: &mut B)
        requires
            self.wf(),
            pics_ready(old(bus).dev()),
        ensures
            pics_ready(final(bus).dev()),
            final(bus).dev().primary.mask == old(bus).dev().primary.mask,
            final(bus).dev().secondary.mask == old(bus).dev().secondary.mask,
            final(bus).dev().primary.offset == self.primary.offset,
            final(bus).dev().secondary.offset == self.secondary.offset,
            final(bus).trace() == old(bus).trace() + init_trace(
                self.primary.offset,
                self.secondary.offset,
                old(bus).dev().primary.mask,
                old(bus).dev().secondary.mask,
            ),
    {
        let ghost t0 = bus.trace();
        let ghost d0 = bus.dev();

        // Save the original interrupt masks.
        let saved_masks = self.read_interrupt_masks(bus);

        // Tell each chip that a three-byte initialization sequence follows
        // on its data port. Older hardware needs settling time between the
        // writes; a throwaway write to the legacy scratch port supplies it,
        // since no timer is available this early.
        bus.write_byte(PRIMARY_CMD, CMD_INIT);
        bus.write_byte(WAIT_PORT, 0);
        bus.write_byte(SECONDARY_CMD, CMD_INIT);
        bus.write_byte(WAIT_PORT, 0);

        // Byte 1: the vector offsets.
        bus.write_byte(PRIMARY_DATA, self.primary.offset);
        bus.write_byte(WAIT_PORT, 0);
        bus.write_byte(SECONDARY_DATA, self.secondary.offset);
        bus.write_byte(WAIT_PORT, 0);

        // Byte 2: the chaining between the two chips.
        bus.write_byte(PRIMARY_DATA, CASCADE_TO_PRIMARY);
        bus.write_byte(WAIT_PORT, 0);
        bus.write_byte(SECONDARY_DATA, CASCADE_TO_SECONDARY);
        bus.write_byte(WAIT_PORT, 0);

        // Byte 3: the operating mode.
        bus.write_byte(PRIMARY_DATA, MODE_8086);
        bus.write_byte(WAIT_PORT, 0);
        bus.write_byte(SECONDARY_DATA, MODE_8086);
        bus.write_byte(WAIT_PORT, 0);

        // Restore the saved masks.
        self.write_interrupt_masks(bus, saved_masks[0], saved_masks[1]);

        proof {
            assert(bus.trace() =~= t0 + init_trace(
                self.primary.offset,
                self.secondary.offset,
                d0.primary.mask,
                d0.secondary.mask,
            ));
        }
    }

    /// Read the interrupt masks of both chips, primary first.
    pub fn read_interrupt_masks<B: PicBus>(&self, bus: &mut B) -> (masks: [u8; 2])
        requires
            self.wf(),
        ensures
            final(bus).dev() == old(bus).dev(),
            final(bus).trace() == old(bus).trace()
                .push(PortOp::ReadByte { port: PRIMARY_DATA, value: masks[0] })
                .push(PortOp::ReadByte { port: SECONDARY_DATA, value: masks[1] }),
            pics_ready(old(bus).dev()) ==> masks[0] == old(bus).dev().primary.mask
                && masks[1] == old(bus).dev().secondary.mask,
    {
        let primary_mask = self.primary.read_interrupt_mask(bus);
        let secondary_mask = self.secondary.read_interrupt_mask(bus);
        [primary_mask, secondary_mask]
    }

    /// Write the interrupt masks of both chips, primary first.
    pub fn write_interrupt_masks<B: PicBus>(&self, bus: &mut B, primary_mask: u8, secondary_mask: u8)
        requires
            self.wf(),
        ensures
            final(bus).dev() == pic_write_step(
                pic_write_step(old(bus).dev(), PRIMARY_DATA, primary_mask),
                SECONDARY_DATA,
                secondary_mask,
            ),
            final(bus).trace() == old(bus).trace()
                .push(PortOp::WriteByte { port: PRIMARY_DATA, value: primary_mask })
                .push(PortOp::WriteByte { port: SECONDARY_DATA, value: secondary_mask }),
            pics_ready(old(bus).dev()) ==> final(bus).dev() == (PicPairModel {
                primary: ChipModel { mask: primary_mask, ..old(bus).dev().primary },
                secondary: ChipModel { mask: secondary_mask, ..old(bus).dev().secondary },
            }),
    {
        self.primary.write_interrupt_mask(bus, primary_mask);
        self.secondary.write_interrupt_mask(bus, secondary_mask);
    }

    /// Disable both chips by masking every line. Idempotent.
    pub fn disable<B: PicBus>(&self, bus: &mut B)
        requires
            self.wf(),
        ensures
            final(bus).dev() == pic_write_step(
                pic_write_step(old(bus).dev(), PRIMARY_DATA, 0xFF),
                SECONDARY_DATA,
                0xFF,
            ),
            final(bus).trace() == old(bus).trace()
                .push(PortOp::WriteByte { port: PRIMARY_DATA, value: 0xFF })
                .push(PortOp::WriteByte { port: SECONDARY_DATA, value: 0xFF }),
            pics_ready(old(bus).dev()) ==> {
                &&& pics_ready(final(bus).dev())
                &&& final(bus).dev().primary.mask == 0xFF
                &&& final(bus).dev().secondary.mask == 0xFF
            },
    {
        self.write_interrupt_masks(bus, u8::MAX, u8::MAX);
    }

    /// Whether either chip's eight-vector range contains the given vector.
    pub open spec fn spec_handles(&self, irq_id: u8) -> bool {
        self.primary.spec_handles(irq_id) || self.secondary.spec_handles(irq_id)
    }

    /// Check if the primary or the secondary chip handles the interrupt
    /// vector `irq_id`.
    pub fn handles_interrupt(&self, irq_id: u8) -> (r: bool)
        ensures
            r == self.spec_handles(irq_id),
    {
        self.primary.handles_interrupt(irq_id) || self.secondary.handles_interrupt(irq_id)
    }

    /// Acknowledge an interrupt to the chips that were on its signalling
    /// path. A vector in the secondary chip's range is acknowledged to the
    /// secondary first and then to the primary, whose cascade line carried
    /// it; a vector only in the primary's range is acknowledged to the
    /// primary alone; a vector in neither range is deliberately ignored,
    /// since acknowledging an interrupt that did not originate here is more
    /// dangerous than ignoring one.
    pub fn notify_end_of_interrupt<B: PicBus>(&self, bus: &mut B, irq_id: u8)
        requires
            self.wf(),
        ensures
            final(bus).dev() == old(bus).dev(),
            final(bus).trace() == old(bus).trace() + eoi_trace(*self, irq_id),
    {
        let ghost t0 = bus.trace();
        if self.handles_interrupt(irq_id) {
            if self.secondary.handles_interrupt(irq_id) {
                self.secondary.end_of_interrupt(bus);
            }
            self.primary.end_of_interrupt(bus);
        }
        proof {
            assert(bus.trace() =~= t0 + eoi_trace(*self, irq_id));
        }
    }

    /// Reset both stored vector offsets to the architecture's legacy
    /// defaults of 0 and 8, the safe layout outside protected mode. Touches
    /// no hardware.
    pub fn restore(&mut self)
        ensures
            final(self).primary == (Pic { offset: 0, ..old(self).primary }),
            final(self).secondary == (Pic { offset: 8, ..old(self).secondary }),
    {
        self.primary.offset = 0x00;
        self.secondary.offset = 0x08;
    }
}

} // verus!
