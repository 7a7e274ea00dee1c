//! An interface for the two x86 interrupt-controller families: the legacy
//! chained 8259 controllers and the register-indexed I/O APIC.
//!
//! All register traffic goes through an injected I/O capability (the
//! [`pic8259::PicBus`] and [`ioapic::ApicBus`] traits), so the protocol logic
//! is independent of how bytes actually reach the hardware. The [`sim`]
//! module provides in-memory implementations of both capabilities that follow
//! the documented device behaviour, which makes the protocol logic testable
//! without a machine; real port and memory-mapped access belongs to the
//! embedding program.

/// The legacy chained 8259 programmable interrupt controllers.
pub mod pic8259;

/// The register-indexed I/O APIC and its redirection entries.
pub mod ioapic;

/// In-memory device simulators implementing the I/O capabilities.
pub mod sim;
