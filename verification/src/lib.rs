//! Interrupt-management core of a bare-metal kernel, modeled and verified.
//!
//! The subsystem programs the processor's interrupt-delivery hardware: the
//! local APIC (register encoding, local vector table, timers, inter-processor
//! interrupts, secondary-processor wake-up), the fixed dispatch table from
//! vector numbers to handlers, and the flag save/restore primitives that bound
//! critical sections.
//!
//! Hardware state — the memory-mapped register window, the model-specific
//! registers, and the flags register — is held here as plain data together
//! with a chronological log of register writes, so that every register-level
//! effect and ordering requirement is stated in contracts and proved. The
//! thin layer that copies this state to and from the physical machine lives
//! outside the library.

pub mod apic;
pub mod cpu;
pub mod idt;
pub mod interrupt_controller;
pub mod pic;
