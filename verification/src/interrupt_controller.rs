//! The interrupt-controller contract: the capability set through which the
//! dispatcher and kernel initialization code program interrupt hardware.
//!
//! Each concrete controller defines, as spec functions, what every operation
//! does to its own hardware model; the methods promise exactly those
//! relations. Code that is generic over the contract — the dispatcher above
//! all — carries its guarantees through these relations.

use vstd::prelude::*;

verus! {

/// Capability set of an interrupt controller.
///
/// `enable`/`disable` toggle whether this controller receives hardware
/// interrupts. `reset` returns the controller to a known, fully masked
/// baseline and is safe from a partially configured state. `eoi` signals
/// completion of the interrupt currently being serviced; omitting it before
/// returning from a handler stalls further delivery. `spurious_irq` reports
/// the fixed vector raised when the controller has no legitimate interrupt
/// to deliver. `mask`/`unmask` are per-vector controls that an
/// implementation may leave as no-ops when it does not route per line.
pub trait InterruptController: Sized {
    /// Well-formedness of the controller's hardware model.
    spec fn inv(&self) -> bool;

    /// What `enable` does to the controller state.
    spec fn enable_rel(pre: Self, post: Self) -> bool;

    /// What `disable` does to the controller state.
    spec fn disable_rel(pre: Self, post: Self) -> bool;

    /// What `reset` does to the controller state.
    spec fn reset_rel(pre: Self, post: Self) -> bool;

    /// What `eoi` does to the controller state.
    spec fn eoi_rel(pre: Self, post: Self, irq: u32) -> bool;

    /// What `mask` does to the controller state.
    spec fn mask_rel(pre: Self, post: Self, irq: u32) -> bool;

    /// What `unmask` does to the controller state.
    spec fn unmask_rel(pre: Self, post: Self, irq: u32) -> bool;

    /// The fixed vector this controller raises for a spurious interrupt.
    spec fn spurious_vector(&self) -> u32;

    /// Make this controller the one receiving hardware interrupts.
    fn enable(&mut self)
        requires
            old(self).inv(),
        ensures
            final(self).inv(),
            Self::enable_rel(*old(self), *final(self)),
    ;

    /// Stop this controller from receiving hardware interrupts.
    fn disable(&mut self)
        requires
            old(self).inv(),
        ensures
            final(self).inv(),
            Self::disable_rel(*old(self), *final(self)),
    ;

    /// Return the controller to its known, fully masked baseline.
    fn reset(&mut self)
        requires
            old(self).inv(),
        ensures
            final(self).inv(),
            Self::reset_rel(*old(self), *final(self)),
    ;

    /// Acknowledge completion of the interrupt currently being serviced.
    fn eoi(&mut self, irq: u32)
        requires
            old(self).inv(),
        ensures
            final(self).inv(),
            Self::eoi_rel(*old(self), *final(self), irq),
    ;

    /// Per-vector masking; may be a no-op.
    fn mask(&mut self, irq: u32)
        requires
            old(self).inv(),
        ensures
            final(self).inv(),
            Self::mask_rel(*old(self), *final(self), irq),
    ;

    /// Per-vector unmasking; may be a no-op.
    fn unmask(&mut self, irq: u32)
        requires
            old(self).inv(),
        ensures
            final(self).inv(),
            Self::unmask_rel(*old(self), *final(self), irq),
    ;

    /// The fixed vector raised when no legitimate interrupt is pending.
    fn spurious_irq(&self) -> (vector: u32)
        requires
            self.inv(),
        ensures
            vector == self.spurious_vector(),
    ;
}

} // verus!
