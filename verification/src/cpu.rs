//! Critical-section primitives at the CPU level: saving, clearing and
//! restoring the interrupt-enable bit of the processor flags register.
//!
//! The flags register is modeled as a plain 64-bit value held in [`CPU`];
//! the instruction-level access to the physical register stays outside the
//! library and keeps this model in step with the machine.

use vstd::prelude::*;

verus! {

/// The interrupt-enable bit of the processor flags register.
pub const INTERRUPT_FLAG: u64 = 0x200;

/// Model of one processor's flags register. Exactly one exists per
/// processor; the struct carries the value the hardware register holds.
pub struct CPU {
    pub rflags: u64,
}

/// An opaque saved copy of the flags register. Created by [`CPU::irq_save`]
/// and meant to be consumed exactly once by the matching
/// [`CPU::irq_restore`]; callers must not interpret any bit but through the
/// restore.
#[derive(Clone, Copy, PartialEq, Eq, Structural)]
pub struct FlagsSnapshot {
    pub bits: u64,
}

/// What `irq_save` does: the snapshot is the old flags value, and the
/// interrupt-enable bit is clear afterwards (all other bits kept).
pub open spec fn irq_save_rel(pre: CPU, post: CPU, backup: FlagsSnapshot) -> bool {
    &&& backup.bits == pre.rflags
    &&& post.rflags == pre.rflags & !INTERRUPT_FLAG
}

/// What `irq_restore` does: the snapshot is written back verbatim.
pub open spec fn irq_restore_rel(pre: CPU, post: CPU, snapshot: FlagsSnapshot) -> bool {
    post.rflags == snapshot.bits
}

impl CPU {
    /// Read the current flags, clear the interrupt-enable bit if it was set,
    /// and return the original value as a snapshot for the matching restore.
    pub fn irq_save(&mut self) -> (backup: FlagsSnapshot)
        ensures
            irq_save_rel(*old(self), *final(self), backup),
    {
        let flags = self.rflags;
        let backup = FlagsSnapshot { bits: flags };

        if flags & INTERRUPT_FLAG != 0 {
            self.rflags = flags & !INTERRUPT_FLAG;
        } else {
            proof {
                assert(flags & !INTERRUPT_FLAG == flags) by (bit_vector)
                    requires
                        flags & INTERRUPT_FLAG == 0,
                ;
            }
        }

        backup
    }

    /// Write a snapshot back verbatim, ending the critical section that the
    /// matching `irq_save` opened.
    pub fn irq_restore(&mut self, flags: FlagsSnapshot)
        ensures
            irq_restore_rel(*old(self), *final(self), flags),
    {
        self.rflags = flags.bits;
    }

    /// Unconditionally set the interrupt-enable bit, with no snapshot; only
    /// for contexts where no nesting is possible.
    pub fn irq_enable(&mut self)
        ensures
            final(self).rflags == old(self).rflags | INTERRUPT_FLAG,
    {
        self.rflags = self.rflags | INTERRUPT_FLAG;
    }

    /// Unconditionally clear the interrupt-enable bit, with no snapshot; only
    /// for contexts where no nesting is possible.
    pub fn irq_disable(&mut self)
        ensures
            final(self).rflags == old(self).rflags & !INTERRUPT_FLAG,
    {
        self.rflags = self.rflags & !INTERRUPT_FLAG;
    }
}

/// Law: `irq_save` followed immediately by `irq_restore` with its own result
/// leaves the interrupt-enable bit — indeed the whole flags register —
/// exactly as it was before the save; and when interrupts were already
/// disabled, the save changes nothing, so the restore is a no-op.
pub proof fn lemma_irq_save_restore(c0: CPU, c1: CPU, c2: CPU, backup: FlagsSnapshot)
    requires
        irq_save_rel(c0, c1, backup),
        irq_restore_rel(c1, c2, backup),
    ensures
        c2.rflags == c0.rflags,
        c0.rflags & INTERRUPT_FLAG == 0 ==> c1.rflags == c0.rflags,
{
    let f = c0.rflags;
    if f & INTERRUPT_FLAG == 0 {
        assert(f & !INTERRUPT_FLAG == f) by (bit_vector)
            requires
                f & INTERRUPT_FLAG == 0,
        ;
    }
}

} // verus!
