//! The legacy programmable interrupt controller, an external collaborator
//! seen only at its boundary: the in-service and request queries and the
//! acknowledgment the dispatcher makes on it. Its internals are not modeled
//! here; the struct carries what the hardware would report and records the
//! acknowledgments issued.

use vstd::prelude::*;

verus! {

/// Boundary model of the legacy controller: the two bitmasks its queries
/// report, and the chronological list of acknowledged vectors.
pub struct Pic {
    pub in_service: u8,
    pub requested: u8,
    pub acks: Vec<u32>,
}

impl Pic {
    /// A boundary model reporting the given in-service and request
    /// bitmasks, with no acknowledgment issued yet.
    pub fn new(in_service: u8, requested: u8) -> (pic: Pic)
        ensures
            pic.in_service == in_service,
            pic.requested == requested,
            pic.acks@.len() == 0,
    {
        Pic { in_service, requested, acks: Vec::new() }
    }

    /// The in-service bitmask the hardware would report.
    pub fn isr(&self) -> (r: u8)
        ensures
            r == self.in_service,
    {
        self.in_service
    }

    /// The request bitmask the hardware would report.
    pub fn irr(&self) -> (r: u8)
        ensures
            r == self.requested,
    {
        self.requested
    }

    /// Acknowledge the given vector at the legacy controller.
    pub fn eoi(&mut self, irq: u32)
        ensures
            final(self).acks@ == old(self).acks@.push(irq),
            final(self).in_service == old(self).in_service,
            final(self).requested == old(self).requested,
    {
        self.acks.push(irq);
    }
}

} // verus!
