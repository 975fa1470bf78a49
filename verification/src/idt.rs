//! The dispatch table: the fixed mapping from interrupt and exception
//! vectors to handler routines, built once at boot, loaded into the
//! processor, and immutable afterwards — and the dispatch step a raised
//! vector takes through it.
//!
//! Handlers decide here; the console reporting of diagnostic state and the
//! halt of the processor stay with the caller, told apart by the outcome.

use vstd::prelude::*;

use crate::interrupt_controller::InterruptController;
use crate::pic::Pic;

verus! {

/// The number of slots of the dispatch table.
pub const TABLE_SLOTS: usize = 256;

/// The handler routines the table routes to.
#[derive(Clone, Copy, PartialEq, Eq, Structural, Debug)]
pub enum HandlerKind {
    /// Architectural exceptions with no specific handling: report and halt.
    Generic,
    /// Report and return, preserving normal execution.
    Breakpoint,
    /// Report the faulting address, page-table base and error code; halt.
    PageFault,
    /// Report and halt; the processor state is beyond recovery.
    DoubleFault,
    /// Report and halt.
    GeneralProtection,
    /// Report and halt.
    MachineCheck,
    /// Acknowledge at the legacy and the active controller, then return.
    Timer,
    /// Acknowledge at the active controller, then return.
    Ipi,
    /// Recognize and safely ignore; never escalated, never acknowledged.
    Spurious,
}

/// One slot of the table: a handler plus the hardware-required descriptor
/// attributes.
#[derive(Clone, Copy, PartialEq, Eq, Structural, Debug)]
pub struct IdtEntry {
    /// Whether a handler is installed in this slot.
    pub present: bool,
    pub handler: HandlerKind,
    /// Privilege level required to raise the vector from software.
    pub dpl: u8,
    /// Stack-switch index; zero keeps the interrupted stack.
    pub ist_index: u8,
    /// Gate type: a trap gate leaves interrupts enabled on entry.
    pub trap_gate: bool,
}

/// What a dispatched handler asks of the processor: return to the
/// interrupted code, or report and halt this processor.
#[derive(Clone, Copy, PartialEq, Eq, Structural, Debug)]
pub enum DispatchOutcome {
    Returned,
    Halted,
}

/// Whether a handler is installed for the vector: the architectural
/// exceptions the kernel handles, the local timer, the inter-processor
/// interrupt, and the spurious vector.
pub open spec fn vector_installed(vector: u8) -> bool {
    vector == 0 || vector == 1 || vector == 2 || vector == 3 || vector == 4 || vector == 5
        || vector == 6 || vector == 7 || vector == 8 || vector == 13 || vector == 14 || vector
        == 16 || vector == 18 || vector == 20 || vector == 32 || vector == 35 || vector == 39
}

/// The handler routine of an installed vector; vectors without a dedicated
/// routine fall to the generic one.
pub open spec fn handler_for(vector: u8) -> HandlerKind {
    if vector == 3 {
        HandlerKind::Breakpoint
    } else if vector == 8 {
        HandlerKind::DoubleFault
    } else if vector == 13 {
        HandlerKind::GeneralProtection
    } else if vector == 14 {
        HandlerKind::PageFault
    } else if vector == 18 {
        HandlerKind::MachineCheck
    } else if vector == 32 {
        HandlerKind::Timer
    } else if vector == 35 {
        HandlerKind::Ipi
    } else if vector == 39 {
        HandlerKind::Spurious
    } else {
        HandlerKind::Generic
    }
}

/// The slot the built table holds for a vector: present exactly for the
/// installed vectors, kernel privilege, no stack switch, interrupt gate.
pub open spec fn built_entry(vector: u8) -> IdtEntry {
    IdtEntry {
        present: vector_installed(vector),
        handler: handler_for(vector),
        dpl: 0,
        ist_index: 0,
        trap_gate: false,
    }
}

/// Whether a handler is installed for the vector.
pub fn is_installed(vector: u8) -> (r: bool)
    ensures
        r == vector_installed(vector),
{
    vector == 0 || vector == 1 || vector == 2 || vector == 3 || vector == 4 || vector == 5
        || vector == 6 || vector == 7 || vector == 8 || vector == 13 || vector == 14 || vector
        == 16 || vector == 18 || vector == 20 || vector == 32 || vector == 35 || vector == 39
}

/// The handler routine of an installed vector.
pub fn handler_kind_for(vector: u8) -> (r: HandlerKind)
    ensures
        r == handler_for(vector),
{
    if vector == 3 {
        HandlerKind::Breakpoint
    } else if vector == 8 {
        HandlerKind::DoubleFault
    } else if vector == 13 {
        HandlerKind::GeneralProtection
    } else if vector == 14 {
        HandlerKind::PageFault
    } else if vector == 18 {
        HandlerKind::MachineCheck
    } else if vector == 32 {
        HandlerKind::Timer
    } else if vector == 35 {
        HandlerKind::Ipi
    } else if vector == 39 {
        HandlerKind::Spurious
    } else {
        HandlerKind::Generic
    }
}

/// The slot the built table holds for a vector.
fn entry_for(vector: u8) -> (e: IdtEntry)
    ensures
        e == built_entry(vector),
{
    IdtEntry {
        present: is_installed(vector),
        handler: handler_kind_for(vector),
        dpl: 0,
        ist_index: 0,
        trap_gate: false,
    }
}

/// The dispatch table of one processor. It starts built but not loaded;
/// loading it into the processor's descriptor register is irreversible for
/// the life of that processor.
pub struct DispatchTable {
    entries: Vec<IdtEntry>,
    loaded: bool,
}

impl DispatchTable {
    /// Well-formedness: all slots hold exactly the built mapping.
    pub closed spec fn wf(&self) -> bool {
        &&& self.entries@.len() == TABLE_SLOTS
        &&& forall|v: int| 0 <= v < TABLE_SLOTS ==> self.entries@[v] == built_entry(v as u8)
    }

    /// Whether the table has been loaded into the processor.
    pub closed spec fn is_loaded(&self) -> bool {
        self.loaded
    }

    /// Build the table: populate all required slots exactly once. The
    /// result is not yet loaded.
    pub fn new() -> (table: DispatchTable)
        ensures
            table.wf(),
            !table.is_loaded(),
    {
        let mut entries: Vec<IdtEntry> = Vec::new();
        let mut i: usize = 0;
        while i < TABLE_SLOTS
            invariant
                i <= TABLE_SLOTS,
                entries@.len() == i,
                forall|v: int| 0 <= v < i ==> entries@[v] == built_entry(v as u8),
            decreases TABLE_SLOTS - i,
        {
            entries.push(entry_for(i as u8));
            i = i + 1;
        }
        DispatchTable { entries, loaded: false }
    }

    /// Load the table into the processor's active-table register. Done once;
    /// there is no unload.
    pub fn load(&mut self)
        requires
            old(self).wf(),
            !old(self).is_loaded(),
        ensures
            final(self).wf(),
            final(self).is_loaded(),
    {
        self.loaded = true;
    }

    /// Whether the table has been loaded into the processor.
    pub fn loaded(&self) -> (r: bool)
        ensures
            r == self.is_loaded(),
    {
        self.loaded
    }

    /// The slot installed for a vector.
    pub fn entry_at(&self, vector: u8) -> (e: IdtEntry)
        requires
            self.wf(),
        ensures
            e == built_entry(vector),
    {
        self.entries[vector as usize]
    }
}

/// Build the dispatch table and load it into the processor.
pub fn init_idt() -> (table: DispatchTable)
    ensures
        table.wf(),
        table.is_loaded(),
{
    let mut table = DispatchTable::new();
    table.load();
    table
}

/// The page-fault handler: the caller reports the error code, the faulting
/// address and the page-table base, then halts this processor.
pub fn pagefault_handler(_error_code: u64) -> (outcome: DispatchOutcome)
    ensures
        outcome == DispatchOutcome::Halted,
{
    DispatchOutcome::Halted
}

/// The double-fault handler: the caller reports the error code and halts;
/// the processor state is beyond recovery.
pub fn double_fault_handler(_error_code: u64) -> (outcome: DispatchOutcome)
    ensures
        outcome == DispatchOutcome::Halted,
{
    DispatchOutcome::Halted
}

/// The general-protection-fault handler: report and halt.
pub fn gpf_handler(_error_code: u64) -> (outcome: DispatchOutcome)
    ensures
        outcome == DispatchOutcome::Halted,
{
    DispatchOutcome::Halted
}

/// The inter-processor-interrupt handler: acknowledge at the active
/// controller before returning.
pub fn ipi_handler<C: InterruptController>(controller: &mut C) -> (outcome: DispatchOutcome)
    requires
        old(controller).inv(),
    ensures
        final(controller).inv(),
        C::eoi_rel(*old(controller), *final(controller), 0u32),
        outcome == DispatchOutcome::Returned,
{
    controller.eoi(0);
    DispatchOutcome::Returned
}

/// The spurious-interrupt handler: an expected, low-frequency hardware
/// artifact; ignored and never escalated, and the processor keeps running.
pub fn spurious_handler() -> (outcome: DispatchOutcome)
    ensures
        outcome == DispatchOutcome::Returned,
{
    DispatchOutcome::Returned
}

/// The handler of exceptions without specific handling: report and halt.
pub fn generic_handler() -> (outcome: DispatchOutcome)
    ensures
        outcome == DispatchOutcome::Halted,
{
    DispatchOutcome::Halted
}

/// The machine-check handler: report and halt.
pub fn machine_check_handler() -> (outcome: DispatchOutcome)
    ensures
        outcome == DispatchOutcome::Halted,
{
    DispatchOutcome::Halted
}

/// The timer handler: acknowledge at the legacy controller and at the
/// active controller before returning. The in-service and request bitmasks
/// it reports are read at the legacy boundary; printing them stays with the
/// caller.
pub fn timer_handler<C: InterruptController>(controller: &mut C, pic: &mut Pic) -> (outcome:
    DispatchOutcome)
    requires
        old(controller).inv(),
    ensures
        final(controller).inv(),
        C::eoi_rel(*old(controller), *final(controller), 0u32),
        final(pic).acks@ == old(pic).acks@.push(0u32),
        final(pic).in_service == old(pic).in_service,
        final(pic).requested == old(pic).requested,
        outcome == DispatchOutcome::Returned,
{
    pic.eoi(0);
    controller.eoi(0);
    DispatchOutcome::Returned
}

/// The breakpoint handler: report the stack frame and return, preserving
/// normal execution.
pub fn breakpoint_handler() -> (outcome: DispatchOutcome)
    ensures
        outcome == DispatchOutcome::Returned,
{
    DispatchOutcome::Returned
}

/// Route a raised vector through the loaded table to its handler and carry
/// out the handler's controller actions: the timer and inter-processor
/// handlers acknowledge at the active controller before returning, the
/// spurious and breakpoint handlers return leaving all state unchanged, and
/// every fault handler leaves the state unchanged and asks the caller to
/// halt after reporting.
pub fn dispatch<C: InterruptController>(
    table: &DispatchTable,
    vector: u8,
    error_code: u64,
    controller: &mut C,
    pic: &mut Pic,
) -> (outcome: DispatchOutcome)
    requires
        table.wf(),
        table.is_loaded(),
        old(controller).inv(),
    ensures
        final(controller).inv(),
        vector_installed(vector) && handler_for(vector) == HandlerKind::Timer ==> C::eoi_rel(
            *old(controller),
            *final(controller),
            0u32,
        ) && final(pic).acks@ == old(pic).acks@.push(0u32) && final(pic).in_service == old(
            pic,
        ).in_service && final(pic).requested == old(pic).requested && outcome
            == DispatchOutcome::Returned,
        vector_installed(vector) && handler_for(vector) == HandlerKind::Ipi ==> C::eoi_rel(
            *old(controller),
            *final(controller),
            0u32,
        ) && *final(pic) == *old(pic) && outcome == DispatchOutcome::Returned,
        vector_installed(vector) && (handler_for(vector) == HandlerKind::Spurious || handler_for(
            vector,
        ) == HandlerKind::Breakpoint) ==> *final(controller) == *old(controller) && *final(pic)
            == *old(pic) && outcome == DispatchOutcome::Returned,
        vector_installed(vector) && (handler_for(vector) == HandlerKind::Generic || handler_for(
            vector,
        ) == HandlerKind::PageFault || handler_for(vector) == HandlerKind::DoubleFault
            || handler_for(vector) == HandlerKind::GeneralProtection || handler_for(vector)
            == HandlerKind::MachineCheck) ==> *final(controller) == *old(controller) && *final(pic)
            == *old(pic) && outcome == DispatchOutcome::Halted,
        !vector_installed(vector) ==> *final(controller) == *old(controller) && *final(pic) == *old(
            pic,
        ) && outcome == DispatchOutcome::Halted,
{
    let entry = table.entry_at(vector);

    if !entry.present {
        return DispatchOutcome::Halted;
    }
    match entry.handler {
        HandlerKind::Timer => timer_handler(controller, pic),
        HandlerKind::Ipi => ipi_handler(controller),
        HandlerKind::Spurious => spurious_handler(),
        HandlerKind::Breakpoint => breakpoint_handler(),
        HandlerKind::PageFault => pagefault_handler(error_code),
        HandlerKind::DoubleFault => double_fault_handler(error_code),
        HandlerKind::GeneralProtection => gpf_handler(error_code),
        HandlerKind::MachineCheck => machine_check_handler(),
        HandlerKind::Generic => generic_handler(),
    }
}

} // verus!
