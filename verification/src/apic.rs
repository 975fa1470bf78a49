//! The local APIC controller: register-window access, interrupt-configuration
//! encoding, local-vector-table programming, timer modes, inter-processor
//! interrupts and secondary-processor wake-up.
//!
//! The hardware is held as a model: the 4 KiB register window as 256 32-bit
//! cells (one per 16-byte stride), a chronological log of the register writes
//! issued, and the two model-specific registers the controller programs. The
//! contracts state, write by write, what each operation puts where and in
//! which order; the layer that copies the log and the register values onto
//! the physical machine stays outside the library.

use vstd::prelude::*;

use crate::interrupt_controller::InterruptController;

verus! {

/* APIC timer mode field (bits 17..19 of the timer LVT entry) */
pub const TIMER_MODE_ONE_SHOT: u32 = 0x00000;
pub const TIMER_MODE_PERIODIC: u32 = 0x20000;
pub const TIMER_MODE_TSCDEADLINE: u32 = 0x40000;

/* APIC delivery mode field (bits 8..11) */
pub const DELIVERY_MODE_FIXED: u32 = 0x000;
pub const DELIVERY_MODE_LP: u32 = 0x100;
pub const DELIVERY_MODE_SMI: u32 = 0x200;
pub const DELIVERY_MODE_NMI: u32 = 0x400;
pub const DELIVERY_MODE_INIT: u32 = 0x500;
pub const DELIVERY_MODE_SIPI: u32 = 0x600;
pub const DELIVERY_MODE_EXTINT: u32 = 0x700;

/* APIC destination mode field (bit 11) */
pub const DESTINATION_MODE_PHYSICAL: u32 = 0x000;
pub const DESTINATION_MODE_LOGICAL: u32 = 0x800;

/* APIC level field (bit 14) */
pub const LEVEL_DEASSERT: u32 = 0x0000;
pub const LEVEL_ASSERT: u32 = 0x4000;

/* APIC destination shorthand field (bits 18..20) */
pub const DESTINATION_SHORTHAND_NONE: u32 = 0x00000;
pub const DESTINATION_SHORTHAND_SELF: u32 = 0x40000;
pub const DESTINATION_SHORTHAND_ALL_INC_SELF: u32 = 0x80000;
pub const DESTINATION_SHORTHAND_ALL_EXC_SELF: u32 = 0xC0000;

/* APIC mask bit (bit 16) */
pub const NOT_MASKED: u32 = 0x00000;
pub const MASKED: u32 = 0x10000;

/* APIC trigger mode field (bit 15) */
pub const TRIGGER_MODE_EDGE: u32 = 0x0000;
pub const TRIGGER_MODE_LEVEL: u32 = 0x8000;

/* Masks of the field bit ranges of an interrupt configuration */
pub const VECTOR_FIELD_MASK: u32 = 0xff;
pub const DELIVERY_FIELD_MASK: u32 = 0x700;
pub const DESTINATION_FIELD_MASK: u32 = 0x800;
pub const LEVEL_FIELD_MASK: u32 = 0x4000;
pub const TRIGGER_FIELD_MASK: u32 = 0x8000;
pub const MASKED_FIELD_MASK: u32 = 0x10000;
pub const TIMER_FIELD_MASK: u32 = 0x60000;
pub const SHORTHAND_FIELD_MASK: u32 = 0xC0000;

/* APIC registers, as byte offsets into the register window */
pub const ID: usize = 0x20;
pub const VERSION: usize = 0x30;
pub const TPR: usize = 0x80;
pub const APR: usize = 0x90;
pub const PPR: usize = 0xA0;
pub const EOI: usize = 0xB0;
pub const RRD: usize = 0xC0;
pub const LDR: usize = 0xD0;
pub const DFR: usize = 0xE0;
pub const SIP: usize = 0xF0;
pub const ISR: usize = 0x100;
pub const TMR: usize = 0x180;
pub const IRR: usize = 0x200;
pub const ESR: usize = 0x280;
pub const LVT_CMCI: usize = 0x2f0;
pub const LVT_TR: usize = 0x320;
pub const LVT_TMR: usize = 0x330;
pub const LVT_PMCR: usize = 0x340;
pub const LVT_LINT0: usize = 0x350;
pub const LVT_LINT1: usize = 0x360;
pub const LVT_ER: usize = 0x370;
pub const ICR0: usize = 0x300;
pub const ICR1: usize = 0x310;
pub const TIMER_ICR: usize = 0x380;
pub const TIMER_CCR: usize = 0x390;
pub const TIMER_DCR: usize = 0x3e0;

/// Size in bytes of the register window.
pub const REG_WINDOW_SIZE: usize = 0x1000;

/// Number of 32-bit cells in the register window, one per 16-byte stride.
pub const REG_CELLS: usize = 0x100;

/* IA32_APIC_BASE model-specific register fields */
pub const ENABLE_X2APIC_BIT: u64 = 0x400;
pub const ENABLE_XAPIC_BIT: u64 = 0x800;

/// The fixed vector the controller raises for a spurious interrupt.
pub const SPURIOUS_VECTOR: u32 = 39;

/// The fixed vector of the local timer interrupt.
pub const TIMER_VECTOR: u8 = 32;

/// Physical base address of the local APIC register window.
pub const APIC_ADDRESS: u32 = 0xfee00000;

/// The six slots of the Local Vector Table, plus the thermal-monitor slot
/// that shares their register layout.
#[allow(non_camel_case_types)]
#[derive(Clone, Copy, PartialEq, Eq, Structural, Debug)]
pub enum APICLVTEntry {
    APIC_LVT_TIMER,
    APIC_LVT_CMCI,
    APIC_LVT_LINT0,
    APIC_LVT_LINT1,
    APIC_LVT_ERROR,
    APIC_LVT_PMCR,
    APIC_LVT_THERMAL,
}

/// Delivery mode of an interrupt configuration; the not-applicable variant
/// contributes zero bits.
#[allow(non_camel_case_types)]
#[derive(Clone, Copy, PartialEq, Eq, Structural, Debug)]
pub enum APICDeliveryMode {
    APIC_DELIVERY_NA,
    APIC_DELIVERY_FIXED,
    APIC_DELIVERY_LP,
    APIC_DELIVERY_SMI,
    APIC_DELIVERY_NMI,
    APIC_DELIVERY_INIT,
    APIC_DELIVERY_SIPI,
    APIC_DELIVERY_EXTINT,
}

/// Timer mode of the timer LVT entry; not-applicable contributes zero bits.
#[allow(non_camel_case_types)]
#[derive(Clone, Copy, PartialEq, Eq, Structural, Debug)]
pub enum APICTimerMode {
    APIC_TIMER_NA,
    APIC_TIMER_ONESHOT,
    APIC_TIMER_PERIODIC,
    APIC_TIMER_TSCDEADLINE,
}

/// Level of an interrupt command; not-applicable contributes zero bits.
#[allow(non_camel_case_types)]
#[derive(Clone, Copy, PartialEq, Eq, Structural, Debug)]
pub enum APICLevel {
    APIC_LEVEL_ASSERT,
    APIC_LEVEL_DEASSERT,
    APIC_LEVEL_NA,
}

/// Trigger mode of an interrupt configuration; not-applicable contributes
/// zero bits.
#[allow(non_camel_case_types)]
#[derive(Clone, Copy, PartialEq, Eq, Structural, Debug)]
pub enum APICTriggerMode {
    APIC_TRIGGER_NA,
    APIC_TRIGGER_EDGE,
    APIC_TRIGGER_LEVEL,
}

/// Destination mode of an interrupt command; not-applicable contributes
/// zero bits.
#[allow(non_camel_case_types)]
#[derive(Clone, Copy, PartialEq, Eq, Structural, Debug)]
pub enum APICDestinationMode {
    APIC_DESTINATION_PHYSICAL,
    APIC_DESTINATION_LOGICAL,
    APIC_DESTINATION_NA,
}

/// Destination shorthand of an interrupt command; not-applicable contributes
/// zero bits.
#[allow(non_camel_case_types)]
#[derive(Clone, Copy, PartialEq, Eq, Structural, Debug)]
pub enum APICDestinationShorthand {
    APIC_DESTINATION_SHORTHAND_NONE,
    APIC_DESTINATION_SHORTHAND_SELF,
    APIC_DESTINATION_SHORTHAND_ALL_INC_SELF,
    APIC_DESTINATION_SHORTHAND_ALL_EXC_SELF,
    APIC_DESTINATION_SHORTHAND_NA,
}

/// One interrupt-command or LVT register's logical fields. Built, encoded
/// and written in one step; fields not meaningful for the target register
/// are set to their not-applicable variant, which encodes to zero.
#[derive(Clone, Copy, PartialEq, Eq, Structural, Debug)]
pub struct APICInterrupt {
    pub vector: u8,
    pub delivery: APICDeliveryMode,
    pub destination: APICDestinationMode,
    pub level: APICLevel,
    pub trigger: APICTriggerMode,
    pub dest_shorthand: APICDestinationShorthand,
    pub timer_mode: APICTimerMode,
    pub masked: bool,
}

/// One 32-bit register write: the byte offset into the register window and
/// the value written there.
#[derive(Clone, Copy, PartialEq, Eq, Structural, Debug)]
pub struct RegWrite {
    pub offset: usize,
    pub value: u32,
}

/// Mathematical view of the controller model: the register cells, the
/// chronological write log, and the two model-specific registers.
#[verifier::ext_equal]
pub struct APICView {
    pub regs: Seq<u32>,
    pub log: Seq<RegWrite>,
    pub base_msr: u64,
    pub tsc_deadline_msr: u64,
}

/// The local APIC of the executing processor, as a model: the register
/// window's cells, the log of writes issued to it, and the base-address and
/// timestamp-deadline model-specific registers.
pub struct APIC {
    regs: Vec<u32>,
    log: Vec<RegWrite>,
    base_msr: u64,
    tsc_deadline_msr: u64,
}

impl View for APIC {
    type V = APICView;

    closed spec fn view(&self) -> APICView {
        APICView {
            regs: self.regs@,
            log: self.log@,
            base_msr: self.base_msr,
            tsc_deadline_msr: self.tsc_deadline_msr,
        }
    }
}

/* Encoding of each field onto its bit range */

/// Bits contributed by the delivery-mode field.
pub open spec fn delivery_bits(delivery: APICDeliveryMode) -> u32 {
    match delivery {
        APICDeliveryMode::APIC_DELIVERY_FIXED => DELIVERY_MODE_FIXED,
        APICDeliveryMode::APIC_DELIVERY_LP => DELIVERY_MODE_LP,
        APICDeliveryMode::APIC_DELIVERY_NMI => DELIVERY_MODE_NMI,
        APICDeliveryMode::APIC_DELIVERY_SMI => DELIVERY_MODE_SMI,
        APICDeliveryMode::APIC_DELIVERY_INIT => DELIVERY_MODE_INIT,
        APICDeliveryMode::APIC_DELIVERY_EXTINT => DELIVERY_MODE_EXTINT,
        APICDeliveryMode::APIC_DELIVERY_SIPI => DELIVERY_MODE_SIPI,
        APICDeliveryMode::APIC_DELIVERY_NA => 0,
    }
}

/// Bits contributed by the destination-mode field.
pub open spec fn destination_bits(destination: APICDestinationMode) -> u32 {
    match destination {
        APICDestinationMode::APIC_DESTINATION_PHYSICAL => DESTINATION_MODE_PHYSICAL,
        APICDestinationMode::APIC_DESTINATION_LOGICAL => DESTINATION_MODE_LOGICAL,
        APICDestinationMode::APIC_DESTINATION_NA => 0,
    }
}

/// Bits contributed by the masked flag.
pub open spec fn masked_bits(masked: bool) -> u32 {
    if masked {
        MASKED
    } else {
        NOT_MASKED
    }
}

/// Bits contributed by the trigger-mode field.
pub open spec fn trigger_bits(trigger: APICTriggerMode) -> u32 {
    match trigger {
        APICTriggerMode::APIC_TRIGGER_EDGE => TRIGGER_MODE_EDGE,
        APICTriggerMode::APIC_TRIGGER_LEVEL => TRIGGER_MODE_LEVEL,
        APICTriggerMode::APIC_TRIGGER_NA => 0,
    }
}

/// Bits contributed by the timer-mode field.
pub open spec fn timer_mode_bits(mode: APICTimerMode) -> u32 {
    match mode {
        APICTimerMode::APIC_TIMER_ONESHOT => TIMER_MODE_ONE_SHOT,
        APICTimerMode::APIC_TIMER_PERIODIC => TIMER_MODE_PERIODIC,
        APICTimerMode::APIC_TIMER_TSCDEADLINE => TIMER_MODE_TSCDEADLINE,
        APICTimerMode::APIC_TIMER_NA => 0,
    }
}

/// Bits contributed by the destination-shorthand field.
pub open spec fn shorthand_bits(shorthand: APICDestinationShorthand) -> u32 {
    match shorthand {
        APICDestinationShorthand::APIC_DESTINATION_SHORTHAND_NONE => DESTINATION_SHORTHAND_NONE,
        APICDestinationShorthand::APIC_DESTINATION_SHORTHAND_SELF => DESTINATION_SHORTHAND_SELF,
        APICDestinationShorthand::APIC_DESTINATION_SHORTHAND_ALL_INC_SELF => DESTINATION_SHORTHAND_ALL_INC_SELF,
        APICDestinationShorthand::APIC_DESTINATION_SHORTHAND_ALL_EXC_SELF => DESTINATION_SHORTHAND_ALL_EXC_SELF,
        APICDestinationShorthand::APIC_DESTINATION_SHORTHAND_NA => 0,
    }
}

/// Bits contributed by the level field.
pub open spec fn level_bits(level: APICLevel) -> u32 {
    match level {
        APICLevel::APIC_LEVEL_DEASSERT => LEVEL_DEASSERT,
        APICLevel::APIC_LEVEL_ASSERT => LEVEL_ASSERT,
        APICLevel::APIC_LEVEL_NA => 0x0,
    }
}

/// Register offset of an LVT slot.
pub open spec fn lvt_offset(entry: APICLVTEntry) -> usize {
    match entry {
        APICLVTEntry::APIC_LVT_TIMER => LVT_TR,
        APICLVTEntry::APIC_LVT_CMCI => LVT_CMCI,
        APICLVTEntry::APIC_LVT_ERROR => LVT_ER,
        APICLVTEntry::APIC_LVT_LINT0 => LVT_LINT0,
        APICLVTEntry::APIC_LVT_LINT1 => LVT_LINT1,
        APICLVTEntry::APIC_LVT_PMCR => LVT_PMCR,
        APICLVTEntry::APIC_LVT_THERMAL => LVT_TMR,
    }
}

/// The 32-bit encoding of an interrupt configuration: every field on its own
/// bit range, the not-applicable variants contributing zero.
pub open spec fn entry_bits(interrupt: APICInterrupt) -> u32 {
    (interrupt.vector as u32) | delivery_bits(interrupt.delivery) | destination_bits(
        interrupt.destination,
    ) | level_bits(interrupt.level) | masked_bits(interrupt.masked) | trigger_bits(
        interrupt.trigger,
    ) | timer_mode_bits(interrupt.timer_mode) | shorthand_bits(interrupt.dest_shorthand)
}

/* Decoding of each field back out of a register value */

/// The vector field of an encoded value.
pub open spec fn vector_of(value: u32) -> u8 {
    (value & VECTOR_FIELD_MASK) as u8
}

/// The delivery-mode field of an encoded value; the zero pattern reads as
/// fixed delivery.
pub open spec fn delivery_of(value: u32) -> APICDeliveryMode {
    let bits = value & DELIVERY_FIELD_MASK;
    if bits == DELIVERY_MODE_LP {
        APICDeliveryMode::APIC_DELIVERY_LP
    } else if bits == DELIVERY_MODE_SMI {
        APICDeliveryMode::APIC_DELIVERY_SMI
    } else if bits == DELIVERY_MODE_NMI {
        APICDeliveryMode::APIC_DELIVERY_NMI
    } else if bits == DELIVERY_MODE_INIT {
        APICDeliveryMode::APIC_DELIVERY_INIT
    } else if bits == DELIVERY_MODE_SIPI {
        APICDeliveryMode::APIC_DELIVERY_SIPI
    } else if bits == DELIVERY_MODE_EXTINT {
        APICDeliveryMode::APIC_DELIVERY_EXTINT
    } else {
        APICDeliveryMode::APIC_DELIVERY_FIXED
    }
}

/// The destination-mode field of an encoded value; the zero pattern reads as
/// physical destination.
pub open spec fn destination_of(value: u32) -> APICDestinationMode {
    if value & DESTINATION_FIELD_MASK == DESTINATION_MODE_LOGICAL {
        APICDestinationMode::APIC_DESTINATION_LOGICAL
    } else {
        APICDestinationMode::APIC_DESTINATION_PHYSICAL
    }
}

/// The level field of an encoded value; the zero pattern reads as deassert.
pub open spec fn level_of(value: u32) -> APICLevel {
    if value & LEVEL_FIELD_MASK == LEVEL_ASSERT {
        APICLevel::APIC_LEVEL_ASSERT
    } else {
        APICLevel::APIC_LEVEL_DEASSERT
    }
}

/// The trigger-mode field of an encoded value; the zero pattern reads as
/// edge-triggered.
pub open spec fn trigger_of(value: u32) -> APICTriggerMode {
    if value & TRIGGER_FIELD_MASK == TRIGGER_MODE_LEVEL {
        APICTriggerMode::APIC_TRIGGER_LEVEL
    } else {
        APICTriggerMode::APIC_TRIGGER_EDGE
    }
}

/// The masked flag of an encoded value.
pub open spec fn masked_of(value: u32) -> bool {
    value & MASKED_FIELD_MASK == MASKED
}

/// The timer-mode field of an encoded value; the zero pattern reads as
/// one-shot.
pub open spec fn timer_mode_of(value: u32) -> APICTimerMode {
    let bits = value & TIMER_FIELD_MASK;
    if bits == TIMER_MODE_PERIODIC {
        APICTimerMode::APIC_TIMER_PERIODIC
    } else if bits == TIMER_MODE_TSCDEADLINE {
        APICTimerMode::APIC_TIMER_TSCDEADLINE
    } else {
        APICTimerMode::APIC_TIMER_ONESHOT
    }
}

/// The destination-shorthand field of an encoded value; the zero pattern
/// reads as no shorthand.
pub open spec fn shorthand_of(value: u32) -> APICDestinationShorthand {
    let bits = value & SHORTHAND_FIELD_MASK;
    if bits == DESTINATION_SHORTHAND_SELF {
        APICDestinationShorthand::APIC_DESTINATION_SHORTHAND_SELF
    } else if bits == DESTINATION_SHORTHAND_ALL_INC_SELF {
        APICDestinationShorthand::APIC_DESTINATION_SHORTHAND_ALL_INC_SELF
    } else if bits == DESTINATION_SHORTHAND_ALL_EXC_SELF {
        APICDestinationShorthand::APIC_DESTINATION_SHORTHAND_ALL_EXC_SELF
    } else {
        APICDestinationShorthand::APIC_DESTINATION_SHORTHAND_NONE
    }
}

/// Decode the vector field of a register value.
pub fn decode_vector(value: u32) -> (r: u8)
    ensures
        r == vector_of(value),
{
    (value & VECTOR_FIELD_MASK) as u8
}

/// Decode the delivery-mode field of a register value.
pub fn decode_delivery(value: u32) -> (r: APICDeliveryMode)
    ensures
        r == delivery_of(value),
{
    let bits = value & DELIVERY_FIELD_MASK;
    if bits == DELIVERY_MODE_LP {
        APICDeliveryMode::APIC_DELIVERY_LP
    } else if bits == DELIVERY_MODE_SMI {
        APICDeliveryMode::APIC_DELIVERY_SMI
    } else if bits == DELIVERY_MODE_NMI {
        APICDeliveryMode::APIC_DELIVERY_NMI
    } else if bits == DELIVERY_MODE_INIT {
        APICDeliveryMode::APIC_DELIVERY_INIT
    } else if bits == DELIVERY_MODE_SIPI {
        APICDeliveryMode::APIC_DELIVERY_SIPI
    } else if bits == DELIVERY_MODE_EXTINT {
        APICDeliveryMode::APIC_DELIVERY_EXTINT
    } else {
        APICDeliveryMode::APIC_DELIVERY_FIXED
    }
}

/// Decode the destination-mode field of a register value.
pub fn decode_destination(value: u32) -> (r: APICDestinationMode)
    ensures
        r == destination_of(value),
{
    if value & DESTINATION_FIELD_MASK == DESTINATION_MODE_LOGICAL {
        APICDestinationMode::APIC_DESTINATION_LOGICAL
    } else {
        APICDestinationMode::APIC_DESTINATION_PHYSICAL
    }
}

/// Decode the level field of a register value.
pub fn decode_level(value: u32) -> (r: APICLevel)
    ensures
        r == level_of(value),
{
    if value & LEVEL_FIELD_MASK == LEVEL_ASSERT {
        APICLevel::APIC_LEVEL_ASSERT
    } else {
        APICLevel::APIC_LEVEL_DEASSERT
    }
}

/// Decode the trigger-mode field of a register value.
pub fn decode_trigger(value: u32) -> (r: APICTriggerMode)
    ensures
        r == trigger_of(value),
{
    if value & TRIGGER_FIELD_MASK == TRIGGER_MODE_LEVEL {
        APICTriggerMode::APIC_TRIGGER_LEVEL
    } else {
        APICTriggerMode::APIC_TRIGGER_EDGE
    }
}

/// Decode the masked flag of a register value.
pub fn decode_masked(value: u32) -> (r: bool)
    ensures
        r == masked_of(value),
{
    value & MASKED_FIELD_MASK == MASKED
}

/// Decode the timer-mode field of a register value.
pub fn decode_timer_mode(value: u32) -> (r: APICTimerMode)
    ensures
        r == timer_mode_of(value),
{
    let bits = value & TIMER_FIELD_MASK;
    if bits == TIMER_MODE_PERIODIC {
        APICTimerMode::APIC_TIMER_PERIODIC
    } else if bits == TIMER_MODE_TSCDEADLINE {
        APICTimerMode::APIC_TIMER_TSCDEADLINE
    } else {
        APICTimerMode::APIC_TIMER_ONESHOT
    }
}

/// Decode the destination-shorthand field of a register value.
pub fn decode_shorthand(value: u32) -> (r: APICDestinationShorthand)
    ensures
        r == shorthand_of(value),
{
    let bits = value & SHORTHAND_FIELD_MASK;
    if bits == DESTINATION_SHORTHAND_SELF {
        APICDestinationShorthand::APIC_DESTINATION_SHORTHAND_SELF
    } else if bits == DESTINATION_SHORTHAND_ALL_INC_SELF {
        APICDestinationShorthand::APIC_DESTINATION_SHORTHAND_ALL_INC_SELF
    } else if bits == DESTINATION_SHORTHAND_ALL_EXC_SELF {
        APICDestinationShorthand::APIC_DESTINATION_SHORTHAND_ALL_EXC_SELF
    } else {
        APICDestinationShorthand::APIC_DESTINATION_SHORTHAND_NONE
    }
}

/// The view after one 32-bit register write: the target cell takes the value
/// and the write is appended to the log.
pub open spec fn written(pre: APICView, offset: usize, value: u32) -> APICView {
    APICView {
        regs: pre.regs.update(offset as int / 16, value),
        log: pre.log.push(RegWrite { offset, value }),
        ..pre
    }
}

/// The base-address model-specific register's value for a given window base
/// and the two enable flags.
pub open spec fn base_msr_value(base: u32, xapic: bool, x2apic: bool) -> u64 {
    let value = base as u64;
    let value = if xapic {
        value | ENABLE_XAPIC_BIT
    } else {
        value
    };
    if x2apic {
        value | ENABLE_X2APIC_BIT
    } else {
        value
    }
}

/// Every write of a log lands on the 16-byte register stride, inside the
/// window: the controller never issues a misaligned or out-of-window write.
pub open spec fn log_wf(log: Seq<RegWrite>) -> bool {
    forall|i: int|
        0 <= i < log.len() ==> (#[trigger] log[i]).offset % 16 == 0 && log[i].offset
            < REG_WINDOW_SIZE
}

impl APIC {
    /// Well-formedness: the model covers the whole 4 KiB register window,
    /// and every write it has issued was stride-aligned and inside it.
    pub open spec fn wf(&self) -> bool {
        &&& self@.regs.len() == REG_CELLS
        &&& log_wf(self@.log)
    }

    /// A fresh model of the register window, every cell zero and no write
    /// logged yet.
    pub fn new() -> (apic: APIC)
        ensures
            apic.wf(),
            apic@.regs.len() == REG_CELLS,
            forall|i: int| 0 <= i < REG_CELLS ==> apic@.regs[i] == 0u32,
            apic@.log.len() == 0,
            apic@.base_msr == 0u64,
            apic@.tsc_deadline_msr == 0u64,
    {
        let mut regs: Vec<u32> = Vec::new();
        let mut i: usize = 0;
        while i < REG_CELLS
            invariant
                i <= REG_CELLS,
                regs@.len() == i,
                forall|j: int| 0 <= j < i ==> regs@[j] == 0u32,
            decreases REG_CELLS - i,
        {
            regs.push(0);
            i = i + 1;
        }
        APIC { regs, log: Vec::new(), base_msr: 0, tsc_deadline_msr: 0 }
    }

    /// Whether the model is well formed; established by the constructor and
    /// preserved by every operation.
    pub fn is_wf(&self) -> (r: bool)
        ensures
            r == self.wf(),
    {
        if self.regs.len() != REG_CELLS {
            return false;
        }
        let mut i: usize = 0;
        while i < self.log.len()
            invariant
                i <= self@.log.len(),
                self@.regs.len() == REG_CELLS,
                forall|j: int|
                    0 <= j < i ==> (#[trigger] self@.log[j]).offset % 16 == 0 && self@.log[j].offset
                        < REG_WINDOW_SIZE,
            decreases self@.log.len() - i,
        {
            let w = self.log[i];
            if w.offset % 16 != 0 || w.offset >= REG_WINDOW_SIZE {
                return false;
            }
            i = i + 1;
        }
        true
    }

    /// How many register writes have been issued.
    pub fn log_len(&self) -> (r: usize)
        ensures
            r == self@.log.len(),
    {
        self.log.len()
    }

    /// The i-th register write issued, in chronological order.
    pub fn log_entry(&self, i: usize) -> (w: RegWrite)
        requires
            i < self@.log.len(),
        ensures
            w == self@.log[i as int],
    {
        self.log[i]
    }

    /// The current value of the base-address model-specific register.
    pub fn read_base_msr(&self) -> (r: u64)
        ensures
            r == self@.base_msr,
    {
        self.base_msr
    }

    /// The current value of the timestamp-deadline model-specific register.
    pub fn read_tsc_deadline_msr(&self) -> (r: u64)
        ensures
            r == self@.tsc_deadline_msr,
    {
        self.tsc_deadline_msr
    }

    /// Read the 32-bit register at a byte offset of the window. An offset
    /// that is not a multiple of the 16-byte stride is rejected with an
    /// absent value.
    pub fn read32(&self, index: usize) -> (r: Option<u32>)
        requires
            self.wf(),
            index < REG_WINDOW_SIZE,
        ensures
            r == (if index % 16 == 0 {
                Some(self@.regs[index as int / 16])
            } else {
                None::<u32>
            }),
    {
        proof {
            assert((index & 0xf == 0) == (index % 16 == 0)) by (bit_vector);
        }
        if (index & 0xf) != 0 {
            return None;
        }
        Some(self.regs[index / 16])
    }

    /// Write the 32-bit register at a byte offset of the window and log the
    /// write. An offset that is not a multiple of the 16-byte stride is
    /// ignored: no register changes and nothing is logged.
    pub fn write32(&mut self, index: usize, value: u32)
        requires
            old(self).wf(),
            index < REG_WINDOW_SIZE,
        ensures
            final(self).wf(),
            index % 16 == 0 ==> final(self)@ =~= written(old(self)@, index, value),
            index % 16 != 0 ==> final(self)@ =~= old(self)@,
    {
        proof {
            assert((index & 0xf == 0) == (index % 16 == 0)) by (bit_vector);
        }
        if (index & 0xf) != 0 {
            return ;
        }
        self.regs[index / 16] = value;
        self.log.push(RegWrite { offset: index, value });
    }

    /// Write the base-address model-specific register with the given window
    /// base and enable flags.
    pub fn update_base(&mut self, base: u32, xapic: bool, x2apic: bool)
        requires
            old(self).wf(),
        ensures
            final(self).wf(),
            final(self)@ =~= (APICView {
                base_msr: base_msr_value(base, xapic, x2apic),
                ..old(self)@
            }),
    {
        let mut value: u64 = base as u64;

        if xapic {
            value = value | ENABLE_XAPIC_BIT;
        }
        if x2apic {
            value = value | ENABLE_X2APIC_BIT;
        }
        self.base_msr = value;
    }

    /// Byte offset of the given 32-bit chunk of the in-service register
    /// bank.
    pub fn isr_of(offset: usize) -> (r: usize)
        requires
            offset < 8,
        ensures
            r == offset * 0x10 + ISR,
    {
        (offset * 0x10) + ISR
    }

    /// Byte offset of the given 32-bit chunk of the trigger-mode register
    /// bank.
    pub fn tmr_of(offset: usize) -> (r: usize)
        requires
            offset < 8,
        ensures
            r == offset * 0x10 + TMR,
    {
        (offset * 0x10) + TMR
    }

    /// Byte offset of the given 32-bit chunk of the interrupt-request
    /// register bank.
    pub fn irr_of(offset: usize) -> (r: usize)
        requires
            offset < 8,
        ensures
            r == offset * 0x10 + IRR,
    {
        (offset * 0x10) + IRR
    }

    /// Encode the delivery-mode field.
    pub fn delivery(delivery: APICDeliveryMode) -> (r: u32)
        ensures
            r == delivery_bits(delivery),
    {
        match delivery {
            APICDeliveryMode::APIC_DELIVERY_FIXED => DELIVERY_MODE_FIXED,
            APICDeliveryMode::APIC_DELIVERY_LP => DELIVERY_MODE_LP,
            APICDeliveryMode::APIC_DELIVERY_NMI => DELIVERY_MODE_NMI,
            APICDeliveryMode::APIC_DELIVERY_SMI => DELIVERY_MODE_SMI,
            APICDeliveryMode::APIC_DELIVERY_INIT => DELIVERY_MODE_INIT,
            APICDeliveryMode::APIC_DELIVERY_EXTINT => DELIVERY_MODE_EXTINT,
            APICDeliveryMode::APIC_DELIVERY_SIPI => DELIVERY_MODE_SIPI,
            APICDeliveryMode::APIC_DELIVERY_NA => 0,
        }
    }

    /// Encode the destination-mode field.
    pub fn destination(destination: APICDestinationMode) -> (r: u32)
        ensures
            r == destination_bits(destination),
    {
        match destination {
            APICDestinationMode::APIC_DESTINATION_PHYSICAL => DESTINATION_MODE_PHYSICAL,
            APICDestinationMode::APIC_DESTINATION_LOGICAL => DESTINATION_MODE_LOGICAL,
            APICDestinationMode::APIC_DESTINATION_NA => 0,
        }
    }

    /// Encode the masked flag.
    pub fn masked(masked: bool) -> (r: u32)
        ensures
            r == masked_bits(masked),
    {
        match masked {
            true => MASKED,
            false => NOT_MASKED,
        }
    }

    /// Encode the trigger-mode field.
    pub fn trigger(trigger: APICTriggerMode) -> (r: u32)
        ensures
            r == trigger_bits(trigger),
    {
        match trigger {
            APICTriggerMode::APIC_TRIGGER_EDGE => TRIGGER_MODE_EDGE,
            APICTriggerMode::APIC_TRIGGER_LEVEL => TRIGGER_MODE_LEVEL,
            APICTriggerMode::APIC_TRIGGER_NA => 0,
        }
    }

    /// Encode the timer-mode field.
    pub fn timer_mode(mode: APICTimerMode) -> (r: u32)
        ensures
            r == timer_mode_bits(mode),
    {
        match mode {
            APICTimerMode::APIC_TIMER_ONESHOT => TIMER_MODE_ONE_SHOT,
            APICTimerMode::APIC_TIMER_PERIODIC => TIMER_MODE_PERIODIC,
            APICTimerMode::APIC_TIMER_TSCDEADLINE => TIMER_MODE_TSCDEADLINE,
            APICTimerMode::APIC_TIMER_NA => 0,
        }
    }

    /// Encode the destination-shorthand field.
    pub fn destination_shorthand(shorthand: APICDestinationShorthand) -> (r: u32)
        ensures
            r == shorthand_bits(shorthand),
    {
        match shorthand {
            APICDestinationShorthand::APIC_DESTINATION_SHORTHAND_NONE => DESTINATION_SHORTHAND_NONE,
            APICDestinationShorthand::APIC_DESTINATION_SHORTHAND_SELF => DESTINATION_SHORTHAND_SELF,
            APICDestinationShorthand::APIC_DESTINATION_SHORTHAND_ALL_INC_SELF => DESTINATION_SHORTHAND_ALL_INC_SELF,
            APICDestinationShorthand::APIC_DESTINATION_SHORTHAND_ALL_EXC_SELF => DESTINATION_SHORTHAND_ALL_EXC_SELF,
            APICDestinationShorthand::APIC_DESTINATION_SHORTHAND_NA => 0,
        }
    }

    /// Register offset of an LVT slot.
    pub fn lvt_register(entry: APICLVTEntry) -> (r: usize)
        ensures
            r == lvt_offset(entry),
    {
        match entry {
            APICLVTEntry::APIC_LVT_TIMER => LVT_TR,
            APICLVTEntry::APIC_LVT_CMCI => LVT_CMCI,
            APICLVTEntry::APIC_LVT_ERROR => LVT_ER,
            APICLVTEntry::APIC_LVT_LINT0 => LVT_LINT0,
            APICLVTEntry::APIC_LVT_LINT1 => LVT_LINT1,
            APICLVTEntry::APIC_LVT_PMCR => LVT_PMCR,
            APICLVTEntry::APIC_LVT_THERMAL => LVT_TMR,
        }
    }

    /// Encode the level field.
    pub fn level(level: APICLevel) -> (r: u32)
        ensures
            r == level_bits(level),
    {
        match level {
            APICLevel::APIC_LEVEL_DEASSERT => LEVEL_DEASSERT,
            APICLevel::APIC_LEVEL_ASSERT => LEVEL_ASSERT,
            APICLevel::APIC_LEVEL_NA => 0x0,
        }
    }

    /// Encode a whole interrupt configuration onto its 32-bit register
    /// value.
    pub fn interrupt_entry(interrupt: &APICInterrupt) -> (r: u32)
        ensures
            r == entry_bits(*interrupt),
    {
        let mut value: u32;

        value = interrupt.vector as u32;
        value = value | APIC::delivery(interrupt.delivery);
        value = value | APIC::destination(interrupt.destination);
        value = value | APIC::level(interrupt.level);
        value = value | APIC::masked(interrupt.masked);
        value = value | APIC::trigger(interrupt.trigger);
        value = value | APIC::timer_mode(interrupt.timer_mode);
        value = value | APIC::destination_shorthand(interrupt.dest_shorthand);

        value
    }

    /// Write one LVT slot with the encoding of the given configuration.
    pub fn update_lvt(&mut self, interrupt: &APICInterrupt, entry: APICLVTEntry)
        requires
            old(self).wf(),
        ensures
            final(self).wf(),
            final(self)@ =~= written(old(self)@, lvt_offset(entry), entry_bits(*interrupt)),
    {
        let offset = APIC::lvt_register(entry);
        let value = APIC::interrupt_entry(interrupt);
        self.write32(offset, value);
    }

    /// Program the timer LVT entry for periodic mode with the fixed timer
    /// vector, unmasked; the period itself is supplied separately.
    pub fn set_timer_periodic_mode(&mut self)
        requires
            old(self).wf(),
        ensures
            final(self).wf(),
            final(self)@ =~= written(
                old(self)@,
                LVT_TR,
                entry_bits(timer_config(APICTimerMode::APIC_TIMER_PERIODIC)),
            ),
    {
        let interrupt = APICInterrupt {
            vector: TIMER_VECTOR,
            delivery: APICDeliveryMode::APIC_DELIVERY_NA,
            destination: APICDestinationMode::APIC_DESTINATION_NA,
            level: APICLevel::APIC_LEVEL_NA,
            masked: false,
            trigger: APICTriggerMode::APIC_TRIGGER_NA,
            dest_shorthand: APICDestinationShorthand::APIC_DESTINATION_SHORTHAND_NA,
            timer_mode: APICTimerMode::APIC_TIMER_PERIODIC,
        };

        self.update_lvt(&interrupt, APICLVTEntry::APIC_LVT_TIMER);
    }

    /// Supply the period of the periodic timer: write the initial-count
    /// register.
    pub fn set_timer_period(&mut self, value: u32)
        requires
            old(self).wf(),
        ensures
            final(self).wf(),
            final(self)@ =~= written(old(self)@, TIMER_ICR, value),
    {
        self.write32(TIMER_ICR, value);
    }

    /// Program the timer LVT entry for one-shot mode with the fixed timer
    /// vector, unmasked; the count itself is supplied separately.
    pub fn set_timer_oneshot_mode(&mut self)
        requires
            old(self).wf(),
        ensures
            final(self).wf(),
            final(self)@ =~= written(
                old(self)@,
                LVT_TR,
                entry_bits(timer_config(APICTimerMode::APIC_TIMER_ONESHOT)),
            ),
    {
        let interrupt = APICInterrupt {
            vector: TIMER_VECTOR,
            delivery: APICDeliveryMode::APIC_DELIVERY_NA,
            destination: APICDestinationMode::APIC_DESTINATION_NA,
            level: APICLevel::APIC_LEVEL_NA,
            masked: false,
            trigger: APICTriggerMode::APIC_TRIGGER_NA,
            dest_shorthand: APICDestinationShorthand::APIC_DESTINATION_SHORTHAND_NA,
            timer_mode: APICTimerMode::APIC_TIMER_ONESHOT,
        };

        self.update_lvt(&interrupt, APICLVTEntry::APIC_LVT_TIMER);
    }

    /// Supply the count of the one-shot timer: write the initial-count
    /// register.
    pub fn set_timer_oneshot(&mut self, value: u32)
        requires
            old(self).wf(),
        ensures
            final(self).wf(),
            final(self)@ =~= written(old(self)@, TIMER_ICR, value),
    {
        self.write32(TIMER_ICR, value);
    }

    /// Program the timer LVT entry for timestamp-deadline mode with the
    /// fixed timer vector, unmasked; the deadline itself is supplied
    /// separately.
    pub fn set_timer_tscdeadline_mode(&mut self)
        requires
            old(self).wf(),
        ensures
            final(self).wf(),
            final(self)@ =~= written(
                old(self)@,
                LVT_TR,
                entry_bits(timer_config(APICTimerMode::APIC_TIMER_TSCDEADLINE)),
            ),
    {
        let interrupt = APICInterrupt {
            vector: TIMER_VECTOR,
            delivery: APICDeliveryMode::APIC_DELIVERY_NA,
            destination: APICDestinationMode::APIC_DESTINATION_NA,
            level: APICLevel::APIC_LEVEL_NA,
            masked: false,
            trigger: APICTriggerMode::APIC_TRIGGER_NA,
            dest_shorthand: APICDestinationShorthand::APIC_DESTINATION_SHORTHAND_NA,
            timer_mode: APICTimerMode::APIC_TIMER_TSCDEADLINE,
        };

        self.update_lvt(&interrupt, APICLVTEntry::APIC_LVT_TIMER);
    }

    /// Supply the deadline of the timestamp-deadline timer: write the
    /// dedicated model-specific register with the absolute target value.
    pub fn set_timer_tscdeadline(&mut self, value: u64)
        requires
            old(self).wf(),
        ensures
            final(self).wf(),
            final(self)@ =~= (APICView { tsc_deadline_msr: value, ..old(self)@ }),
    {
        self.tsc_deadline_msr = value;
    }

    /// Send a fixed-delivery, physical-destination interrupt command to this
    /// processor itself: destination half first (irrelevant under the self
    /// shorthand), then the command half, which triggers the send.
    pub fn self_ipi(&mut self, ipi: u8)
        requires
            old(self).wf(),
        ensures
            final(self).wf(),
            final(self)@ =~= written(
                written(old(self)@, ICR1, 0u32),
                ICR0,
                entry_bits(self_ipi_config(ipi)),
            ),
    {
        let interrupt = APICInterrupt {
            vector: ipi,
            delivery: APICDeliveryMode::APIC_DELIVERY_FIXED,
            destination: APICDestinationMode::APIC_DESTINATION_PHYSICAL,
            level: APICLevel::APIC_LEVEL_NA,
            trigger: APICTriggerMode::APIC_TRIGGER_NA,
            dest_shorthand: APICDestinationShorthand::APIC_DESTINATION_SHORTHAND_SELF,
            timer_mode: APICTimerMode::APIC_TIMER_NA,
            masked: false,
        };

        self.write32(ICR1, 0);
        self.write32(ICR0, APIC::interrupt_entry(&interrupt));
    }

    /// Boot the secondary processor with the given identifier at the given
    /// real-mode entry address: send an asserted level-triggered
    /// initialization command, deassert it, then send the startup command
    /// with the address's page number twice, since the first may be lost
    /// while the target wakes. Each command writes the destination half
    /// before the command half; the eight writes happen in exactly that
    /// order.
    pub fn wake_ap(&mut self, apic_id: u32, address: u32)
        requires
            old(self).wf(),
        ensures
            final(self).wf(),
            final(self)@.log =~= old(self)@.log + wake_ap_writes(apic_id, address),
            final(self)@.regs =~= old(self)@.regs.update(
                ICR1 as int / 16,
                apic_id << 24,
            ).update(ICR0 as int / 16, entry_bits(sipi_config(address))),
            final(self)@.base_msr == old(self)@.base_msr,
            final(self)@.tsc_deadline_msr == old(self)@.tsc_deadline_msr,
    {
        let mut interrupt: APICInterrupt;

        interrupt = APICInterrupt {
            vector: 0,
            delivery: APICDeliveryMode::APIC_DELIVERY_INIT,
            destination: APICDestinationMode::APIC_DESTINATION_PHYSICAL,
            level: APICLevel::APIC_LEVEL_ASSERT,
            trigger: APICTriggerMode::APIC_TRIGGER_LEVEL,
            dest_shorthand: APICDestinationShorthand::APIC_DESTINATION_SHORTHAND_NONE,
            timer_mode: APICTimerMode::APIC_TIMER_NA,
            masked: false,
        };
        self.write32(ICR1, apic_id << 24);
        self.write32(ICR0, APIC::interrupt_entry(&interrupt));

        interrupt = APICInterrupt {
            vector: 0,
            delivery: APICDeliveryMode::APIC_DELIVERY_INIT,
            destination: APICDestinationMode::APIC_DESTINATION_PHYSICAL,
            level: APICLevel::APIC_LEVEL_DEASSERT,
            trigger: APICTriggerMode::APIC_TRIGGER_LEVEL,
            dest_shorthand: APICDestinationShorthand::APIC_DESTINATION_SHORTHAND_NONE,
            timer_mode: APICTimerMode::APIC_TIMER_NA,
            masked: false,
        };
        self.write32(ICR1, apic_id << 24);
        self.write32(ICR0, APIC::interrupt_entry(&interrupt));

        // The target now accepts a startup command; it is sent twice because
        // the first may be lost while the target is still waking.
        interrupt = APICInterrupt {
            vector: (address >> 12) as u8,
            delivery: APICDeliveryMode::APIC_DELIVERY_SIPI,
            destination: APICDestinationMode::APIC_DESTINATION_PHYSICAL,
            level: APICLevel::APIC_LEVEL_NA,
            trigger: APICTriggerMode::APIC_TRIGGER_EDGE,
            dest_shorthand: APICDestinationShorthand::APIC_DESTINATION_SHORTHAND_NONE,
            timer_mode: APICTimerMode::APIC_TIMER_NA,
            masked: false,
        };
        self.write32(ICR1, apic_id << 24);
        self.write32(ICR0, APIC::interrupt_entry(&interrupt));
        self.write32(ICR1, apic_id << 24);
        self.write32(ICR0, APIC::interrupt_entry(&interrupt));
    }

    /// This processor's own controller identifier, read from the high byte
    /// of the identification register.
    pub fn id(&self) -> (r: u32)
        requires
            self.wf(),
        ensures
            r == self@.regs[ID as int / 16] >> 24,
    {
        self.read32(ID).unwrap() >> 24
    }

    /// Program the default timer: periodic mode with the fixed timer vector
    /// and the default period.
    pub fn start(&mut self)
        requires
            old(self).wf(),
        ensures
            final(self).wf(),
            final(self)@ =~= written(
                written(
                    old(self)@,
                    LVT_TR,
                    entry_bits(timer_config(APICTimerMode::APIC_TIMER_PERIODIC)),
                ),
                TIMER_ICR,
                0xffffffu32,
            ),
    {
        self.set_timer_periodic_mode();
        self.set_timer_period(0xffffff);
    }
}

/* The fixed interrupt configurations the controller writes */

/// The timer LVT configuration: fixed timer vector, unmasked, all fields
/// but the timer mode not applicable.
pub open spec fn timer_config(mode: APICTimerMode) -> APICInterrupt {
    APICInterrupt {
        vector: TIMER_VECTOR,
        delivery: APICDeliveryMode::APIC_DELIVERY_NA,
        destination: APICDestinationMode::APIC_DESTINATION_NA,
        level: APICLevel::APIC_LEVEL_NA,
        trigger: APICTriggerMode::APIC_TRIGGER_NA,
        dest_shorthand: APICDestinationShorthand::APIC_DESTINATION_SHORTHAND_NA,
        timer_mode: mode,
        masked: false,
    }
}

/// The fully masked LVT configuration written during reset: vector zero,
/// every other field not applicable, masked.
pub open spec fn masked_config() -> APICInterrupt {
    APICInterrupt {
        vector: 0,
        delivery: APICDeliveryMode::APIC_DELIVERY_NA,
        destination: APICDestinationMode::APIC_DESTINATION_NA,
        level: APICLevel::APIC_LEVEL_NA,
        trigger: APICTriggerMode::APIC_TRIGGER_NA,
        dest_shorthand: APICDestinationShorthand::APIC_DESTINATION_SHORTHAND_NA,
        timer_mode: APICTimerMode::APIC_TIMER_NA,
        masked: true,
    }
}

/// The register value every LVT slot holds after reset.
pub open spec fn masked_lvt_value() -> u32 {
    entry_bits(masked_config())
}

/// The self-directed interrupt command: fixed delivery, physical
/// destination, self shorthand, the given vector.
pub open spec fn self_ipi_config(vector: u8) -> APICInterrupt {
    APICInterrupt {
        vector,
        delivery: APICDeliveryMode::APIC_DELIVERY_FIXED,
        destination: APICDestinationMode::APIC_DESTINATION_PHYSICAL,
        level: APICLevel::APIC_LEVEL_NA,
        trigger: APICTriggerMode::APIC_TRIGGER_NA,
        dest_shorthand: APICDestinationShorthand::APIC_DESTINATION_SHORTHAND_SELF,
        timer_mode: APICTimerMode::APIC_TIMER_NA,
        masked: false,
    }
}

/// The initialization command of the wake-up sequence, at the given level:
/// level-triggered, physical destination, no shorthand.
pub open spec fn init_config(level: APICLevel) -> APICInterrupt {
    APICInterrupt {
        vector: 0,
        delivery: APICDeliveryMode::APIC_DELIVERY_INIT,
        destination: APICDestinationMode::APIC_DESTINATION_PHYSICAL,
        level,
        trigger: APICTriggerMode::APIC_TRIGGER_LEVEL,
        dest_shorthand: APICDestinationShorthand::APIC_DESTINATION_SHORTHAND_NONE,
        timer_mode: APICTimerMode::APIC_TIMER_NA,
        masked: false,
    }
}

/// The startup command of the wake-up sequence: the entry address's page
/// number as vector, edge-triggered, physical destination, no shorthand.
pub open spec fn sipi_config(address: u32) -> APICInterrupt {
    APICInterrupt {
        vector: (address >> 12) as u8,
        delivery: APICDeliveryMode::APIC_DELIVERY_SIPI,
        destination: APICDestinationMode::APIC_DESTINATION_PHYSICAL,
        level: APICLevel::APIC_LEVEL_NA,
        trigger: APICTriggerMode::APIC_TRIGGER_EDGE,
        dest_shorthand: APICDestinationShorthand::APIC_DESTINATION_SHORTHAND_NONE,
        timer_mode: APICTimerMode::APIC_TIMER_NA,
        masked: false,
    }
}

/// The exact write sequence of the wake-up protocol: destination half before
/// command half for each of the four commands — initialization asserted,
/// initialization deasserted, then the startup command twice.
pub open spec fn wake_ap_writes(apic_id: u32, address: u32) -> Seq<RegWrite> {
    seq![
        RegWrite { offset: ICR1, value: apic_id << 24 },
        RegWrite { offset: ICR0, value: entry_bits(init_config(APICLevel::APIC_LEVEL_ASSERT)) },
        RegWrite { offset: ICR1, value: apic_id << 24 },
        RegWrite { offset: ICR0, value: entry_bits(init_config(APICLevel::APIC_LEVEL_DEASSERT)) },
        RegWrite { offset: ICR1, value: apic_id << 24 },
        RegWrite { offset: ICR0, value: entry_bits(sipi_config(address)) },
        RegWrite { offset: ICR1, value: apic_id << 24 },
        RegWrite { offset: ICR0, value: entry_bits(sipi_config(address)) },
    ]
}

/// The logical-destination register's value after reset: high byte cleared,
/// lowest bit set as the fixed non-zero logical identifier.
pub open spec fn reset_ldr_value(ldr: u32) -> u32 {
    (ldr & 0x0FFFFFF) | 1
}

/// The register cells after reset, given the cells before it.
pub open spec fn reset_regs(regs: Seq<u32>) -> Seq<u32> {
    regs.update(DFR as int / 16, 0xFFFFFFFFu32).update(
        LDR as int / 16,
        reset_ldr_value(regs[LDR as int / 16]),
    ).update(LVT_TR as int / 16, masked_lvt_value()).update(
        LVT_ER as int / 16,
        masked_lvt_value(),
    ).update(LVT_CMCI as int / 16, masked_lvt_value()).update(
        LVT_PMCR as int / 16,
        masked_lvt_value(),
    ).update(LVT_LINT0 as int / 16, masked_lvt_value()).update(
        LVT_LINT1 as int / 16,
        masked_lvt_value(),
    ).update(ESR as int / 16, 0u32).update(TPR as int / 16, 0u32).update(
        SIP as int / 16,
        SPURIOUS_VECTOR | 0x100,
    ).update(EOI as int / 16, 0u32)
}

/// The exact write sequence of the reset protocol, given the
/// logical-destination register's value before it.
pub open spec fn reset_writes(ldr: u32) -> Seq<RegWrite> {
    seq![
        RegWrite { offset: DFR, value: 0xFFFFFFFFu32 },
        RegWrite { offset: LDR, value: reset_ldr_value(ldr) },
        RegWrite { offset: LVT_TR, value: masked_lvt_value() },
        RegWrite { offset: LVT_ER, value: masked_lvt_value() },
        RegWrite { offset: LVT_CMCI, value: masked_lvt_value() },
        RegWrite { offset: LVT_PMCR, value: masked_lvt_value() },
        RegWrite { offset: LVT_LINT0, value: masked_lvt_value() },
        RegWrite { offset: LVT_LINT1, value: masked_lvt_value() },
        RegWrite { offset: ESR, value: 0u32 },
        RegWrite { offset: ESR, value: 0u32 },
        RegWrite { offset: TPR, value: 0u32 },
        RegWrite { offset: SIP, value: SPURIOUS_VECTOR | 0x100 },
        RegWrite { offset: EOI, value: 0u32 },
    ]
}

impl InterruptController for APIC {
    open spec fn inv(&self) -> bool {
        self.wf()
    }

    /// Enabling writes the base-address model-specific register with the
    /// fixed window base and the controller-enable flag; extended mode stays
    /// off. Nothing else changes, so enabling is idempotent.
    open spec fn enable_rel(pre: APIC, post: APIC) -> bool {
        post@ =~= (APICView {
            base_msr: base_msr_value(APIC_ADDRESS, true, false),
            ..pre@
        })
    }

    /// Disabling writes the same register without the enable flag. Nothing
    /// else changes, so disabling is idempotent.
    open spec fn disable_rel(pre: APIC, post: APIC) -> bool {
        post@ =~= (APICView {
            base_msr: base_msr_value(APIC_ADDRESS, false, false),
            ..pre@
        })
    }

    /// Resetting disables the controller, then issues the fixed write
    /// sequence: flat destination format, the fixed logical identifier, all
    /// six LVT slots masked with vector zero, the error status cleared
    /// twice, the task priority zeroed, the spurious register programmed
    /// with the fixed vector and the software-enable bit, and one final
    /// end-of-interrupt.
    open spec fn reset_rel(pre: APIC, post: APIC) -> bool {
        post@ =~= (APICView {
            base_msr: base_msr_value(APIC_ADDRESS, false, false),
            regs: reset_regs(pre@.regs),
            log: pre@.log + reset_writes(pre@.regs[LDR as int / 16]),
            tsc_deadline_msr: pre@.tsc_deadline_msr,
        })
    }

    /// Acknowledging writes zero to the end-of-interrupt register, whatever
    /// the vector argument.
    open spec fn eoi_rel(pre: APIC, post: APIC, irq: u32) -> bool {
        post@ =~= written(pre@, EOI, 0u32)
    }

    /// Per-vector masking is a no-op here: the controller's lines are
    /// configured wholesale through LVT entries instead.
    open spec fn mask_rel(pre: APIC, post: APIC, irq: u32) -> bool {
        post@ =~= pre@
    }

    /// Per-vector unmasking is a no-op here, as masking is.
    open spec fn unmask_rel(pre: APIC, post: APIC, irq: u32) -> bool {
        post@ =~= pre@
    }

    open spec fn spurious_vector(&self) -> u32 {
        SPURIOUS_VECTOR
    }

    fn enable(&mut self) {
        // extended mode is unsupported by design
        let x2apic = false;

        if x2apic {
            self.update_base(APIC_ADDRESS, true, true);
        } else {
            self.update_base(APIC_ADDRESS, true, false);
        }
    }

    fn disable(&mut self) {
        self.update_base(APIC_ADDRESS, false, false);
    }

    fn reset(&mut self) {
        self.disable();

        self.write32(DFR, 0xFFFFFFFF);
        let ldr = (self.read32(LDR).unwrap() & 0x0FFFFFF) | 1;
        self.write32(LDR, ldr);

        let masked_interrupt = APICInterrupt {
            vector: 0,
            timer_mode: APICTimerMode::APIC_TIMER_NA,
            destination: APICDestinationMode::APIC_DESTINATION_NA,
            level: APICLevel::APIC_LEVEL_NA,
            trigger: APICTriggerMode::APIC_TRIGGER_NA,
            dest_shorthand: APICDestinationShorthand::APIC_DESTINATION_SHORTHAND_NA,
            delivery: APICDeliveryMode::APIC_DELIVERY_NA,
            masked: true,
        };

        self.update_lvt(&masked_interrupt, APICLVTEntry::APIC_LVT_TIMER);
        self.update_lvt(&masked_interrupt, APICLVTEntry::APIC_LVT_ERROR);
        self.update_lvt(&masked_interrupt, APICLVTEntry::APIC_LVT_CMCI);
        self.update_lvt(&masked_interrupt, APICLVTEntry::APIC_LVT_PMCR);
        self.update_lvt(&masked_interrupt, APICLVTEntry::APIC_LVT_LINT0);
        self.update_lvt(&masked_interrupt, APICLVTEntry::APIC_LVT_LINT1);

        self.write32(ESR, 0);
        self.write32(ESR, 0);
        self.write32(TPR, 0);
        self.write32(SIP, SPURIOUS_VECTOR | 0x100);

        self.eoi(0);
    }

    fn eoi(&mut self, _irq: u32) {
        self.write32(EOI, 0);
    }

    fn spurious_irq(&self) -> u32 {
        SPURIOUS_VECTOR
    }

    fn mask(&mut self, _irq: u32) {
    }

    fn unmask(&mut self, _irq: u32) {
    }
}

/// Each field's contribution lands on its own bit range, so masking the
/// combined value recovers each contribution. The timer-mode and
/// destination-shorthand ranges overlap by one bit — no register carries
/// both — so each is recovered only while the other contributes nothing.
proof fn lemma_entry_extract(v0: u32, d: u32, dst: u32, lv: u32, mk: u32, tr: u32, tm: u32, sh: u32)
    by (bit_vector)
    requires
        v0 < 0x100,
        d == DELIVERY_MODE_FIXED || d == DELIVERY_MODE_LP || d == DELIVERY_MODE_SMI
            || d == DELIVERY_MODE_NMI || d == DELIVERY_MODE_INIT || d == DELIVERY_MODE_SIPI
            || d == DELIVERY_MODE_EXTINT,
        dst == DESTINATION_MODE_PHYSICAL || dst == DESTINATION_MODE_LOGICAL,
        lv == LEVEL_DEASSERT || lv == LEVEL_ASSERT,
        mk == NOT_MASKED || mk == MASKED,
        tr == TRIGGER_MODE_EDGE || tr == TRIGGER_MODE_LEVEL,
        tm == TIMER_MODE_ONE_SHOT || tm == TIMER_MODE_PERIODIC || tm == TIMER_MODE_TSCDEADLINE,
        sh == DESTINATION_SHORTHAND_NONE || sh == DESTINATION_SHORTHAND_SELF
            || sh == DESTINATION_SHORTHAND_ALL_INC_SELF || sh == DESTINATION_SHORTHAND_ALL_EXC_SELF,
    ensures
        (v0 | d | dst | lv | mk | tr | tm | sh) & VECTOR_FIELD_MASK == v0,
        (v0 | d | dst | lv | mk | tr | tm | sh) & DELIVERY_FIELD_MASK == d,
        (v0 | d | dst | lv | mk | tr | tm | sh) & DESTINATION_FIELD_MASK == dst,
        (v0 | d | dst | lv | mk | tr | tm | sh) & LEVEL_FIELD_MASK == lv,
        (v0 | d | dst | lv | mk | tr | tm | sh) & MASKED_FIELD_MASK == mk,
        (v0 | d | dst | lv | mk | tr | tm | sh) & TRIGGER_FIELD_MASK == tr,
        sh == DESTINATION_SHORTHAND_NONE ==> (v0 | d | dst | lv | mk | tr | tm | sh)
            & TIMER_FIELD_MASK == tm,
        tm == TIMER_MODE_ONE_SHOT ==> (v0 | d | dst | lv | mk | tr | tm | sh)
            & SHORTHAND_FIELD_MASK == sh,
{
}

/// Law: encoding an interrupt configuration and decoding each field back
/// out of the 32-bit value yields the original field values.
///
/// The vector and the masked flag always come back. A not-applicable
/// variant encodes to the same zero bits as the first concrete variant of
/// its field, so the four fields that have one come back whenever they are
/// concrete. The timer-mode and destination-shorthand ranges share a bit —
/// no register carries both — so the timer mode comes back on a value
/// without shorthand (an LVT entry) and the shorthand on a value without
/// timer mode (an interrupt command).
pub proof fn lemma_entry_roundtrip(interrupt: APICInterrupt)
    ensures
        vector_of(entry_bits(interrupt)) == interrupt.vector,
        masked_of(entry_bits(interrupt)) == interrupt.masked,
        !(interrupt.delivery is APIC_DELIVERY_NA) ==> delivery_of(entry_bits(interrupt))
            == interrupt.delivery,
        !(interrupt.destination is APIC_DESTINATION_NA) ==> destination_of(entry_bits(interrupt))
            == interrupt.destination,
        !(interrupt.level is APIC_LEVEL_NA) ==> level_of(entry_bits(interrupt)) == interrupt.level,
        !(interrupt.trigger is APIC_TRIGGER_NA) ==> trigger_of(entry_bits(interrupt))
            == interrupt.trigger,
        !(interrupt.timer_mode is APIC_TIMER_NA) && (interrupt.dest_shorthand
            is APIC_DESTINATION_SHORTHAND_NA || interrupt.dest_shorthand
            is APIC_DESTINATION_SHORTHAND_NONE) ==> timer_mode_of(entry_bits(interrupt))
            == interrupt.timer_mode,
        !(interrupt.dest_shorthand is APIC_DESTINATION_SHORTHAND_NA) && (interrupt.timer_mode
            is APIC_TIMER_NA || interrupt.timer_mode is APIC_TIMER_ONESHOT) ==> shorthand_of(
            entry_bits(interrupt),
        ) == interrupt.dest_shorthand,
{
    lemma_entry_extract(
        interrupt.vector as u32,
        delivery_bits(interrupt.delivery),
        destination_bits(interrupt.destination),
        level_bits(interrupt.level),
        masked_bits(interrupt.masked),
        trigger_bits(interrupt.trigger),
        timer_mode_bits(interrupt.timer_mode),
        shorthand_bits(interrupt.dest_shorthand),
    );
}

/// Law: enabling twice in a row leaves the controller state identical to
/// enabling once.
pub proof fn lemma_enable_idempotent(a: APIC, b: APIC, c: APIC)
    requires
        APIC::enable_rel(a, b),
        APIC::enable_rel(b, c),
    ensures
        c@ =~= b@,
{
}

/// Law: disabling twice in a row leaves the controller state identical to
/// disabling once.
pub proof fn lemma_disable_idempotent(a: APIC, b: APIC, c: APIC)
    requires
        APIC::disable_rel(a, b),
        APIC::disable_rel(b, c),
    ensures
        c@ =~= b@,
{
}

/// Law: after a reset, each of the six LVT slots reads back masked with
/// vector zero, the task-priority register reads zero, and the spurious
/// register holds the fixed spurious vector with its software-enable bit
/// set.
pub proof fn lemma_reset_baseline(a: APIC, b: APIC)
    requires
        a.wf(),
        APIC::reset_rel(a, b),
    ensures
        forall|o: usize|
            (o == LVT_TR || o == LVT_ER || o == LVT_CMCI || o == LVT_PMCR || o == LVT_LINT0 || o
                == LVT_LINT1) ==> masked_of(#[trigger] b@.regs[o as int / 16])
                && vector_of(b@.regs[o as int / 16]) == 0,
        b@.regs[TPR as int / 16] == 0,
        b@.regs[SIP as int / 16] == SPURIOUS_VECTOR | 0x100,
{
    lemma_entry_roundtrip(masked_config());
}

/// Law: after a disable — in particular one right after an enable — the
/// enable bit of the base-address register is fully cleared.
pub proof fn lemma_disable_clears_enable(a: APIC, b: APIC)
    requires
        APIC::disable_rel(a, b),
    ensures
        b@.base_msr & ENABLE_XAPIC_BIT == 0,
{
    assert((APIC_ADDRESS as u64) & ENABLE_XAPIC_BIT == 0) by (bit_vector);
}

} // verus!
