use libos::apic::{
    decode_delivery, decode_destination, decode_level, decode_masked, decode_shorthand,
    decode_timer_mode, decode_trigger, decode_vector, APICDeliveryMode, APICDestinationMode,
    APICDestinationShorthand, APICInterrupt, APICLevel, APICTimerMode, APICTriggerMode, APIC,
    DFR, EOI, ICR0, ICR1, LDR, LVT_CMCI, LVT_ER, LVT_LINT0, LVT_LINT1, LVT_PMCR, LVT_TR, SIP,
    TIMER_ICR, TPR,
};
use libos::interrupt_controller::InterruptController;

#[test]
fn aligned_access_succeeds() {
    let mut apic = APIC::new();
    apic.write32(0x20, 0xdeadbeef);
    assert_eq!(apic.read32(0x20), Some(0xdeadbeef));
    assert_eq!(apic.log_len(), 1);
    let w = apic.log_entry(0);
    assert_eq!(w.offset, 0x20);
    assert_eq!(w.value, 0xdeadbeef);
}

#[test]
fn misaligned_read_is_absent() {
    let apic = APIC::new();
    assert_eq!(apic.read32(0x24), None);
    assert_eq!(apic.read32(0x21), None);
    assert_eq!(apic.read32(0xff), None);
}

#[test]
fn misaligned_write_is_ignored() {
    let mut apic = APIC::new();
    apic.write32(0x20, 0x1234);
    apic.write32(0x24, 0x5678);
    apic.write32(0x2f, 0x9abc);
    // no register changed and nothing was logged by the misaligned writes
    assert_eq!(apic.log_len(), 1);
    assert_eq!(apic.read32(0x20), Some(0x1234));
    assert_eq!(apic.read32(0x30), Some(0));
}

#[test]
fn encoding_exact_values() {
    let init_assert = APICInterrupt {
        vector: 0,
        delivery: APICDeliveryMode::APIC_DELIVERY_INIT,
        destination: APICDestinationMode::APIC_DESTINATION_PHYSICAL,
        level: APICLevel::APIC_LEVEL_ASSERT,
        trigger: APICTriggerMode::APIC_TRIGGER_LEVEL,
        dest_shorthand: APICDestinationShorthand::APIC_DESTINATION_SHORTHAND_NONE,
        timer_mode: APICTimerMode::APIC_TIMER_NA,
        masked: false,
    };
    assert_eq!(APIC::interrupt_entry(&init_assert), 0xC500);

    let timer_periodic = APICInterrupt {
        vector: 32,
        delivery: APICDeliveryMode::APIC_DELIVERY_NA,
        destination: APICDestinationMode::APIC_DESTINATION_NA,
        level: APICLevel::APIC_LEVEL_NA,
        trigger: APICTriggerMode::APIC_TRIGGER_NA,
        dest_shorthand: APICDestinationShorthand::APIC_DESTINATION_SHORTHAND_NA,
        timer_mode: APICTimerMode::APIC_TIMER_PERIODIC,
        masked: false,
    };
    assert_eq!(APIC::interrupt_entry(&timer_periodic), 0x20020);
}

#[test]
fn field_encoders_exact_values() {
    assert_eq!(APIC::delivery(APICDeliveryMode::APIC_DELIVERY_NMI), 0x400);
    assert_eq!(APIC::delivery(APICDeliveryMode::APIC_DELIVERY_NA), 0);
    assert_eq!(
        APIC::destination(APICDestinationMode::APIC_DESTINATION_LOGICAL),
        0x800
    );
    assert_eq!(APIC::level(APICLevel::APIC_LEVEL_ASSERT), 0x4000);
    assert_eq!(APIC::trigger(APICTriggerMode::APIC_TRIGGER_LEVEL), 0x8000);
    assert_eq!(APIC::masked(true), 0x10000);
    assert_eq!(APIC::masked(false), 0);
    assert_eq!(APIC::timer_mode(APICTimerMode::APIC_TIMER_TSCDEADLINE), 0x40000);
    assert_eq!(
        APIC::destination_shorthand(
            APICDestinationShorthand::APIC_DESTINATION_SHORTHAND_ALL_EXC_SELF
        ),
        0xC0000
    );
}

#[test]
fn encoding_roundtrip_command() {
    // an interrupt-command shaped value: every field concrete, timer n/a
    let command = APICInterrupt {
        vector: 0x55,
        delivery: APICDeliveryMode::APIC_DELIVERY_INIT,
        destination: APICDestinationMode::APIC_DESTINATION_LOGICAL,
        level: APICLevel::APIC_LEVEL_ASSERT,
        trigger: APICTriggerMode::APIC_TRIGGER_LEVEL,
        dest_shorthand: APICDestinationShorthand::APIC_DESTINATION_SHORTHAND_ALL_INC_SELF,
        timer_mode: APICTimerMode::APIC_TIMER_NA,
        masked: true,
    };
    let value = APIC::interrupt_entry(&command);
    assert_eq!(decode_vector(value), 0x55);
    assert_eq!(decode_delivery(value), APICDeliveryMode::APIC_DELIVERY_INIT);
    assert_eq!(
        decode_destination(value),
        APICDestinationMode::APIC_DESTINATION_LOGICAL
    );
    assert_eq!(decode_level(value), APICLevel::APIC_LEVEL_ASSERT);
    assert_eq!(decode_trigger(value), APICTriggerMode::APIC_TRIGGER_LEVEL);
    assert_eq!(decode_masked(value), true);
    assert_eq!(
        decode_shorthand(value),
        APICDestinationShorthand::APIC_DESTINATION_SHORTHAND_ALL_INC_SELF
    );
}

#[test]
fn encoding_roundtrip_lvt_entry() {
    // an LVT-entry shaped value: timer mode concrete, shorthand n/a
    let entry = APICInterrupt {
        vector: 32,
        delivery: APICDeliveryMode::APIC_DELIVERY_FIXED,
        destination: APICDestinationMode::APIC_DESTINATION_PHYSICAL,
        level: APICLevel::APIC_LEVEL_DEASSERT,
        trigger: APICTriggerMode::APIC_TRIGGER_EDGE,
        dest_shorthand: APICDestinationShorthand::APIC_DESTINATION_SHORTHAND_NA,
        timer_mode: APICTimerMode::APIC_TIMER_PERIODIC,
        masked: false,
    };
    let value = APIC::interrupt_entry(&entry);
    assert_eq!(decode_vector(value), 32);
    assert_eq!(decode_delivery(value), APICDeliveryMode::APIC_DELIVERY_FIXED);
    assert_eq!(
        decode_destination(value),
        APICDestinationMode::APIC_DESTINATION_PHYSICAL
    );
    assert_eq!(decode_level(value), APICLevel::APIC_LEVEL_DEASSERT);
    assert_eq!(decode_trigger(value), APICTriggerMode::APIC_TRIGGER_EDGE);
    assert_eq!(decode_masked(value), false);
    assert_eq!(decode_timer_mode(value), APICTimerMode::APIC_TIMER_PERIODIC);
}

#[test]
fn enable_is_idempotent() {
    let mut apic = APIC::new();
    apic.enable();
    let base_once = apic.read_base_msr();
    let writes_once = apic.log_len();
    apic.enable();
    assert_eq!(apic.read_base_msr(), base_once);
    assert_eq!(apic.log_len(), writes_once);
    assert_eq!(base_once, 0xFEE00800);
}

#[test]
fn disable_is_idempotent_and_clears_enable_bit() {
    let mut apic = APIC::new();
    apic.enable();
    apic.disable();
    let base_once = apic.read_base_msr();
    apic.disable();
    assert_eq!(apic.read_base_msr(), base_once);
    assert_eq!(base_once, 0xFEE00000);
    assert_eq!(base_once & 0x800, 0);
}

#[test]
fn reset_baseline() {
    let mut apic = APIC::new();
    apic.enable();
    apic.reset();

    // all six LVT slots report masked with vector zero
    for offset in [LVT_TR, LVT_CMCI, LVT_LINT0, LVT_LINT1, LVT_ER, LVT_PMCR] {
        let value = apic.read32(offset).unwrap();
        assert!(decode_masked(value));
        assert_eq!(decode_vector(value), 0);
        assert_eq!(value, 0x10000);
    }
    // task priority accepts everything
    assert_eq!(apic.read32(TPR), Some(0));
    // spurious register: the fixed vector with the software-enable bit
    let sip = apic.read32(SIP).unwrap();
    assert_eq!(sip & 0xff, 39);
    assert_ne!(sip & 0x100, 0);
    assert_eq!(sip, 0x127);
    // flat destination format, fixed non-zero logical identifier
    assert_eq!(apic.read32(DFR), Some(0xFFFFFFFF));
    assert_eq!(apic.read32(LDR), Some(1));
    // the controller itself ends up disabled and acknowledged
    assert_eq!(apic.read_base_msr(), 0xFEE00000);
    assert_eq!(apic.read32(EOI), Some(0));
    // thirteen writes: format, logical id, six slots, error twice, priority,
    // spurious, end-of-interrupt
    assert_eq!(apic.log_len(), 13);
}

#[test]
fn reset_is_safe_from_uninitialized_state() {
    let mut apic = APIC::new();
    apic.reset();
    assert_eq!(apic.read32(LVT_TR), Some(0x10000));
    assert_eq!(apic.log_len(), 13);
}

#[test]
fn wake_ap_write_order() {
    let mut apic = APIC::new();
    apic.wake_ap(7, 0x8000);

    let expected: [(usize, u32); 8] = [
        (ICR1, 0x07000000),
        (ICR0, 0xC500),  // INIT, assert, level-triggered
        (ICR1, 0x07000000),
        (ICR0, 0x8500),  // INIT, deassert, level-triggered
        (ICR1, 0x07000000),
        (ICR0, 0x0608),  // startup, vector 0x08, edge-triggered
        (ICR1, 0x07000000),
        (ICR0, 0x0608),  // startup sent a second time
    ];
    assert_eq!(apic.log_len(), 8);
    for (i, (offset, value)) in expected.iter().enumerate() {
        let w = apic.log_entry(i);
        assert_eq!(w.offset, *offset);
        assert_eq!(w.value, *value);
    }
}

#[test]
fn self_ipi_writes_destination_then_command() {
    let mut apic = APIC::new();
    apic.self_ipi(0x42);
    assert_eq!(apic.log_len(), 2);
    assert_eq!(apic.log_entry(0).offset, ICR1);
    assert_eq!(apic.log_entry(0).value, 0);
    assert_eq!(apic.log_entry(1).offset, ICR0);
    // fixed delivery, physical destination, self shorthand, the vector
    assert_eq!(apic.log_entry(1).value, 0x40042);
}

#[test]
fn timer_modes() {
    let mut apic = APIC::new();

    apic.set_timer_periodic_mode();
    apic.set_timer_period(0xffffff);
    assert_eq!(apic.read32(LVT_TR), Some(0x20020));
    assert_eq!(apic.read32(TIMER_ICR), Some(0xffffff));

    apic.set_timer_oneshot_mode();
    apic.set_timer_oneshot(0x5000);
    assert_eq!(apic.read32(LVT_TR), Some(0x20));
    assert_eq!(apic.read32(TIMER_ICR), Some(0x5000));

    apic.set_timer_tscdeadline_mode();
    apic.set_timer_tscdeadline(0x123456789abcdef0);
    assert_eq!(apic.read32(LVT_TR), Some(0x40020));
    assert_eq!(apic.read_tsc_deadline_msr(), 0x123456789abcdef0);
}

#[test]
fn start_programs_default_periodic_timer() {
    let mut apic = APIC::new();
    apic.start();
    assert_eq!(apic.read32(LVT_TR), Some(0x20020));
    assert_eq!(apic.read32(TIMER_ICR), Some(0xffffff));
    let timer_entry = apic.read32(LVT_TR).unwrap();
    assert!(!decode_masked(timer_entry));
    assert_eq!(decode_vector(timer_entry), 32);
    assert_eq!(decode_timer_mode(timer_entry), APICTimerMode::APIC_TIMER_PERIODIC);
}

#[test]
fn id_reads_high_byte() {
    let mut apic = APIC::new();
    apic.write32(0x20, 0xAB123456);
    assert_eq!(apic.id(), 0xAB);
}

#[test]
fn eoi_and_spurious() {
    let mut apic = APIC::new();
    apic.eoi(0);
    assert_eq!(apic.log_len(), 1);
    assert_eq!(apic.log_entry(0).offset, EOI);
    assert_eq!(apic.log_entry(0).value, 0);
    assert_eq!(apic.spurious_irq(), 39);
}

#[test]
fn mask_and_unmask_are_noops_here() {
    let mut apic = APIC::new();
    apic.mask(5);
    apic.unmask(5);
    assert_eq!(apic.log_len(), 0);
    assert_eq!(apic.read_base_msr(), 0);
}

#[test]
fn register_bank_offsets() {
    assert_eq!(APIC::isr_of(0), 0x100);
    assert_eq!(APIC::isr_of(2), 0x120);
    assert_eq!(APIC::tmr_of(3), 0x1B0);
    assert_eq!(APIC::irr_of(7), 0x270);
}
