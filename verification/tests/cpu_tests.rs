use libos::cpu::{CPU, INTERRUPT_FLAG};

#[test]
fn irq_save_clears_interrupt_flag() {
    let mut cpu = CPU { rflags: 0x246 };
    let backup = cpu.irq_save();
    assert_eq!(backup.bits, 0x246);
    assert_eq!(cpu.rflags, 0x246 & !INTERRUPT_FLAG);
    assert_eq!(cpu.rflags & INTERRUPT_FLAG, 0);
}

#[test]
fn irq_save_then_restore_is_identity() {
    let mut cpu = CPU { rflags: 0x246 };
    let backup = cpu.irq_save();
    cpu.irq_restore(backup);
    assert_eq!(cpu.rflags, 0x246);
}

#[test]
fn irq_save_with_interrupts_disabled_changes_nothing() {
    let mut cpu = CPU { rflags: 0x046 };
    let backup = cpu.irq_save();
    assert_eq!(cpu.rflags, 0x046);
    cpu.irq_restore(backup);
    assert_eq!(cpu.rflags, 0x046);
}

#[test]
fn irq_enable_and_disable_are_unconditional() {
    let mut cpu = CPU { rflags: 0x046 };
    cpu.irq_enable();
    assert_eq!(cpu.rflags, 0x246);
    cpu.irq_enable();
    assert_eq!(cpu.rflags, 0x246);
    cpu.irq_disable();
    assert_eq!(cpu.rflags, 0x046);
    cpu.irq_disable();
    assert_eq!(cpu.rflags, 0x046);
}
