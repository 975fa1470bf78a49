use libos::apic::{APIC, EOI};
use libos::idt::{
    dispatch, init_idt, DispatchOutcome, DispatchTable, HandlerKind,
};
use libos::pic::Pic;

#[test]
fn table_is_built_then_loaded() {
    let mut table = DispatchTable::new();
    assert!(!table.loaded());
    table.load();
    assert!(table.loaded());
    let loaded = init_idt();
    assert!(loaded.loaded());
}

#[test]
fn fixed_vectors_are_installed() {
    let table = init_idt();
    assert_eq!(table.entry_at(32).handler, HandlerKind::Timer);
    assert_eq!(table.entry_at(35).handler, HandlerKind::Ipi);
    assert_eq!(table.entry_at(39).handler, HandlerKind::Spurious);
    assert_eq!(table.entry_at(3).handler, HandlerKind::Breakpoint);
    assert_eq!(table.entry_at(8).handler, HandlerKind::DoubleFault);
    assert_eq!(table.entry_at(13).handler, HandlerKind::GeneralProtection);
    assert_eq!(table.entry_at(14).handler, HandlerKind::PageFault);
    assert_eq!(table.entry_at(18).handler, HandlerKind::MachineCheck);
    assert_eq!(table.entry_at(0).handler, HandlerKind::Generic);
    assert!(table.entry_at(32).present);
    assert!(!table.entry_at(77).present);
    assert_eq!(table.entry_at(32).dpl, 0);
    assert_eq!(table.entry_at(32).ist_index, 0);
    assert!(!table.entry_at(32).trap_gate);
}

#[test]
fn timer_vector_acknowledges_before_returning() {
    let table = init_idt();
    let mut apic = APIC::new();
    let mut pic = Pic::new(0x01, 0x02);

    let outcome = dispatch(&table, 32, 0, &mut apic, &mut pic);

    assert_eq!(outcome, DispatchOutcome::Returned);
    // the handler acknowledged at the active controller before returning
    assert_eq!(apic.log_len(), 1);
    assert_eq!(apic.log_entry(0).offset, EOI);
    assert_eq!(apic.log_entry(0).value, 0);
    // and at the legacy controller
    assert_eq!(pic.acks.len(), 1);
    assert_eq!(pic.acks[0], 0);
}

#[test]
fn spurious_vector_returns_without_halting() {
    let table = init_idt();
    let mut apic = APIC::new();
    let mut pic = Pic::new(0, 0);

    let outcome = dispatch(&table, 39, 0, &mut apic, &mut pic);

    assert_eq!(outcome, DispatchOutcome::Returned);
    // ignored: no acknowledgment, no register write
    assert_eq!(apic.log_len(), 0);
    assert_eq!(pic.acks.len(), 0);
}

#[test]
fn ipi_vector_acknowledges_at_active_controller_only() {
    let table = init_idt();
    let mut apic = APIC::new();
    let mut pic = Pic::new(0, 0);

    let outcome = dispatch(&table, 35, 0, &mut apic, &mut pic);

    assert_eq!(outcome, DispatchOutcome::Returned);
    assert_eq!(apic.log_len(), 1);
    assert_eq!(apic.log_entry(0).offset, EOI);
    assert_eq!(pic.acks.len(), 0);
}

#[test]
fn breakpoint_returns_and_faults_halt() {
    let table = init_idt();
    let mut apic = APIC::new();
    let mut pic = Pic::new(0, 0);

    assert_eq!(dispatch(&table, 3, 0, &mut apic, &mut pic), DispatchOutcome::Returned);
    assert_eq!(dispatch(&table, 8, 0x5, &mut apic, &mut pic), DispatchOutcome::Halted);
    assert_eq!(dispatch(&table, 13, 0, &mut apic, &mut pic), DispatchOutcome::Halted);
    assert_eq!(dispatch(&table, 14, 0x2, &mut apic, &mut pic), DispatchOutcome::Halted);
    assert_eq!(dispatch(&table, 18, 0, &mut apic, &mut pic), DispatchOutcome::Halted);
    assert_eq!(dispatch(&table, 0, 0, &mut apic, &mut pic), DispatchOutcome::Halted);
    // a vector with no installed handler halts as well
    assert_eq!(dispatch(&table, 77, 0, &mut apic, &mut pic), DispatchOutcome::Halted);
    // none of these touched a controller
    assert_eq!(apic.log_len(), 0);
    assert_eq!(pic.acks.len(), 0);
}

#[test]
fn pic_boundary_reports_and_acknowledges() {
    let mut pic = Pic::new(0x11, 0x22);
    assert_eq!(pic.isr(), 0x11);
    assert_eq!(pic.irr(), 0x22);
    pic.eoi(0);
    pic.eoi(7);
    assert_eq!(pic.acks, vec![0, 7]);
    assert_eq!(pic.isr(), 0x11);
}
