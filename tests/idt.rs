use georgix::idt::{
    kernel_table, kind_of, Entry, EntryOptions, HandlerAddresses, HandlerKind,
    InterruptDescriptorTable,
};
use georgix::machine::{Machine, SimulatedMachine};
use georgix::segmentation::DOUBLE_FAULT_STACK_INDEX;

#[test]
fn sizing() {
    assert_eq!(Entry::new(0x08).to_bytes().len(), 16);
    assert_eq!(InterruptDescriptorTable::new(0x08).to_bytes().len(), 256 * 16);
}

#[test]
fn a_new_table_has_every_entry_absent() {
    let table = InterruptDescriptorTable::new(0x08);
    for v in 0..=255u8 {
        let e = table.entry(v);
        assert!(!e.is_present());
        assert_eq!(0, e.handler_address());
        assert_eq!(0b1110_0000_0000, e.options().bits());
    }
}

#[test]
fn installing_a_handler_splits_its_address() {
    let mut table = InterruptDescriptorTable::new(0x08);
    table.handle_with(3, HandlerKind::Handler, 0x1234_5678_9abc_def0);
    let e = table.entry(3);
    assert!(e.is_present());
    assert_eq!(0x1234_5678_9abc_def0, e.handler_address());
    assert_eq!(
        vec![0xf0, 0xde, 0x08, 0x00, 0x00, 0x8e, 0xbc, 0x9a, 0x78, 0x56, 0x34, 0x12, 0, 0, 0, 0],
        e.to_bytes()
    );
    let bytes = table.to_bytes();
    assert_eq!(e.to_bytes(), bytes[3 * 16..4 * 16].to_vec());
}

#[test]
fn slot_kinds_follow_the_architecture() {
    assert_eq!(Some(HandlerKind::Handler), kind_of(0));
    assert_eq!(Some(HandlerKind::DivergingHandlerWithErrorCode), kind_of(8));
    assert_eq!(None, kind_of(9));
    assert_eq!(Some(HandlerKind::HandlerWithErrorCode), kind_of(13));
    assert_eq!(Some(HandlerKind::PageFaultHandler), kind_of(14));
    assert_eq!(None, kind_of(15));
    assert_eq!(Some(HandlerKind::DivergingHandler), kind_of(18));
    assert_eq!(None, kind_of(22));
    assert_eq!(Some(HandlerKind::HandlerWithErrorCode), kind_of(30));
    assert_eq!(None, kind_of(31));
    assert_eq!(Some(HandlerKind::Handler), kind_of(32));
    assert_eq!(Some(HandlerKind::Handler), kind_of(255));
}

#[test]
fn options_set_present_and_stack() {
    let mut options = EntryOptions::minimal();
    options.present(true);
    assert_eq!(0x8e00, options.bits());
    options.on_stack_with_index(0);
    assert_eq!(0x8e01, options.bits());
    options.present(false);
    assert_eq!(0x0e01, options.bits());
}

#[test]
fn the_kernel_table_routes_its_vectors() {
    let handlers = HandlerAddresses {
        breakpoint: 0x1000,
        double_fault: 0x2000,
        general_protection_fault: 0x3000,
        page_fault: 0x4000,
        timer: 0x5000,
        keyboard: 0x6000,
    };
    let table = kernel_table(0x08, handlers);
    assert_eq!(0x1000, table.entry(3).handler_address());
    assert_eq!(0x2000, table.entry(8).handler_address());
    assert_eq!(DOUBLE_FAULT_STACK_INDEX + 1, table.entry(8).options().bits() & 7);
    assert_eq!(0x3000, table.entry(13).handler_address());
    assert_eq!(0x4000, table.entry(14).handler_address());
    assert_eq!(0x5000, table.entry(32).handler_address());
    assert_eq!(0x6000, table.entry(33).handler_address());
    assert!(!table.entry(34).is_present());
    assert!(!table.entry(0).is_present());

    let mut machine = SimulatedMachine::new(0, 0x08, 0x10);
    table.load(&mut machine, 0xffff_8000_0010_0000);
    let pointer = machine.loaded_interrupt_table().unwrap();
    assert_eq!(4095, pointer.limit);
    assert_eq!(0xffff_8000_0010_0000, pointer.base);
    let _ = machine.code_segment();
}
