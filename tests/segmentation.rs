use georgix::addresses::VirtualAddress;
use georgix::machine::{Machine, SimulatedMachine};
use georgix::segmentation::{
    build, initialize, Descriptor, GlobalDescriptorTable, PrivilegeLevel, Selector,
    TaskStateSegment, KERNEL_CODE_SEGMENT,
};

fn boot() -> SimulatedMachine {
    let mut machine = SimulatedMachine::new(0, 0x08, 0x10);
    let (table, selectors) = build(0xffff_8000_0020_0000);
    initialize(&mut machine, &table, &selectors, 0xffff_8000_0030_0000);
    machine
}

#[test]
fn clearing_ss() {
    let machine = boot();
    let ss = machine.stack_segment();
    assert_eq!(0, ss);
}

#[test]
fn invalidating_the_stack_segment_selector_on_boot() {
    assert_eq!(0, boot().stack_segment())
}

#[test]
fn initialize_loads_code_and_task_selectors() {
    let machine = boot();
    assert_eq!(0x08, machine.code_segment());
    assert_eq!(0x10, machine.task_register());
    let pointer = machine.loaded_global_table().unwrap();
    assert_eq!(63, pointer.limit);
    assert_eq!(0xffff_8000_0030_0000, pointer.base);
}

#[test]
fn selector_round_trip() {
    for index in [0u16, 1, 2, 100, 8191] {
        for (level, number) in [
            (PrivilegeLevel::Ring0, 0),
            (PrivilegeLevel::Ring1, 1),
            (PrivilegeLevel::Ring2, 2),
            (PrivilegeLevel::Ring3, 3),
        ] {
            let selector = Selector::new(index, level);
            assert_eq!(index, selector.index());
            assert_eq!(level, selector.requested_privilege_level());
            assert_eq!(index << 3 | number, selector.value());
        }
    }
}

#[test]
fn adding_descriptors_fills_slots_in_order() {
    let mut table = GlobalDescriptorTable::new();
    let code = table.add(Descriptor::kernel_code_segment());
    assert_eq!(1, code.index());
    assert_eq!(PrivilegeLevel::Ring0, code.requested_privilege_level());
    assert_eq!(KERNEL_CODE_SEGMENT, table.entry(1));
    assert_eq!(0x0020_9800_0000_0000, KERNEL_CODE_SEGMENT);

    let user = table.add(Descriptor::UserSegment(KERNEL_CODE_SEGMENT | (3 << 45)));
    assert_eq!(2, user.index());
    assert_eq!(PrivilegeLevel::Ring3, user.requested_privilege_level());

    let tss = table.add(Descriptor::task_state_segment(0x1234_5678_9abc_def0));
    assert_eq!(3, tss.index());
    assert_eq!(PrivilegeLevel::Ring0, tss.requested_privilege_level());
    assert_eq!(0x1234_5678, table.entry(4));
    assert_eq!(0, table.entry(5));
}

#[test]
fn task_state_segment_descriptor_layout() {
    match Descriptor::task_state_segment(0x1234_5678_9abc_def0) {
        Descriptor::SystemSegment(low, high) => {
            assert_eq!(0x9a00_89bc_def0_0067, low);
            assert_eq!(0x1234_5678, high);
        }
        Descriptor::UserSegment(_) => panic!("expected a system segment"),
    }
}

#[test]
fn double_fault_stack_is_the_top_of_its_buffer() {
    let tss = TaskStateSegment::with_double_fault_stack(VirtualAddress::new(0x10_0000));
    assert_eq!(0x10_1000, tss.interrupt_stack_table[0].as_u64());
    for i in 1..7 {
        assert_eq!(0, tss.interrupt_stack_table[i].as_u64());
    }
    let empty = TaskStateSegment::new();
    assert_eq!(0, empty.interrupt_stack_table[0].as_u64());
}
