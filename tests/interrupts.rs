use georgix::apic::APIC;
use georgix::handlers::{self, Outcome};
use georgix::interrupts::{enabled, suppress};
use georgix::ioapic::{redirection_count, IOAPIC};
use georgix::machine::{Machine, SimulatedMachine};
use georgix::pic::legacy_controllers;
use georgix::vectors::Vector;

const IOAPIC_WINDOW: u64 = 0xFEC0_0010;

fn machine_with_ioapic(entries: u32) -> SimulatedMachine {
    let mut machine = SimulatedMachine::new(0, 0x08, 0x10);
    machine.preset_memory(IOAPIC_WINDOW, 0x0011 | ((entries - 1) << 16));
    machine
}

#[test]
fn enabling_keyboard_interrupts() {
    let mut machine = machine_with_ioapic(24);
    let mut ioapic = IOAPIC::get();
    ioapic.initialize(&mut machine);
    ioapic.enable(&mut machine, 1, Vector::Keyboard);
    let redirection = ioapic.redirection_at(1).unwrap();
    assert!(redirection.is_enabled());
    assert_eq!(Vector::Keyboard.number(), redirection.vector());
}

#[test]
fn every_redirection_is_masked_after_initialize() {
    let mut machine = machine_with_ioapic(24);
    let mut ioapic = IOAPIC::get();
    ioapic.initialize(&mut machine);
    assert_eq!(24, ioapic.redirection_count());
    for i in 0..24u8 {
        let r = ioapic.redirection_at(i).unwrap();
        assert!(!r.is_enabled());
        assert!(r.is_disabled());
        assert_eq!(0, r.upper);
    }
    assert!(ioapic.redirection_at(24).is_none());
}

#[test]
fn enabling_past_the_table_changes_nothing() {
    let mut machine = machine_with_ioapic(2);
    let mut ioapic = IOAPIC::get();
    ioapic.initialize(&mut machine);
    let writes = machine.memory_writes().len();
    ioapic.enable(&mut machine, 5, Vector::Keyboard);
    assert_eq!(writes, machine.memory_writes().len());
    assert!(ioapic.redirection_at(1).unwrap().is_disabled());
}

#[test]
fn version_register_gives_the_entry_count() {
    assert_eq!(24, redirection_count(0x0017_0011));
    assert_eq!(1, redirection_count(0));
    assert_eq!(256, redirection_count(0x00ff_0000));
}

#[test]
fn suppress_restores_an_enabled_flag() {
    let machine = SimulatedMachine::new(0x202, 0x08, 0x10);
    let (machine, seen) = suppress(machine, |mut m: SimulatedMachine| {
        let inside = enabled(&m);
        m.disable_interrupts();
        (m, inside)
    });
    assert!(!seen);
    assert!(enabled(&machine));
}

#[test]
fn suppress_keeps_a_disabled_flag_disabled() {
    let machine = SimulatedMachine::new(0x2, 0x08, 0x10);
    let (machine, value) = suppress(machine, |mut m: SimulatedMachine| {
        m.enable_interrupts();
        (m, 7)
    });
    assert_eq!(7, value);
    assert!(!enabled(&machine));
}

#[test]
fn nested_suppress_restores_the_outer_state() {
    let machine = SimulatedMachine::new(0x200, 0x08, 0x10);
    let (machine, inner) = suppress(machine, |m: SimulatedMachine| {
        let (m, ()) = suppress(m, |m: SimulatedMachine| (m, ()));
        let inner = enabled(&m);
        (m, inner)
    });
    assert!(!inner);
    assert!(enabled(&machine));
}

#[test]
fn legacy_controllers_are_masked() {
    let mut machine = SimulatedMachine::new(0, 0x08, 0x10);
    let mut pics = legacy_controllers();
    pics.disable(&mut machine);
    assert_eq!(&vec![(0x21u16, 0xFFu8), (0xA1, 0xFF)], machine.port_writes());
    assert_eq!(0xFF, machine.read_port(0x21));
    assert_eq!(0xFF, machine.read_port(0xA1));
}

#[test]
fn local_apic_initialization_writes() {
    let mut machine = SimulatedMachine::new(0, 0x08, 0x10);
    machine.preset_msr(0x1B, 0xFEE0_0900);
    let apic = APIC::get(&mut machine);
    assert_eq!(0xFEE0_0000, apic.base());
    apic.initialize(&mut machine);
    assert_eq!(
        &vec![
            (0xFEE0_00F0u64, 0x1FFu32),
            (0xFEE0_0320, 0x2_0020),
            (0xFEE0_0380, 10_000_000),
            (0xFEE0_03E0, 0xB),
            (0xFEE0_00B0, 0),
            (0xFEE0_0080, 0),
        ],
        machine.memory_writes()
    );
}

#[test]
fn timer_and_keyboard_acknowledge_once() {
    let mut machine = SimulatedMachine::new(0, 0x08, 0x10);
    let apic = APIC::at(0xFEE0_0000);
    assert_eq!(Outcome::Resume, handlers::timer(&apic, &mut machine));
    assert_eq!(&vec![(0xFEE0_00B0u64, 0u32)], machine.memory_writes());
    assert_eq!(Outcome::Resume, handlers::keyboard(&apic, &mut machine));
    assert_eq!(2, machine.memory_writes().len());
}

#[test]
fn fatal_faults_halt() {
    assert_eq!(Outcome::Resume, handlers::breakpoint());
    assert_eq!(Outcome::Halt, handlers::double_fault());
    assert_eq!(Outcome::Halt, handlers::general_protection_fault());
    assert_eq!(Outcome::Halt, handlers::page_fault());
}

#[test]
fn vectors_are_distinct_and_above_exceptions() {
    assert_eq!(32, Vector::Timer.number());
    assert_eq!(33, Vector::Keyboard.number());
    assert_ne!(Vector::Timer.number(), Vector::Keyboard.number());
}
