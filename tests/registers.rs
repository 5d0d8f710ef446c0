use georgix::io::Port;
use georgix::machine::{Machine, SimulatedMachine};
use georgix::registers::{CR2, CS, SS, TR};
use georgix::vga_registers::{
    crtc_base, cursor_start_register, disable_cursor, miscellaneous_output_register,
};

#[test]
fn segment_registers_read_back() {
    let mut machine = SimulatedMachine::new(0, 0x08, 0x10);
    CS::set(&mut machine, 0x18);
    SS::set(&mut machine, 0x20);
    assert_eq!(0x18, CS::get(&machine));
    assert_eq!(0x20, SS::get(&machine));
    SS::invalidate(&mut machine);
    assert_eq!(0, SS::get(&machine));
    TR::set(&mut machine, 0x28);
    assert_eq!(0x28, machine.task_register());
}

#[test]
fn the_fault_address_is_read_canonical() {
    let mut machine = SimulatedMachine::new(0, 0x08, 0x10);
    machine.preset_fault_address(0x8000_dead_b000);
    assert_eq!(0xffff_8000_dead_b000, CR2::read(&mut machine).unwrap().as_u64());
    machine.preset_fault_address(0x00c0_0000_0000_0000);
    assert!(CR2::read(&mut machine).is_err());
}

#[test]
fn crtc_ports_follow_the_colour_mode() {
    assert_eq!(0x3D0, crtc_base(true));
    assert_eq!(0x3B0, crtc_base(false));
}

#[test]
fn disabling_the_cursor_on_initialize() {
    let mut machine = SimulatedMachine::new(0, 0x08, 0x10);
    machine.write_port(0x3CC, 0x01);
    disable_cursor(&mut machine);
    let mut register = cursor_start_register(&mut machine);
    assert!(register.get(&mut machine, 5));
    let writes = machine.port_writes();
    assert_eq!((0x3D4, 0x0A), writes[1]);
    assert_eq!((0x3D5, 0x20), writes[3]);
    let misc = miscellaneous_output_register();
    assert!(misc.get(&mut machine, 0));
}

#[test]
fn ports_write_in_the_width_of_the_value() {
    let mut machine = SimulatedMachine::new(0, 0x08, 0x10);
    let mut port = Port::new(0xF4);
    port.write(&mut machine, 0x11u32);
    port.write(&mut machine, 0x22u8);
    assert_eq!(&vec![(0xF4u16, 0x11u32)], machine.port_dword_writes());
    assert_eq!(&vec![(0xF4u16, 0x22u8)], machine.port_writes());
    let dword: u32 = port.read(&mut machine);
    let byte: u8 = port.read(&mut machine);
    assert_eq!(0x11, dword);
    assert_eq!(0x22, byte);
}
