//! The VGA registers the console touches: the miscellaneous output register,
//! which says where the CRT controller's ports are, and the CRT controller's
//! indexed registers, among them the cursor-start register.

use vstd::prelude::*;
use crate::io::Port;
use crate::machine::{Machine, MachineState};

verus! {

/// `value` with bit `bit` set.
pub open spec fn with_bit(value: u8, bit: u8) -> u8 {
    value | (1u8 << bit)
}

/// A register read through one port and written through another.
pub struct ExternalRegister {
    reading_port: Port,
    writing_port: Port,
}

impl ExternalRegister {
    /// The register read at `read` and written at `write`.
    pub fn new(read: u16, write: u16) -> (r: ExternalRegister)
        ensures
            r.reading_port_spec() == read,
            r.writing_port_spec() == write,
    {
        ExternalRegister { reading_port: Port::new(read), writing_port: Port::new(write) }
    }

    /// The port the register is read at.
    pub closed spec fn reading_port_spec(&self) -> u16 {
        self.reading_port@
    }

    /// The port the register is written at.
    pub closed spec fn writing_port_spec(&self) -> u16 {
        self.writing_port@
    }

    /// Reads the register.
    pub fn read<M: Machine>(&self, machine: &mut M) -> (r: u8)
        ensures
            final(machine).state() == old(machine).state(),
    {
        self.reading_port.read(machine)
    }

    /// Writes the register.
    pub fn write<M: Machine>(&mut self, machine: &mut M, value: u8)
        ensures
            final(machine).state() == (MachineState {
                port_writes: old(machine).state().port_writes.push((old(self).writing_port_spec(), value)),
                ..old(machine).state()
            }),
            final(self).writing_port_spec() == old(self).writing_port_spec(),
            final(self).reading_port_spec() == old(self).reading_port_spec(),
    {
        self.writing_port.write(machine, value)
    }

    /// Whether bit `index` of the register is set.
    pub fn get<M: Machine>(&self, machine: &mut M, index: u8) -> (r: bool)
        requires
            index < 8,
        ensures
            final(machine).state() == old(machine).state(),
    {
        self.read(machine) & (1u8 << index) != 0
    }

    /// Sets bit `index` of the register, keeping the others as read.
    pub fn set<M: Machine>(&mut self, machine: &mut M, index: u8)
        requires
            index < 8,
        ensures
            exists|value: u8|
                final(machine).state() == (MachineState {
                    port_writes: old(machine).state().port_writes.push(
                        (old(self).writing_port_spec(), #[trigger] with_bit(value, index)),
                    ),
                    ..old(machine).state()
                }),
    {
        let value = self.read(machine);
        self.write(machine, value | (1u8 << index));
        assert(with_bit(value, index) == (value | (1u8 << index)));
    }
}

/// The miscellaneous output register: read at 0x3CC, written at 0x3C2.
pub fn miscellaneous_output_register() -> (r: ExternalRegister)
    ensures
        r.reading_port_spec() == 0x3CC,
        r.writing_port_spec() == 0x3C2,
{
    ExternalRegister::new(0x3CC, 0x3C2)
}

/// The base of the CRT controller's ports: 0x3D0 when bit 0 of the
/// miscellaneous output register (colour mode) is set, else 0x3B0.
pub fn crtc_base(color_mode: bool) -> (r: u16)
    ensures
        r == if color_mode {
            0x3D0u16
        } else {
            0x3B0u16
        },
{
    if color_mode {
        0x03D0
    } else {
        0x03B0
    }
}

/// An index port and a data port through which a bank of registers is reached.
pub struct PortPair {
    address_port: Port,
    data_port: Port,
}

impl PortPair {
    /// The pair at `address` and `data`.
    pub fn new(address: u16, data: u16) -> (r: PortPair)
        ensures
            r.address_spec() == address,
            r.data_spec() == data,
    {
        PortPair { address_port: Port::new(address), data_port: Port::new(data) }
    }

    /// The index port.
    pub closed spec fn address_spec(&self) -> u16 {
        self.address_port@
    }

    /// The data port.
    pub closed spec fn data_spec(&self) -> u16 {
        self.data_port@
    }

    /// Selects register `index` and reads it.
    pub fn read_from<M: Machine>(&mut self, machine: &mut M, index: u8) -> (r: u8)
        ensures
            final(machine).state() == (MachineState {
                port_writes: old(machine).state().port_writes.push((old(self).address_spec(), index)),
                ..old(machine).state()
            }),
            final(self).address_spec() == old(self).address_spec(),
            final(self).data_spec() == old(self).data_spec(),
    {
        self.address_port.write(machine, index);
        self.data_port.read(machine)
    }

    /// Selects register `index` and writes `value` to it.
    pub fn write_to<M: Machine>(&mut self, machine: &mut M, index: u8, value: u8)
        ensures
            final(machine).state() == (MachineState {
                port_writes: old(machine).state().port_writes.push((old(self).address_spec(), index)).push(
                    (old(self).data_spec(), value),
                ),
                ..old(machine).state()
            }),
            final(self).address_spec() == old(self).address_spec(),
            final(self).data_spec() == old(self).data_spec(),
    {
        self.address_port.write(machine, index);
        self.data_port.write(machine, value);
    }
}

/// The index of the cursor-start register; its bit 5 hides the cursor.
pub const CURSOR_START: u8 = 0x0A;

/// The bit of the cursor-start register that hides the cursor.
pub const CURSOR_DISABLE_BIT: u8 = 5;

/// One indexed register of the CRT controller.
pub struct Register {
    ports: PortPair,
    index: u8,
}

impl Register {
    /// Register `index` behind `ports`.
    pub fn new(ports: PortPair, index: u8) -> (r: Register)
        ensures
            r.address_spec() == ports.address_spec(),
            r.data_spec() == ports.data_spec(),
            r.index_spec() == index,
    {
        Register { ports, index }
    }

    /// The index port.
    pub closed spec fn address_spec(&self) -> u16 {
        self.ports.address_spec()
    }

    /// The data port.
    pub closed spec fn data_spec(&self) -> u16 {
        self.ports.data_spec()
    }

    /// The register's index.
    pub closed spec fn index_spec(&self) -> u8 {
        self.index
    }

    /// Reads the register.
    pub fn read<M: Machine>(&mut self, machine: &mut M) -> (r: u8)
        ensures
            final(machine).state() == (MachineState {
                port_writes: old(machine).state().port_writes.push(
                    (old(self).address_spec(), old(self).index_spec()),
                ),
                ..old(machine).state()
            }),
            final(self).address_spec() == old(self).address_spec(),
            final(self).data_spec() == old(self).data_spec(),
            final(self).index_spec() == old(self).index_spec(),
    {
        self.ports.read_from(machine, self.index)
    }

    /// Writes the register.
    pub fn write<M: Machine>(&mut self, machine: &mut M, value: u8)
        ensures
            final(machine).state() == (MachineState {
                port_writes: old(machine).state().port_writes.push(
                    (old(self).address_spec(), old(self).index_spec()),
                ).push((old(self).data_spec(), value)),
                ..old(machine).state()
            }),
            final(self).address_spec() == old(self).address_spec(),
            final(self).data_spec() == old(self).data_spec(),
            final(self).index_spec() == old(self).index_spec(),
    {
        self.ports.write_to(machine, self.index, value)
    }

    /// Whether bit `bit` of the register is set.
    pub fn get<M: Machine>(&mut self, machine: &mut M, bit: u8) -> (r: bool)
        requires
            bit < 8,
        ensures
            final(machine).state() == (MachineState {
                port_writes: old(machine).state().port_writes.push(
                    (old(self).address_spec(), old(self).index_spec()),
                ),
                ..old(machine).state()
            }),
    {
        self.read(machine) & (1u8 << bit) != 0
    }

    /// Sets bit `bit` of the register, keeping the others as read.
    pub fn set<M: Machine>(&mut self, machine: &mut M, bit: u8)
        requires
            bit < 8,
        ensures
            exists|value: u8|
                final(machine).state() == (MachineState {
                    port_writes: old(machine).state().port_writes.push(
                        (old(self).address_spec(), old(self).index_spec()),
                    ).push((old(self).address_spec(), old(self).index_spec())).push(
                        (old(self).data_spec(), #[trigger] with_bit(value, bit)),
                    ),
                    ..old(machine).state()
                }),
            final(self).address_spec() == old(self).address_spec(),
            final(self).data_spec() == old(self).data_spec(),
            final(self).index_spec() == old(self).index_spec(),
    {
        let value = self.read(machine);
        self.write(machine, value | (1u8 << bit));
        assert(with_bit(value, bit) == (value | (1u8 << bit)));
    }
}

/// The cursor-start register, at the CRT controller ports that the
/// miscellaneous output register selects.
pub fn cursor_start_register<M: Machine>(machine: &mut M) -> (r: Register)
    ensures
        final(machine).state() == old(machine).state(),
        r.index_spec() == CURSOR_START,
        r.address_spec() == 0x3D4 || r.address_spec() == 0x3B4,
        r.data_spec() == r.address_spec() + 1,
{
    let misc = miscellaneous_output_register();
    let base = crtc_base(misc.get(machine, 0));
    Register::new(PortPair::new(base + 4, base + 5), CURSOR_START)
}

/// Whether `address` is an index port of the CRT controller.
pub open spec fn crtc_index_port(address: u16) -> bool {
    address == 0x3D4 || address == 0x3B4
}

/// Hides the text-mode cursor: sets bit 5 of the cursor-start register.
pub fn disable_cursor<M: Machine>(machine: &mut M)
    ensures
        exists|address: u16|
            #[trigger] crtc_index_port(address) && exists|value: u8|
                final(machine).state() == (MachineState {
                    port_writes: old(machine).state().port_writes.push((address, CURSOR_START)).push(
                        (address, CURSOR_START),
                    ).push(((address + 1) as u16, #[trigger] with_bit(value, CURSOR_DISABLE_BIT))),
                    ..old(machine).state()
                }),
{
    let mut register = cursor_start_register(machine);
    let ghost address = register.address_spec();
    register.set(machine, CURSOR_DISABLE_BIT);
    assert(crtc_index_port(address));
}

} // verus!
