//! The legacy pair of 8259 interrupt controllers, which the kernel only ever
//! switches off so that no line reaches the processor through them.

use vstd::prelude::*;
use crate::io::Port;
use crate::machine::{Machine, MachineState};

verus! {

/// The mask that blocks all eight lines of one controller.
pub const ALL_LINES_MASKED: u8 = 0xFF;

/// One controller: a command port and a data port.
pub struct PIC {
    command_port: Port,
    data_port: Port,
}

impl PIC {
    /// The controller at `command_port` and `data_port`.
    pub fn new(command_port: u16, data_port: u16) -> (r: PIC)
        ensures
            r.command_port_spec() == command_port,
            r.data_port_spec() == data_port,
    {
        PIC { command_port: Port::new(command_port), data_port: Port::new(data_port) }
    }

    /// The number of the command port.
    pub closed spec fn command_port_spec(&self) -> u16 {
        self.command_port@
    }

    /// The number of the data port.
    pub closed spec fn data_port_spec(&self) -> u16 {
        self.data_port@
    }

    /// The number of the data port.
    pub fn data_port(&self) -> (r: u16)
        ensures
            r == self.data_port_spec(),
    {
        self.data_port.number()
    }

    /// Masks all lines: writes all ones to the data port.
    pub fn disable<M: Machine>(&mut self, machine: &mut M)
        ensures
            final(machine).state() == (MachineState {
                port_writes: old(machine).state().port_writes.push(
                    (old(self).data_port_spec(), ALL_LINES_MASKED),
                ),
                ..old(machine).state()
            }),
            final(self).data_port_spec() == old(self).data_port_spec(),
            final(self).command_port_spec() == old(self).command_port_spec(),
    {
        self.data_port.write(machine, ALL_LINES_MASKED);
    }
}

/// The parent controller and the child controller wired to one of its lines.
pub struct ChainedPIC {
    parent: PIC,
    child: PIC,
}

impl ChainedPIC {
    /// The pair made of `parent` and `child`.
    pub fn new(parent: PIC, child: PIC) -> (r: ChainedPIC)
        ensures
            r.parent_spec() == parent.data_port_spec(),
            r.child_spec() == child.data_port_spec(),
    {
        ChainedPIC { parent, child }
    }

    /// The data port of the parent controller.
    pub closed spec fn parent_spec(&self) -> u16 {
        self.parent.data_port_spec()
    }

    /// The data port of the child controller.
    pub closed spec fn child_spec(&self) -> u16 {
        self.child.data_port_spec()
    }

    /// Masks every line of both controllers, the parent first.
    pub fn disable<M: Machine>(&mut self, machine: &mut M)
        ensures
            final(machine).state() == (MachineState {
                port_writes: old(machine).state().port_writes.push(
                    (old(self).parent_spec(), ALL_LINES_MASKED),
                ).push((old(self).child_spec(), ALL_LINES_MASKED)),
                ..old(machine).state()
            }),
            final(self).parent_spec() == old(self).parent_spec(),
            final(self).child_spec() == old(self).child_spec(),
    {
        self.parent.disable(machine);
        self.child.disable(machine);
    }
}

/// The standard pair of a PC: the parent at ports 0x20 and 0x21, the child at
/// 0xA0 and 0xA1.
pub fn legacy_controllers() -> (r: ChainedPIC)
    ensures
        r.parent_spec() == 0x21,
        r.child_spec() == 0xA1,
{
    ChainedPIC::new(PIC::new(0x20, 0x21), PIC::new(0xA0, 0xA1))
}

} // verus!
