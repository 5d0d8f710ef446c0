//! I/O ports.

use vstd::prelude::*;
use crate::machine::{Machine, MachineState};

verus! {

/// One I/O port, by number.
#[derive(Clone, Copy, Debug, PartialEq, Eq, Structural)]
pub struct Port {
    number: u16,
}

impl View for Port {
    type V = u16;

    closed spec fn view(&self) -> u16 {
        self.number
    }
}

impl Port {
    /// The port numbered `number`.
    pub fn new(number: u16) -> (r: Port)
        ensures
            r@ == number,
    {
        Port { number }
    }

    /// The port's number.
    pub fn number(&self) -> (r: u16)
        ensures
            r == self@,
    {
        self.number
    }

    /// Reads a value of type `T` from the port.
    pub fn read<T: Input, M: Machine>(&self, machine: &mut M) -> (r: T)
        ensures
            final(machine).state() == old(machine).state(),
    {
        T::read_from(self, machine)
    }

    /// Writes `data` to the port, in the width of its type.
    pub fn write<T: Output, M: Machine>(&mut self, machine: &mut M, data: T)
        ensures
            final(machine).state() == data.written_to(old(self)@, old(machine).state()),
            *final(self) == *old(self),
    {
        data.write_to(self, machine)
    }
}

/// A type that can be read from a port.
pub trait Input: Sized {
    /// Reads a value from `port`.
    fn read_from<M: Machine>(port: &Port, machine: &mut M) -> (r: Self)
        ensures
            final(machine).state() == old(machine).state(),
    ;
}

/// A type that can be written to a port.
pub trait Output {
    /// The machine after this value is written to port `port` of `before`.
    spec fn written_to(&self, port: u16, before: MachineState) -> MachineState;

    /// Writes the value to `port`.
    fn write_to<M: Machine>(&self, port: &Port, machine: &mut M)
        ensures
            final(machine).state() == self.written_to(port@, old(machine).state()),
    ;
}

impl Input for u8 {
    fn read_from<M: Machine>(port: &Port, machine: &mut M) -> (r: u8) {
        machine.read_port(port.number)
    }
}

impl Output for u8 {
    open spec fn written_to(&self, port: u16, before: MachineState) -> MachineState {
        MachineState { port_writes: before.port_writes.push((port, *self)), ..before }
    }

    fn write_to<M: Machine>(&self, port: &Port, machine: &mut M) {
        machine.write_port(port.number, *self)
    }
}

impl Input for u32 {
    fn read_from<M: Machine>(port: &Port, machine: &mut M) -> (r: u32) {
        machine.read_port_dword(port.number)
    }
}

impl Output for u32 {
    open spec fn written_to(&self, port: u16, before: MachineState) -> MachineState {
        MachineState { port_dword_writes: before.port_dword_writes.push((port, *self)), ..before }
    }

    fn write_to<M: Machine>(&self, port: &Port, machine: &mut M) {
        machine.write_port_dword(port.number, *self)
    }
}

} // verus!
