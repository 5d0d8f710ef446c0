//! The processor's segment, task and control registers, by name.

use vstd::prelude::*;
use crate::addresses::{InvalidVirtualAddress, VirtualAddress, canonical, is_canonical_candidate};
use crate::machine::{Machine, MachineState};

verus! {

/// The code-segment register.
pub struct CS;

impl CS {
    /// The selector the register holds.
    pub fn get<M: Machine>(machine: &M) -> (r: u16)
        ensures
            r == machine.state().code_segment,
    {
        machine.code_segment()
    }

    /// Reloads the register with `selector`.
    pub fn set<M: Machine>(machine: &mut M, selector: u16)
        ensures
            final(machine).state() == (MachineState { code_segment: selector, ..old(machine).state() }),
    {
        machine.set_code_segment(selector)
    }
}

/// The stack-segment register.
pub struct SS;

impl SS {
    /// The selector the register holds.
    pub fn get<M: Machine>(machine: &M) -> (r: u16)
        ensures
            r == machine.state().stack_segment,
    {
        machine.stack_segment()
    }

    /// Loads the register with `selector`.
    pub fn set<M: Machine>(machine: &mut M, selector: u16)
        ensures
            final(machine).state() == (MachineState { stack_segment: selector, ..old(machine).state() }),
    {
        machine.set_stack_segment(selector)
    }

    /// Loads the register with the null selector.
    pub fn invalidate<M: Machine>(machine: &mut M)
        ensures
            final(machine).state() == (MachineState { stack_segment: 0, ..old(machine).state() }),
    {
        SS::set(machine, 0)
    }
}

/// The task register.
pub struct TR;

impl TR {
    /// Loads the register with `selector`.
    pub fn set<M: Machine>(machine: &mut M, selector: u16)
        ensures
            final(machine).state() == (MachineState { task_register: selector, ..old(machine).state() }),
    {
        machine.load_task_register(selector)
    }
}

/// The control register that holds the address of the last page fault.
pub struct CR2;

impl CR2 {
    /// The faulting address, or an error naming it when it cannot be made
    /// canonical.
    pub fn read<M: Machine>(machine: &mut M) -> (r: Result<VirtualAddress, InvalidVirtualAddress>)
        ensures
            final(machine).state() == old(machine).state(),
            r matches Ok(v) ==> exists|a: u64| is_canonical_candidate(a) && v@ == canonical(a),
    {
        let value = machine.read_fault_address();
        VirtualAddress::try_new(value)
    }
}

} // verus!
