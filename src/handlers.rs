//! What the kernel does on each vector it handles: which faults are fatal, and
//! which interrupts must be acknowledged before the handler returns.

use vstd::prelude::*;
use crate::addresses::VirtualAddress;
use crate::apic::{APIC, BASE_ADDRESS_MASK, END_OF_INTERRUPT};
use crate::machine::{Machine, MachineState};

verus! {

/// What the processor pushes on every interrupt or exception.
#[derive(Clone, Copy, Debug)]
pub struct InterruptStackFrame {
    pub instruction_pointer: VirtualAddress,
    pub code_segment: u64,
    pub flags: u64,
    pub stack_pointer: VirtualAddress,
    pub stack_segment: u64,
}

/// How a handler ends.
#[derive(Clone, Copy, Debug, PartialEq, Eq, Structural)]
pub enum Outcome {
    /// The interrupted code resumes.
    Resume,
    /// The kernel reports the fault and halts for good.
    Halt,
}

/// A breakpoint is reported and execution resumes.
pub fn breakpoint() -> (r: Outcome)
    ensures
        r == Outcome::Resume,
{
    Outcome::Resume
}

/// A double fault is fatal.
pub fn double_fault() -> (r: Outcome)
    ensures
        r == Outcome::Halt,
{
    Outcome::Halt
}

/// A general-protection fault is fatal: nothing repairs segments.
pub fn general_protection_fault() -> (r: Outcome)
    ensures
        r == Outcome::Halt,
{
    Outcome::Halt
}

/// A page fault is fatal: nothing repairs page tables.
pub fn page_fault() -> (r: Outcome)
    ensures
        r == Outcome::Halt,
{
    Outcome::Halt
}

/// The timer tick: acknowledged exactly once at the local APIC, then resumed.
pub fn timer<M: Machine>(apic: &APIC, machine: &mut M) -> (r: Outcome)
    requires
        apic.base_spec() <= BASE_ADDRESS_MASK,
    ensures
        r == Outcome::Resume,
        final(machine).state() == (MachineState {
            memory_writes: old(machine).state().memory_writes.push(
                ((apic.base_spec() + END_OF_INTERRUPT) as u64, 0u32),
            ),
            ..old(machine).state()
        }),
{
    apic.acknowledge(machine);
    Outcome::Resume
}

/// A keyboard interrupt: acknowledged exactly once at the local APIC (the I/O
/// APIC needs no acknowledgment), then resumed.
pub fn keyboard<M: Machine>(apic: &APIC, machine: &mut M) -> (r: Outcome)
    requires
        apic.base_spec() <= BASE_ADDRESS_MASK,
    ensures
        r == Outcome::Resume,
        final(machine).state() == (MachineState {
            memory_writes: old(machine).state().memory_writes.push(
                ((apic.base_spec() + END_OF_INTERRUPT) as u64, 0u32),
            ),
            ..old(machine).state()
        }),
{
    apic.acknowledge(machine);
    Outcome::Resume
}

} // verus!
