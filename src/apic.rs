//! The local APIC: the periodic timer and the end-of-interrupt protocol.

use vstd::prelude::*;
use crate::machine::{Machine, MachineState};
use crate::vectors::{Vector, vector_number};

verus! {

/// The model-specific register that holds the local APIC's base address.
pub const IA32_APIC_BASE_MSR: u32 = 0x1B;

/// The bits of that register that hold the page-aligned base address.
pub const BASE_ADDRESS_MASK: u64 = 0xF_FFFF_F000;

/// Register offsets from the base address.
pub const TASK_PRIORITY: u64 = 0x80;
/// The end-of-interrupt register (write only).
pub const END_OF_INTERRUPT: u64 = 0xB0;
/// The spurious-interrupt-vector register.
pub const SPURIOUS_INTERRUPT_VECTOR: u64 = 0xF0;
/// The timer entry of the local vector table.
pub const TIMER_VECTOR: u64 = 0x320;
/// The timer's initial count.
pub const TIMER_INITIAL_COUNT: u64 = 0x380;
/// The timer's divide configuration.
pub const TIMER_DIVIDE_CONFIGURATION: u64 = 0x3E0;

/// The spurious-interrupt-vector value: the software-enable bit (8) with
/// vector 0xFF.
pub const SPURIOUS_VALUE: u32 = 0x1FF;
/// The timer-mode bit of a local vector table entry that makes it periodic.
pub const PERIODIC: u32 = 0x2_0000;
/// The timer's initial count, in bus clock units divided as configured.
pub const INITIAL_COUNT: u32 = 10_000_000;
/// The divide configuration: divide by one.
pub const DIVIDE_BY_ONE: u32 = 0xB;

/// The local APIC's register block at its base address.
pub struct APIC {
    base: u64,
}

/// The register writes of `initialize` for a block at `base`, in order.
pub open spec fn initialization_writes(base: u64) -> Seq<(u64, u32)> {
    seq![
        ((base + SPURIOUS_INTERRUPT_VECTOR) as u64, SPURIOUS_VALUE),
        ((base + TIMER_VECTOR) as u64, PERIODIC | vector_number(Vector::Timer) as u32),
        ((base + TIMER_INITIAL_COUNT) as u64, INITIAL_COUNT),
        ((base + TIMER_DIVIDE_CONFIGURATION) as u64, DIVIDE_BY_ONE),
        ((base + END_OF_INTERRUPT) as u64, 0u32),
        ((base + TASK_PRIORITY) as u64, 0u32),
    ]
}

impl APIC {
    /// The base address of the register block.
    pub closed spec fn base_spec(&self) -> u64 {
        self.base
    }

    /// The block whose base-address register reads `base_register`: the
    /// register's page-aligned address bits.
    pub fn at(base_register: u64) -> (r: APIC)
        ensures
            r.base_spec() == base_register & BASE_ADDRESS_MASK,
            r.base_spec() <= BASE_ADDRESS_MASK,
    {
        let base = base_register & BASE_ADDRESS_MASK;
        assert(base_register & 0xF_FFFF_F000u64 <= 0xF_FFFF_F000u64) by (bit_vector);
        APIC { base }
    }

    /// Finds the block from the base-address model-specific register.
    pub fn get<M: Machine>(machine: &mut M) -> (r: APIC)
        ensures
            final(machine).state() == old(machine).state(),
            r.base_spec() <= BASE_ADDRESS_MASK,
    {
        let value = machine.read_msr(IA32_APIC_BASE_MSR);
        APIC::at(value)
    }

    /// The base address of the register block.
    pub fn base(&self) -> (r: u64)
        ensures
            r == self.base_spec(),
    {
        self.base
    }

    /// Enables the controller with the spurious vector, starts the periodic
    /// timer on the timer vector, acknowledges anything left pending, and lets
    /// every priority class through.
    pub fn initialize<M: Machine>(&self, machine: &mut M)
        requires
            self.base_spec() <= BASE_ADDRESS_MASK,
        ensures
            final(machine).state() == (MachineState {
                memory_writes: old(machine).state().memory_writes + initialization_writes(self.base_spec()),
                ..old(machine).state()
            }),
    {
        let timer = PERIODIC | Vector::Timer.number() as u32;
        machine.write_memory(self.base + SPURIOUS_INTERRUPT_VECTOR, SPURIOUS_VALUE);
        machine.write_memory(self.base + TIMER_VECTOR, timer);
        machine.write_memory(self.base + TIMER_INITIAL_COUNT, INITIAL_COUNT);
        machine.write_memory(self.base + TIMER_DIVIDE_CONFIGURATION, DIVIDE_BY_ONE);
        machine.write_memory(self.base + END_OF_INTERRUPT, 0);
        machine.write_memory(self.base + TASK_PRIORITY, 0);
        assert(machine.state().memory_writes =~= old(machine).state().memory_writes + initialization_writes(self.base_spec()));
    }

    /// Signals the end of the interrupt being handled: one write of zero to
    /// the end-of-interrupt register.
    pub fn acknowledge<M: Machine>(&self, machine: &mut M)
        requires
            self.base_spec() <= BASE_ADDRESS_MASK,
        ensures
            final(machine).state() == (MachineState {
                memory_writes: old(machine).state().memory_writes.push(
                    ((self.base_spec() + END_OF_INTERRUPT) as u64, 0u32),
                ),
                ..old(machine).state()
            }),
    {
        machine.write_memory(self.base + END_OF_INTERRUPT, 0);
    }
}

} // verus!
