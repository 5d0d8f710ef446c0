//! The boot-time initialization of the whole interrupt path.

use vstd::prelude::*;
use crate::apic::BASE_ADDRESS_MASK;
use crate::idt::{IDT_SIZE, InterruptDescriptorTable};
use crate::interrupts::{Controllers, enable};
use crate::machine::{Machine, Pointer};
use crate::segmentation::{GDT_SLOTS, GlobalDescriptorTable, Selectors};

verus! {

/// Loads the descriptor table and the segment and task registers, then the
/// interrupt table and the controllers, and lets interrupts in last.
pub fn initialize<M: Machine>(
    machine: &mut M,
    segments: &GlobalDescriptorTable,
    selectors: &Selectors,
    segments_address: u64,
    table: &InterruptDescriptorTable,
    table_address: u64,
    controllers: &mut Controllers,
)
    requires
        old(controllers).apic.base_spec() <= BASE_ADDRESS_MASK,
        old(controllers).ioapic.wf(),
    ensures
        final(machine).state().global_table == Some(
            Pointer { limit: (GDT_SLOTS * 8 - 1) as u16, base: segments_address },
        ),
        final(machine).state().code_segment == selectors.code_selector@,
        final(machine).state().stack_segment == 0,
        final(machine).state().task_register == selectors.task_state_segment_selector@,
        final(machine).state().interrupt_table == Some(
            Pointer { limit: (IDT_SIZE - 1) as u16, base: table_address },
        ),
        final(machine).state().interrupts_enabled,
{
    crate::segmentation::initialize(machine, segments, selectors, segments_address);
    crate::interrupts::initialize(machine, table, table_address, controllers);
    enable(machine);
}

} // verus!
