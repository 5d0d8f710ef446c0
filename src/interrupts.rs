//! Enabling and disabling maskable interrupts, and running code with them held off.

use vstd::prelude::*;
use crate::apic::{APIC, BASE_ADDRESS_MASK, initialization_writes};
use crate::idt::{IDT_SIZE, InterruptDescriptorTable};
use crate::ioapic::{IOAPIC, Redirection, masked};
use crate::machine::{INTERRUPT_ENABLE_FLAG, Machine, MachineState, Pointer};
use crate::pic::{ALL_LINES_MASKED, ChainedPIC};
use crate::vectors::{Vector, vector_number};

verus! {

/// Lets the processor take maskable interrupts.
pub fn enable<M: Machine>(machine: &mut M)
    ensures
        final(machine).state() == (MachineState { interrupts_enabled: true, ..old(machine).state() }),
{
    machine.enable_interrupts();
}

/// Holds maskable interrupts off.
pub fn disable<M: Machine>(machine: &mut M)
    ensures
        final(machine).state() == (MachineState { interrupts_enabled: false, ..old(machine).state() }),
{
    machine.disable_interrupts();
}

/// Whether the processor takes maskable interrupts: the interrupt-enable bit
/// of its flags register.
pub fn enabled<M: Machine>(machine: &M) -> (r: bool)
    ensures
        r == machine.state().interrupts_enabled,
{
    machine.read_flags() & INTERRUPT_ENABLE_FLAG != 0
}

/// Runs `body` with maskable interrupts held off, then puts the interrupt flag
/// back as it was on entry, whatever `body` did to it. The body gets the
/// machine with interrupts disabled and hands it back with its result.
pub fn suppress<M: Machine, R, F: FnOnce(M) -> (M, R)>(machine: M, body: F) -> (r: (M, R))
    requires
        forall|m: M|
            #[trigger] m.state() == (MachineState { interrupts_enabled: false, ..machine.state() })
                ==> body.requires((m,)),
    ensures
        r.0.state().interrupts_enabled == machine.state().interrupts_enabled,
        exists|inner: M, after: M|
            {
                &&& inner.state() == (MachineState {
                    interrupts_enabled: false,
                    ..machine.state()
                })
                &&& #[trigger] body.ensures((inner,), (after, r.1))
                &&& r.0.state() == (MachineState {
                    interrupts_enabled: machine.state().interrupts_enabled,
                    ..after.state()
                })
            },
{
    let ghost entry = machine.state();
    let mut current = machine;
    let was_enabled = enabled(&current);
    if was_enabled {
        disable(&mut current);
    }
    assert(current.state() == (MachineState { interrupts_enabled: false, ..entry }));
    let ghost inner = current;
    let (mut after, result) = body(current);
    let ghost after_body = after;
    if was_enabled {
        enable(&mut after);
    } else if enabled(&after) {
        disable(&mut after);
    }
    let r = (after, result);
    assert(exists|i: M, a: M|
        {
            &&& i.state() == (MachineState { interrupts_enabled: false, ..machine.state() })
            &&& #[trigger] body.ensures((i,), (a, r.1))
            &&& r.0.state() == (MachineState {
                interrupts_enabled: machine.state().interrupts_enabled,
                ..a.state()
            })
        }) by {
        assert(body.ensures((inner,), (after_body, r.1)));
    }
    r
}

/// The interrupt controllers the kernel programs.
pub struct Controllers {
    pub pics: ChainedPIC,
    pub apic: APIC,
    pub ioapic: IOAPIC,
}

/// The keyboard's line at the I/O APIC.
pub const KEYBOARD_LINE: u8 = 1;

/// Loads `table` (placed at `table_address`), switches the legacy controllers
/// off, starts the local APIC and its timer, masks every I/O APIC entry and
/// then routes the keyboard line to the keyboard vector.
pub fn initialize<M: Machine>(
    machine: &mut M,
    table: &InterruptDescriptorTable,
    table_address: u64,
    controllers: &mut Controllers,
)
    requires
        old(controllers).apic.base_spec() <= BASE_ADDRESS_MASK,
        old(controllers).ioapic.wf(),
    ensures
        final(machine).state() == (MachineState {
            interrupt_table: Some(Pointer { limit: (IDT_SIZE - 1) as u16, base: table_address }),
            port_writes: old(machine).state().port_writes.push(
                (old(controllers).pics.parent_spec(), ALL_LINES_MASKED),
            ).push((old(controllers).pics.child_spec(), ALL_LINES_MASKED)),
            memory_writes: final(machine).state().memory_writes,
            ..old(machine).state()
        }),
        (old(machine).state().memory_writes + initialization_writes(
            old(controllers).apic.base_spec(),
        )).is_prefix_of(final(machine).state().memory_writes),
        final(controllers).apic == old(controllers).apic,
        final(controllers).ioapic.wf(),
        final(controllers).ioapic.redirections().len() >= 1,
        forall|i: int|
            0 <= i < final(controllers).ioapic.redirections().len() && i != KEYBOARD_LINE ==> masked(
                #[trigger] final(controllers).ioapic.redirections()[i].lower,
            ),
        final(controllers).ioapic.redirections().len() > KEYBOARD_LINE
            ==> final(controllers).ioapic.redirections()[KEYBOARD_LINE as int] == (Redirection {
            lower: vector_number(Vector::Keyboard) as u32,
            upper: 0,
        }),
{
    table.load(machine, table_address);
    controllers.pics.disable(machine);
    let ghost before_apic = machine.state().memory_writes;
    controllers.apic.initialize(machine);
    let ghost after_apic = machine.state().memory_writes;
    controllers.ioapic.initialize(machine);
    assert(controllers.ioapic.redirections().len() > KEYBOARD_LINE ==> masked(
        controllers.ioapic.redirections()[KEYBOARD_LINE as int].lower,
    ));
    controllers.ioapic.enable(machine, KEYBOARD_LINE, Vector::Keyboard);
    assert(after_apic.is_prefix_of(machine.state().memory_writes));
}

} // verus!
