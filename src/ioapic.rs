//! The I/O APIC, which routes device lines to interrupt vectors through its
//! redirection table.

use vstd::prelude::*;
use crate::machine::{Machine, MachineState};
use crate::vectors::{Vector, vector_number};

verus! {

/// The I/O APIC's physical address, fixed on the platforms the kernel runs on.
pub const IOAPIC_BASE: u64 = 0xFEC0_0000;

/// Offset of the window register, through which the selected register is read
/// and written; the select register is at offset 0.
pub const WINDOW: u64 = 0x10;

/// The version register, whose bits 16 to 23 hold the number of redirection
/// entries less one.
pub const VERSION_REGISTER: u32 = 0x01;

/// The register of the low word of redirection entry 0; entry `i` has its low
/// word at `REDIRECTION_BASE + 2 * i` and its high word just after.
pub const REDIRECTION_BASE: u32 = 0x10;

/// The mask bit of a redirection entry's low word.
pub const MASK_BIT: u32 = 0x1_0000;

/// Whether a low word has its mask bit set.
pub open spec fn masked(lower: u32) -> bool {
    lower & MASK_BIT != 0
}

/// The number of redirection entries that a version register value announces.
pub open spec fn entry_count(version: u32) -> nat {
    (((version >> 16u32) & 0xff) + 1) as nat
}

/// Whether every entry of `redirections` is masked and has no destination.
pub open spec fn all_masked(redirections: Seq<Redirection>) -> bool {
    forall|i: int|
        0 <= i < redirections.len() ==> masked(#[trigger] redirections[i].lower)
            && redirections[i].upper == 0
}

/// One redirection entry: the low word holds the vector, delivery flags and
/// the mask bit; the high word holds the destination.
#[derive(Clone, Copy, Debug, PartialEq, Eq, Structural)]
pub struct Redirection {
    pub lower: u32,
    pub upper: u32,
}

impl Redirection {
    /// Whether the entry delivers its line: its mask bit is clear.
    pub fn is_enabled(&self) -> (r: bool)
        ensures
            r == !masked(self.lower),
    {
        !self.is_disabled()
    }

    /// Whether the entry's line is masked.
    pub fn is_disabled(&self) -> (r: bool)
        ensures
            r == masked(self.lower),
    {
        self.lower & MASK_BIT != 0
    }

    /// The vector the entry delivers on.
    pub fn vector(&self) -> (r: u8)
        ensures
            r == self.lower as u8,
    {
        self.lower as u8
    }
}

/// The number of redirection entries that the version register value
/// `version` announces.
pub fn redirection_count(version: u32) -> (r: u16)
    ensures
        r == entry_count(version),
        1 <= r <= 256,
{
    let field = (version >> 16u32) & 0xff;
    assert((version >> 16u32) & 0xff <= 0xff) by (bit_vector);
    (field + 1) as u16
}

/// The I/O APIC and what the kernel has written to its redirection table.
pub struct IOAPIC {
    base: u64,
    redirections: Vec<Redirection>,
}

impl IOAPIC {
    /// The redirection entries, as last written.
    pub closed spec fn redirections(&self) -> Seq<Redirection> {
        self.redirections@
    }

    /// The address of the register block.
    pub closed spec fn base_spec(&self) -> u64 {
        self.base
    }

    /// At most 256 entries, at an address where both registers can be reached.
    pub open spec fn wf(&self) -> bool {
        &&& self.redirections().len() <= 256
        &&& self.base_spec() == IOAPIC_BASE
    }

    /// The controller at its fixed address, before its table size is known.
    pub fn get() -> (r: IOAPIC)
        ensures
            r.wf(),
            r.redirections().len() == 0,
    {
        IOAPIC { base: IOAPIC_BASE, redirections: Vec::new() }
    }

    fn read<M: Machine>(&self, machine: &mut M, index: u32) -> (r: u32)
        requires
            self.wf(),
        ensures
            final(machine).state() == (MachineState {
                memory_writes: old(machine).state().memory_writes.push((self.base_spec(), index)),
                ..old(machine).state()
            }),
    {
        machine.write_memory(self.base, index);
        machine.read_memory(self.base + WINDOW)
    }

    fn write<M: Machine>(&self, machine: &mut M, index: u32, data: u32)
        requires
            self.wf(),
        ensures
            final(machine).state() == (MachineState {
                memory_writes: old(machine).state().memory_writes.push((self.base_spec(), index)).push(
                    ((self.base_spec() + WINDOW) as u64, data),
                ),
                ..old(machine).state()
            }),
    {
        machine.write_memory(self.base, index);
        machine.write_memory(self.base + WINDOW, data);
    }

    /// Reads the table size from the version register, then masks every
    /// entry (keeping the other bits of its low word) and clears its
    /// destination.
    pub fn initialize<M: Machine>(&mut self, machine: &mut M)
        requires
            old(self).wf(),
        ensures
            final(self).wf(),
            1 <= final(self).redirections().len() <= 256,
            all_masked(final(self).redirections()),
            final(machine).state() == (MachineState {
                memory_writes: final(machine).state().memory_writes,
                ..old(machine).state()
            }),
            old(machine).state().memory_writes.is_prefix_of(final(machine).state().memory_writes),
    {
        let version = self.read(machine, VERSION_REGISTER);
        let ghost selected = machine.state().memory_writes;
        self.initialize_with(machine, version);
        assert(old(machine).state().memory_writes.is_prefix_of(selected));
    }

    /// Masks the `entry_count(version)` entries of a controller whose version
    /// register reads `version`.
    pub fn initialize_with<M: Machine>(&mut self, machine: &mut M, version: u32)
        requires
            old(self).wf(),
        ensures
            final(self).wf(),
            final(self).redirections().len() == entry_count(version),
            1 <= final(self).redirections().len() <= 256,
            all_masked(final(self).redirections()),
            final(machine).state() == (MachineState {
                memory_writes: final(machine).state().memory_writes,
                ..old(machine).state()
            }),
            old(machine).state().memory_writes.is_prefix_of(final(machine).state().memory_writes),
    {
        let count = redirection_count(version);
        let mut redirections: Vec<Redirection> = Vec::new();
        let mut i: u16 = 0;
        while i < count
            invariant
                self.wf(),
                i <= count <= 256,
                count == entry_count(version),
                redirections@.len() == i,
                forall|j: int|
                    0 <= j < i ==> masked(#[trigger] redirections@[j].lower) && redirections@[j].upper
                        == 0,
                machine.state() == (MachineState {
                    memory_writes: machine.state().memory_writes,
                    ..old(machine).state()
                }),
                old(machine).state().memory_writes.is_prefix_of(machine.state().memory_writes),
            decreases count - i,
        {
            let lower_index = REDIRECTION_BASE + 2 * (i as u32);
            let ghost start = machine.state().memory_writes;
            let current = self.read(machine, lower_index);
            let lower = current | MASK_BIT;
            assert((current | 0x1_0000u32) & 0x1_0000u32 != 0) by (bit_vector);
            self.write(machine, lower_index, lower);
            self.write(machine, lower_index + 1, 0);
            redirections.push(Redirection { lower, upper: 0 });
            assert(start.is_prefix_of(machine.state().memory_writes));
            i = i + 1;
        }
        self.redirections = redirections;
        assert(all_masked(self.redirections()));
    }

    /// Routes line `index` to `vector`: writes the vector into the entry's low
    /// word, which clears its mask bit. A line past the table is left alone.
    pub fn enable<M: Machine>(&mut self, machine: &mut M, index: u8, vector: Vector)
        requires
            old(self).wf(),
        ensures
            final(self).wf(),
            index < old(self).redirections().len() ==> {
                &&& final(self).redirections() == old(self).redirections().update(
                    index as int,
                    Redirection {
                        lower: vector_number(vector) as u32,
                        upper: old(self).redirections()[index as int].upper,
                    },
                )
                &&& !masked(final(self).redirections()[index as int].lower)
                &&& final(self).redirections()[index as int].lower as u8 == vector_number(vector)
                &&& final(machine).state() == (MachineState {
                    memory_writes: old(machine).state().memory_writes.push(
                        (IOAPIC_BASE, (REDIRECTION_BASE + 2 * index) as u32),
                    ).push(((IOAPIC_BASE + WINDOW) as u64, vector_number(vector) as u32)),
                    ..old(machine).state()
                })
            },
            index >= old(self).redirections().len() ==> final(self).redirections()
                == old(self).redirections() && final(machine).state() == old(machine).state(),
    {
        if (index as usize) < self.redirections.len() {
            let lower = vector.number() as u32;
            self.write(machine, REDIRECTION_BASE + 2 * (index as u32), lower);
            let upper = self.redirections[index as usize].upper;
            self.redirections.set(index as usize, Redirection { lower, upper });
            assert((32u32 & 0x1_0000u32) == 0 && (33u32 & 0x1_0000u32) == 0) by (bit_vector);
        }
    }

    /// The number of redirection entries.
    pub fn redirection_count(&self) -> (r: usize)
        ensures
            r == self.redirections().len(),
    {
        self.redirections.len()
    }

    /// Entry `index` of the table, if the table has one.
    pub fn redirection_at(&self, index: u8) -> (r: Option<Redirection>)
        ensures
            index < self.redirections().len() ==> r == Some(self.redirections()[index as int]),
            index >= self.redirections().len() ==> r is None,
    {
        if (index as usize) < self.redirections.len() {
            Some(self.redirections[index as usize])
        } else {
            None
        }
    }
}

} // verus!
