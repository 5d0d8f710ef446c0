//! The global descriptor table, segment selectors and the task-state segment
//! that gives the double-fault handler a stack of its own.

use vstd::prelude::*;
use crate::addresses::{VirtualAddress, canonical, is_canonical_candidate};
use crate::machine::{Machine, MachineState, Pointer};
use crate::registers::{CS, SS, TR};

verus! {

/// The privilege rings a selector can request.
#[derive(Clone, Copy, Debug, PartialEq, Eq, Structural)]
pub enum PrivilegeLevel {
    Ring0,
    Ring1,
    Ring2,
    Ring3,
}

/// The number of a ring.
pub open spec fn level_number(level: PrivilegeLevel) -> u16 {
    match level {
        PrivilegeLevel::Ring0 => 0,
        PrivilegeLevel::Ring1 => 1,
        PrivilegeLevel::Ring2 => 2,
        PrivilegeLevel::Ring3 => 3,
    }
}

impl PrivilegeLevel {
    /// The ring numbered `value`.
    pub fn from_number(value: u16) -> (r: PrivilegeLevel)
        requires
            value <= 3,
        ensures
            level_number(r) == value,
    {
        if value == 0 {
            PrivilegeLevel::Ring0
        } else if value == 1 {
            PrivilegeLevel::Ring1
        } else if value == 2 {
            PrivilegeLevel::Ring2
        } else {
            PrivilegeLevel::Ring3
        }
    }

    /// The number of this ring.
    pub fn number(self) -> (r: u16)
        ensures
            r == level_number(self),
    {
        match self {
            PrivilegeLevel::Ring0 => 0,
            PrivilegeLevel::Ring1 => 1,
            PrivilegeLevel::Ring2 => 2,
            PrivilegeLevel::Ring3 => 3,
        }
    }
}

/// The largest descriptor index a selector can hold.
pub const MAX_SELECTOR_INDEX: u16 = 8191;

/// The selector value for a descriptor index and a requested privilege level:
/// the index in bits 3 to 15, the level in bits 0 and 1.
pub open spec fn selector_bits(index: u16, level: u16) -> u16 {
    ((index << 3u16) | level) as u16
}

/// The descriptor index that a selector value holds.
pub open spec fn selector_index(bits: u16) -> u16 {
    bits >> 3u16
}

/// The requested privilege level that a selector value holds.
pub open spec fn selector_level(bits: u16) -> u16 {
    bits & 3u16
}

/// A segment selector.
#[derive(Clone, Copy, Debug, PartialEq, Eq, Structural)]
pub struct Selector(u16);

impl View for Selector {
    type V = u16;

    closed spec fn view(&self) -> u16 {
        self.0
    }
}

/// Index and level come back out of a selector unchanged.
pub proof fn lemma_selector_round_trip(index: u16, level: u16)
    requires
        index <= MAX_SELECTOR_INDEX,
        level <= 3,
    ensures
        selector_index(selector_bits(index, level)) == index,
        selector_level(selector_bits(index, level)) == level,
{
    assert(((((index << 3u16) | level) as u16) >> 3u16) == index && ((((index << 3u16) | level)
        as u16) & 3u16) == level) by (bit_vector)
        requires
            index <= 8191u16,
            level <= 3u16,
    ;
}

impl Selector {
    /// The selector for descriptor `index` at `requested_privilege_level`.
    pub fn new(index: u16, requested_privilege_level: PrivilegeLevel) -> (r: Selector)
        requires
            index <= MAX_SELECTOR_INDEX,
        ensures
            r@ == selector_bits(index, level_number(requested_privilege_level)),
            r.index_spec() == index,
            r.level_spec() == level_number(requested_privilege_level),
    {
        proof {
            lemma_selector_round_trip(index, level_number(requested_privilege_level));
        }
        Selector(index << 3u16 | requested_privilege_level.number())
    }

    /// The descriptor index this selector holds.
    pub open spec fn index_spec(self) -> u16 {
        selector_index(self@)
    }

    /// The number of the privilege level this selector requests.
    pub open spec fn level_spec(self) -> u16 {
        selector_level(self@)
    }

    /// The descriptor index this selector holds.
    pub fn index(self) -> (r: u16)
        ensures
            r == self.index_spec(),
    {
        self.0 >> 3u16
    }

    /// The privilege level this selector requests.
    pub fn requested_privilege_level(self) -> (r: PrivilegeLevel)
        ensures
            level_number(r) == self.level_spec(),
    {
        let value = self.0;
        let bits = value & 3u16;
        assert(value & 3u16 <= 3u16) by (bit_vector);
        PrivilegeLevel::from_number(bits)
    }

    /// The selector as the processor holds it in a segment register.
    pub fn value(self) -> (r: u16)
        ensures
            r == self@,
    {
        self.0
    }
}


/// Descriptor flag: the segment is writable.
pub const WRITABLE: u64 = 1 << 41;
/// Descriptor flag: the code segment is conforming.
pub const CONFORMING: u64 = 1 << 42;
/// Descriptor flag: the segment holds code.
pub const EXECUTABLE: u64 = 1 << 43;
/// Descriptor flag: a code or data segment rather than a system segment.
pub const USER_SEGMENT: u64 = 1 << 44;
/// Descriptor flag: the descriptor is present.
pub const PRESENT: u64 = 1 << 47;
/// Descriptor flag: a 64-bit code segment.
pub const LONG_MODE: u64 = 1 << 53;
/// Descriptor field: the segment belongs to ring 3.
pub const RING_3: u64 = 3 << 45;

/// The size in bytes of a task-state segment.
pub const TASK_STATE_SEGMENT_SIZE: u64 = 104;

/// The kernel's 64-bit code-segment descriptor.
pub const KERNEL_CODE_SEGMENT: u64 = USER_SEGMENT | PRESENT | EXECUTABLE | LONG_MODE;

/// A segment descriptor: a code or data segment takes one table slot, a
/// system segment (such as a task-state segment) takes two.
#[derive(Clone, Copy, Debug, PartialEq, Eq, Structural)]
pub enum Descriptor {
    UserSegment(u64),
    SystemSegment(u64, u64),
}

/// The number of table slots a descriptor takes.
pub open spec fn descriptor_slots(descriptor: Descriptor) -> int {
    match descriptor {
        Descriptor::UserSegment(_) => 1,
        Descriptor::SystemSegment(_, _) => 2,
    }
}

/// The privilege level a selector for `descriptor` requests: ring 3 for a code
/// or data segment flagged as ring 3, ring 0 for every other descriptor.
pub open spec fn descriptor_level(descriptor: Descriptor) -> PrivilegeLevel {
    match descriptor {
        Descriptor::UserSegment(value) => if value & RING_3 == RING_3 {
            PrivilegeLevel::Ring3
        } else {
            PrivilegeLevel::Ring0
        },
        Descriptor::SystemSegment(_, _) => PrivilegeLevel::Ring0,
    }
}

/// The low word of the descriptor for a task-state segment at `address`.
pub open spec fn task_state_segment_low(address: u64) -> u64 {
    PRESENT | ((address & 0xff_ffff) << 16u64) | (((address >> 24u64) & 0xff) << 56u64) | (
    TASK_STATE_SEGMENT_SIZE - 1) as u64 | (0b1001u64 << 40u64)
}

impl Descriptor {
    /// The descriptor of the kernel's 64-bit code segment.
    pub fn kernel_code_segment() -> (r: Descriptor)
        ensures
            r == Descriptor::UserSegment(KERNEL_CODE_SEGMENT),
    {
        Descriptor::UserSegment(USER_SEGMENT | PRESENT | EXECUTABLE | LONG_MODE)
    }

    /// The descriptor of a task-state segment at `address`: limit in bits 0 to
    /// 15, address bits 0 to 23 in bits 16 to 39, type 0b1001 in bits 40 to 43,
    /// the present bit 47, address bits 24 to 31 in bits 56 to 63, and address
    /// bits 32 to 63 in the low half of the second word.
    pub fn task_state_segment(address: u64) -> (r: Descriptor)
        ensures
            r == Descriptor::SystemSegment(task_state_segment_low(address), address >> 32u64),
            r matches Descriptor::SystemSegment(low, high) && {
                &&& low & 0xffff == TASK_STATE_SEGMENT_SIZE - 1
                &&& (low >> 16u64) & 0xff_ffff == address & 0xff_ffff
                &&& (low >> 40u64) & 0xf == 0b1001
                &&& (low >> 44u64) & 0xf == 0b1000
                &&& (low >> 48u64) & 0xff == 0
                &&& low >> 56u64 == (address >> 24u64) & 0xff
                &&& high == address >> 32u64
            },
    {
        let low = PRESENT | ((address & 0xff_ffff) << 16u64) | (((address >> 24u64) & 0xff)
            << 56u64) | (TASK_STATE_SEGMENT_SIZE - 1) | (0b1001u64 << 40u64);
        assert({
            let low = (1u64 << 47u64) | ((address & 0xff_ffff) << 16u64) | (((address >> 24u64)
                & 0xff) << 56u64) | 103u64 | (0b1001u64 << 40u64);
            &&& low & 0xffff == 103u64
            &&& (low >> 16u64) & 0xff_ffff == address & 0xff_ffff
            &&& (low >> 40u64) & 0xf == 0b1001u64
            &&& (low >> 44u64) & 0xf == 0b1000u64
            &&& (low >> 48u64) & 0xff == 0u64
            &&& low >> 56u64 == (address >> 24u64) & 0xff
        }) by (bit_vector);
        Descriptor::SystemSegment(low, address >> 32u64)
    }
}

/// The number of slots of the global descriptor table.
pub const GDT_SLOTS: usize = 8;

/// A global descriptor table of eight slots; slot 0 is the null descriptor and
/// slots are handed out in order from slot 1.
pub struct GlobalDescriptorTable {
    entries: Vec<u64>,
    next_available_index: usize,
}

impl GlobalDescriptorTable {
    /// The descriptor words of all slots.
    pub closed spec fn entries(&self) -> Seq<u64> {
        self.entries@
    }

    /// The first slot not yet used.
    pub closed spec fn next_index(&self) -> int {
        self.next_available_index as int
    }

    /// Eight slots, and a cursor past the null descriptor and within the table.
    pub open spec fn wf(&self) -> bool {
        &&& self.entries().len() == GDT_SLOTS
        &&& 1 <= self.next_index() <= GDT_SLOTS
    }

    /// An empty table: the null descriptor and seven free slots.
    pub fn new() -> (r: GlobalDescriptorTable)
        ensures
            r.wf(),
            r.entries() == Seq::new(GDT_SLOTS as nat, |i: int| 0u64),
            r.next_index() == 1,
    {
        let entries: Vec<u64> = vec![0u64; GDT_SLOTS];
        let r = GlobalDescriptorTable { entries, next_available_index: 1 };
        assert(r.entries() =~= Seq::new(GDT_SLOTS as nat, |i: int| 0u64));
        r
    }

    fn push(&mut self, entry: u64) -> (index: usize)
        requires
            old(self).wf(),
            old(self).next_index() < GDT_SLOTS,
        ensures
            final(self).wf(),
            index == old(self).next_index(),
            final(self).entries() == old(self).entries().update(index as int, entry),
            final(self).next_index() == old(self).next_index() + 1,
    {
        let index = self.next_available_index;
        self.entries.set(index, entry);
        self.next_available_index = index + 1;
        index
    }

    /// Puts `descriptor` in the next free slot (two slots for a system
    /// segment) and returns its selector, whose privilege level comes from the
    /// descriptor. The table must have room for it.
    pub fn add(&mut self, descriptor: Descriptor) -> (r: Selector)
        requires
            old(self).wf(),
            old(self).next_index() + descriptor_slots(descriptor) <= GDT_SLOTS,
        ensures
            final(self).wf(),
            final(self).next_index() == old(self).next_index() + descriptor_slots(descriptor),
            final(self).entries() == match descriptor {
                Descriptor::UserSegment(value) => old(self).entries().update(
                    old(self).next_index(),
                    value,
                ),
                Descriptor::SystemSegment(low, high) => old(self).entries().update(
                    old(self).next_index(),
                    low,
                ).update(old(self).next_index() + 1, high),
            },
            r.index_spec() == old(self).next_index(),
            r.level_spec() == level_number(descriptor_level(descriptor)),
    {
        let index = match descriptor {
            Descriptor::UserSegment(value) => self.push(value),
            Descriptor::SystemSegment(low, high) => {
                let index = self.push(low);
                self.push(high);
                index
            },
        };
        let level = match descriptor {
            Descriptor::UserSegment(value) => {
                if value & RING_3 == RING_3 {
                    PrivilegeLevel::Ring3
                } else {
                    PrivilegeLevel::Ring0
                }
            },
            Descriptor::SystemSegment(_, _) => PrivilegeLevel::Ring0,
        };
        Selector::new(index as u16, level)
    }

    /// The descriptor word in slot `index`.
    pub fn entry(&self, index: usize) -> (r: u64)
        requires
            self.wf(),
            index < GDT_SLOTS,
        ensures
            r == self.entries()[index as int],
    {
        self.entries[index]
    }

    /// Loads this table, placed in memory at `address`, into the processor.
    pub fn load<M: Machine>(&self, machine: &mut M, address: u64)
        ensures
            final(machine).state() == (MachineState {
                global_table: Some(Pointer { limit: (GDT_SLOTS * 8 - 1) as u16, base: address }),
                ..old(machine).state()
            }),
    {
        machine.load_global_table(Pointer::new(GDT_SLOTS * 8, address));
    }
}

/// The slot of the interrupt stack table that holds the double-fault stack.
pub const DOUBLE_FAULT_STACK_INDEX: u16 = 0;

/// The size in bytes of the double-fault stack.
pub const DOUBLE_FAULT_STACK_SIZE: u64 = 4096;

/// A task-state segment: the stacks the processor switches to on a change of
/// privilege level, and the seven interrupt stacks an IDT entry can select.
#[derive(Clone, Copy, Debug)]
pub struct TaskStateSegment {
    pub privilege_stack_table: [VirtualAddress; 3],
    pub interrupt_stack_table: [VirtualAddress; 7],
    pub iomap_base: u16,
}

impl TaskStateSegment {
    /// A segment whose stack pointers and I/O map base are all zero.
    pub fn new() -> (r: TaskStateSegment)
        ensures
            forall|i: int| 0 <= i < 3 ==> (#[trigger] r.privilege_stack_table[i])@ == 0,
            forall|i: int| 0 <= i < 7 ==> (#[trigger] r.interrupt_stack_table[i])@ == 0,
            r.iomap_base == 0,
    {
        let z = VirtualAddress::zero();
        TaskStateSegment {
            privilege_stack_table: [z, z, z],
            interrupt_stack_table: [z, z, z, z, z, z, z],
            iomap_base: 0,
        }
    }

    /// The segment the kernel runs with: all zero but the double-fault slot of
    /// the interrupt stack table, which holds the top of the stack that starts
    /// at `stack_start`.
    pub fn with_double_fault_stack(stack_start: VirtualAddress) -> (r: TaskStateSegment)
        requires
            stack_start@ + DOUBLE_FAULT_STACK_SIZE <= u64::MAX,
            is_canonical_candidate((stack_start@ + DOUBLE_FAULT_STACK_SIZE) as u64),
        ensures
            r.interrupt_stack_table[DOUBLE_FAULT_STACK_INDEX as int]@ == canonical(
                (stack_start@ + DOUBLE_FAULT_STACK_SIZE) as u64,
            ),
            forall|i: int|
                0 <= i < 7 && i != DOUBLE_FAULT_STACK_INDEX ==> (
                #[trigger] r.interrupt_stack_table[i])@ == 0,
            forall|i: int| 0 <= i < 3 ==> (#[trigger] r.privilege_stack_table[i])@ == 0,
            r.iomap_base == 0,
    {
        let z = VirtualAddress::zero();
        let top = stack_start.add(DOUBLE_FAULT_STACK_SIZE);
        TaskStateSegment {
            privilege_stack_table: [z, z, z],
            interrupt_stack_table: [top, z, z, z, z, z, z],
            iomap_base: 0,
        }
    }
}

/// The selectors of the kernel's code segment and task-state segment.
#[derive(Clone, Copy, Debug)]
pub struct Selectors {
    pub code_selector: Selector,
    pub task_state_segment_selector: Selector,
}

/// The kernel's table: its code segment in slot 1 and the task-state segment
/// at `task_state_segment_address` in slots 2 and 3.
pub fn build(task_state_segment_address: u64) -> (r: (GlobalDescriptorTable, Selectors))
    ensures
        r.0.wf(),
        r.0.next_index() == 4,
        r.0.entries() == seq![
            0u64,
            KERNEL_CODE_SEGMENT,
            task_state_segment_low(task_state_segment_address),
            task_state_segment_address >> 32u64,
            0u64,
            0u64,
            0u64,
            0u64,
        ],
        r.1.code_selector.index_spec() == 1,
        r.1.code_selector.level_spec() == 0,
        r.1.task_state_segment_selector.index_spec() == 2,
        r.1.task_state_segment_selector.level_spec() == 0,
{
    let mut table = GlobalDescriptorTable::new();
    let code_selector = table.add(Descriptor::kernel_code_segment());
    assert(((1u64 << 44u64) | (1u64 << 47u64) | (1u64 << 43u64) | (1u64 << 53u64)) & (3u64
        << 45u64) != (3u64 << 45u64)) by (bit_vector);
    let task_state_segment_selector = table.add(
        Descriptor::task_state_segment(task_state_segment_address),
    );
    assert(table.entries() =~= seq![
        0u64,
        KERNEL_CODE_SEGMENT,
        task_state_segment_low(task_state_segment_address),
        task_state_segment_address >> 32u64,
        0u64,
        0u64,
        0u64,
        0u64,
    ]);
    (table, Selectors { code_selector, task_state_segment_selector })
}

/// Loads `table` (placed at `table_address`) into the processor, reloads the
/// code segment with the code selector, clears the stack-segment register and
/// loads the task register with the task-state segment selector.
pub fn initialize<M: Machine>(
    machine: &mut M,
    table: &GlobalDescriptorTable,
    selectors: &Selectors,
    table_address: u64,
)
    ensures
        final(machine).state() == (MachineState {
            global_table: Some(Pointer { limit: (GDT_SLOTS * 8 - 1) as u16, base: table_address }),
            code_segment: selectors.code_selector@,
            stack_segment: 0,
            task_register: selectors.task_state_segment_selector@,
            ..old(machine).state()
        }),
        final(machine).state().stack_segment == 0,
{
    table.load(machine, table_address);
    CS::set(machine, selectors.code_selector.value());
    SS::invalidate(machine);
    TR::set(machine, selectors.task_state_segment_selector.value());
}

} // verus!
