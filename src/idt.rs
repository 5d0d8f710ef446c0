//! The interrupt descriptor table: 256 gate entries in the processor's binary
//! layout, and the rules on which handler signature fits which vector.

use vstd::prelude::*;
use crate::machine::{Machine, MachineState, Pointer};
use crate::segmentation::DOUBLE_FAULT_STACK_INDEX;
use crate::vectors::{Vector, vector_number};

verus! {

/// The number of entries of the table.
pub const IDT_ENTRIES: usize = 256;

/// The size in bytes of one encoded entry.
pub const ENTRY_SIZE: usize = 16;

/// The size in bytes of the encoded table.
pub const IDT_SIZE: usize = 4096;

/// The option bits of an absent interrupt gate: gate type 0b1110 in bits 8 to 11.
pub const MINIMAL_OPTIONS: u16 = 0b1110_0000_0000;

/// The signature classes of handlers; the processor pushes a different stack
/// layout for each, so an entry takes only the class its vector calls for.
#[derive(Clone, Copy, Debug, PartialEq, Eq, Structural)]
pub enum HandlerKind {
    /// Returns, no error code.
    Handler,
    /// Returns, with an error code.
    HandlerWithErrorCode,
    /// Never returns, no error code.
    DivergingHandler,
    /// Never returns, with an error code.
    DivergingHandlerWithErrorCode,
    /// The page-fault handler, with its page-fault error code.
    PageFaultHandler,
}

/// The handler class of `vector`, or `None` for a reserved vector (the
/// coprocessor segment overrun and the reserved exception numbers).
pub open spec fn slot_kind(vector: u8) -> Option<HandlerKind> {
    if vector == 8 {
        Some(HandlerKind::DivergingHandlerWithErrorCode)
    } else if (10 <= vector <= 13) || vector == 17 || vector == 30 {
        Some(HandlerKind::HandlerWithErrorCode)
    } else if vector == 14 {
        Some(HandlerKind::PageFaultHandler)
    } else if vector == 18 {
        Some(HandlerKind::DivergingHandler)
    } else if vector == 9 || vector == 15 || (21 <= vector <= 29) || vector == 31 {
        None
    } else {
        Some(HandlerKind::Handler)
    }
}

/// The handler class of `vector`, or `None` for a reserved vector.
pub fn kind_of(vector: u8) -> (r: Option<HandlerKind>)
    ensures
        r == slot_kind(vector),
{
    if vector == 8 {
        Some(HandlerKind::DivergingHandlerWithErrorCode)
    } else if (10 <= vector && vector <= 13) || vector == 17 || vector == 30 {
        Some(HandlerKind::HandlerWithErrorCode)
    } else if vector == 14 {
        Some(HandlerKind::PageFaultHandler)
    } else if vector == 18 {
        Some(HandlerKind::DivergingHandler)
    } else if vector == 9 || vector == 15 || (21 <= vector && vector <= 29) || vector == 31 {
        None
    } else {
        Some(HandlerKind::Handler)
    }
}

/// Whether the present bit (15) of an option word is set.
pub open spec fn options_present(options: u16) -> bool {
    (options >> 15u16) & 1 == 1
}

/// The stack-switch field (bits 0 to 2) of an option word: 0 for no switch,
/// otherwise the interrupt-stack-table slot plus one.
pub open spec fn options_stack(options: u16) -> u16 {
    options & 7
}

/// Bits 3 to 14 of an option word, which hold the descriptor type.
pub open spec fn options_gate(options: u16) -> u16 {
    options & 0x7ff8
}

/// The option word of an entry: present bit, gate type and stack switch.
#[derive(Clone, Copy, Debug, PartialEq, Eq, Structural)]
pub struct EntryOptions(u16);

impl View for EntryOptions {
    type V = u16;

    closed spec fn view(&self) -> u16 {
        self.0
    }
}

impl EntryOptions {
    /// The options of an absent interrupt gate with no stack switch.
    pub fn minimal() -> (r: EntryOptions)
        ensures
            r@ == MINIMAL_OPTIONS,
            !options_present(r@),
            options_stack(r@) == 0,
    {
        assert(!(((0xe00u16 >> 15u16) & 1) == 1) && (0xe00u16 & 7) == 0) by (bit_vector);
        EntryOptions(MINIMAL_OPTIONS)
    }

    /// Sets or clears the present bit, keeping the other bits.
    pub fn present(&mut self, value: bool)
        ensures
            options_present(final(self)@) == value,
            options_stack(final(self)@) == options_stack(old(self)@),
            options_gate(final(self)@) == options_gate(old(self)@),
    {
        let old_bits = self.0;
        let bits = if value {
            old_bits | 0x8000u16
        } else {
            old_bits & 0x7fffu16
        };
        assert({
            &&& ((old_bits | 0x8000u16) >> 15u16) & 1 == 1
            &&& ((old_bits | 0x8000u16) & 7) == old_bits & 7
            &&& ((old_bits | 0x8000u16) & 0x7ff8) == old_bits & 0x7ff8
            &&& !(((old_bits & 0x7fffu16) >> 15u16) & 1 == 1)
            &&& ((old_bits & 0x7fffu16) & 7) == old_bits & 7
            &&& ((old_bits & 0x7fffu16) & 0x7ff8) == old_bits & 0x7ff8
        }) by (bit_vector);
        self.0 = bits;
    }

    /// Makes the processor switch to interrupt stack `index` (0 to 6) of the
    /// task-state segment; the field holds `index + 1`.
    pub fn on_stack_with_index(&mut self, index: u16)
        requires
            index < 7,
        ensures
            options_stack(final(self)@) == index + 1,
            options_present(final(self)@) == options_present(old(self)@),
            options_gate(final(self)@) == options_gate(old(self)@),
    {
        let old_bits = self.0;
        let field = index + 1;
        let bits = (old_bits & !7u16) | field;
        assert({
            &&& (((old_bits & !7u16) | field) & 7) == field
            &&& ((((old_bits & !7u16) | field) >> 15u16) & 1 == 1) == ((old_bits >> 15u16) & 1
                == 1)
            &&& (((old_bits & !7u16) | field) & 0x7ff8) == old_bits & 0x7ff8
        }) by (bit_vector)
            requires
                1 <= field <= 7,
        ;
        self.0 = bits;
    }

    /// The option word.
    pub fn bits(self) -> (r: u16)
        ensures
            r == self@,
    {
        self.0
    }
}

/// What an entry holds, in plain values.
pub struct EntryView {
    pub address: u64,
    pub selector: u16,
    pub options: u16,
}

/// One gate entry, field by field as the processor reads it.
#[derive(Clone, Copy, Debug, PartialEq, Eq, Structural)]
pub struct Entry {
    pointer_low: u16,
    code_segment_selector: u16,
    options: EntryOptions,
    pointer_middle: u16,
    pointer_high: u32,
    reserved: u32,
}

/// The handler address that the three pointer fields spell.
pub open spec fn joined_address(low: u16, middle: u16, high: u32) -> u64 {
    (low as u64) | ((middle as u64) << 16u64) | ((high as u64) << 32u64)
}

/// The sixteen bytes of an entry, little-endian, in the processor's order:
/// pointer bits 0 to 15, selector, options, pointer bits 16 to 31, pointer
/// bits 32 to 63, and four reserved zero bytes.
pub open spec fn entry_bytes(e: EntryView) -> Seq<u8> {
    seq![
        e.address as u8,
        (e.address >> 8u64) as u8,
        e.selector as u8,
        (e.selector >> 8u16) as u8,
        e.options as u8,
        (e.options >> 8u16) as u8,
        (e.address >> 16u64) as u8,
        (e.address >> 24u64) as u8,
        (e.address >> 32u64) as u8,
        (e.address >> 40u64) as u8,
        (e.address >> 48u64) as u8,
        (e.address >> 56u64) as u8,
        0u8,
        0u8,
        0u8,
        0u8,
    ]
}

proof fn lemma_split_address(address: u64)
    ensures
        joined_address(address as u16, (address >> 16u64) as u16, (address >> 32u64) as u32)
            == address,
{
    assert(((address as u16) as u64) | ((((address >> 16u64) as u16) as u64) << 16u64) | (
    (((address >> 32u64) as u32) as u64) << 32u64) == address) by (bit_vector);
}

proof fn lemma_address_bytes(low: u16, middle: u16, high: u32)
    ensures
        ({
            let a = joined_address(low, middle, high);
            &&& a as u8 == low as u8
            &&& (a >> 8u64) as u8 == (low >> 8u16) as u8
            &&& (a >> 16u64) as u8 == middle as u8
            &&& (a >> 24u64) as u8 == (middle >> 8u16) as u8
            &&& (a >> 32u64) as u8 == high as u8
            &&& (a >> 40u64) as u8 == (high >> 8u32) as u8
            &&& (a >> 48u64) as u8 == (high >> 16u32) as u8
            &&& (a >> 56u64) as u8 == (high >> 24u32) as u8
        }),
{
    assert({
        let a = (low as u64) | ((middle as u64) << 16u64) | ((high as u64) << 32u64);
        &&& a as u8 == low as u8
        &&& (a >> 8u64) as u8 == (low >> 8u16) as u8
        &&& (a >> 16u64) as u8 == middle as u8
        &&& (a >> 24u64) as u8 == (middle >> 8u16) as u8
        &&& (a >> 32u64) as u8 == high as u8
        &&& (a >> 40u64) as u8 == (high >> 8u32) as u8
        &&& (a >> 48u64) as u8 == (high >> 16u32) as u8
        &&& (a >> 56u64) as u8 == (high >> 24u32) as u8
    }) by (bit_vector);
}

impl View for Entry {
    type V = EntryView;

    closed spec fn view(&self) -> EntryView {
        EntryView {
            address: joined_address(self.pointer_low, self.pointer_middle, self.pointer_high),
            selector: self.code_segment_selector,
            options: self.options@,
        }
    }
}

impl Entry {
    /// An absent entry with handler address 0, for code segment `code_segment`.
    pub fn new(code_segment: u16) -> (r: Entry)
        ensures
            r@.address == 0,
            r@.selector == code_segment,
            r@.options == MINIMAL_OPTIONS,
            !options_present(r@.options),
            options_stack(r@.options) == 0,
    {
        assert(joined_address(0, 0, 0) == 0) by (bit_vector);
        Entry {
            code_segment_selector: code_segment,
            pointer_low: 0,
            pointer_middle: 0,
            pointer_high: 0,
            options: EntryOptions::minimal(),
            reserved: 0,
        }
    }

    fn point_to(&mut self, address: u64)
        ensures
            final(self)@ == (EntryView { address, ..old(self)@ }),
    {
        proof {
            lemma_split_address(address);
        }
        self.pointer_low = address as u16;
        self.pointer_middle = (address >> 16u64) as u16;
        self.pointer_high = (address >> 32u64) as u32;
    }

    /// Points the entry at the handler at `address` and marks it present.
    fn handle_at_address(&mut self, address: u64)
        ensures
            final(self)@.address == address,
            final(self)@.selector == old(self)@.selector,
            options_present(final(self)@.options),
            options_stack(final(self)@.options) == options_stack(old(self)@.options),
            options_gate(final(self)@.options) == options_gate(old(self)@.options),
    {
        self.point_to(address);
        self.options.present(true);
    }

    /// The handler address.
    pub fn handler_address(&self) -> (r: u64)
        ensures
            r == self@.address,
    {
        proof {
            lemma_split_address(self@.address);
        }
        (self.pointer_low as u64) | ((self.pointer_middle as u64) << 16u64) | ((
        self.pointer_high as u64) << 32u64)
    }

    /// The option word.
    pub fn options(&self) -> (r: EntryOptions)
        ensures
            r@ == self@.options,
    {
        self.options
    }

    /// Whether the entry is present.
    pub fn is_present(&self) -> (r: bool)
        ensures
            r == options_present(self@.options),
    {
        let bits = self.options.bits();
        (bits >> 15u16) & 1 == 1
    }

    /// The sixteen bytes the processor reads for this entry.
    pub fn to_bytes(&self) -> (r: Vec<u8>)
        ensures
            r@ == entry_bytes(self@),
            r@.len() == ENTRY_SIZE,
    {
        proof {
            lemma_address_bytes(self.pointer_low, self.pointer_middle, self.pointer_high);
        }
        let options = self.options.bits();
        vec![
            self.pointer_low as u8,
            (self.pointer_low >> 8u16) as u8,
            self.code_segment_selector as u8,
            (self.code_segment_selector >> 8u16) as u8,
            options as u8,
            (options >> 8u16) as u8,
            self.pointer_middle as u8,
            (self.pointer_middle >> 8u16) as u8,
            self.pointer_high as u8,
            (self.pointer_high >> 8u32) as u8,
            (self.pointer_high >> 16u32) as u8,
            (self.pointer_high >> 24u32) as u8,
            0u8,
            0u8,
            0u8,
            0u8,
        ]
    }
}


/// The bytes of a table whose entries are `entries`, one entry after another.
pub open spec fn table_bytes(entries: Seq<EntryView>) -> Seq<u8>
    decreases entries.len(),
{
    if entries.len() == 0 {
        Seq::empty()
    } else {
        table_bytes(entries.drop_last()) + entry_bytes(entries.last())
    }
}

proof fn lemma_table_bytes_len(entries: Seq<EntryView>)
    ensures
        table_bytes(entries).len() == ENTRY_SIZE * entries.len(),
    decreases entries.len(),
{
    if entries.len() > 0 {
        lemma_table_bytes_len(entries.drop_last());
    }
}

/// Every entry encodes to sixteen bytes whatever it holds, so a table of 256
/// entries encodes to 4096 bytes.
pub proof fn lemma_encoded_sizes(entry: EntryView, entries: Seq<EntryView>)
    requires
        entries.len() == IDT_ENTRIES,
    ensures
        entry_bytes(entry).len() == ENTRY_SIZE,
        table_bytes(entries).len() == IDT_SIZE,
{
    lemma_table_bytes_len(entries);
}

/// What an absent entry for code segment `code_segment` holds.
pub open spec fn absent_entry(code_segment: u16) -> EntryView {
    EntryView { address: 0, selector: code_segment, options: MINIMAL_OPTIONS }
}

/// Whether `options` are those of entry `e` once a handler is installed in
/// it: present, with its stack switch and type unchanged.
pub open spec fn installed(e: EntryView, options: u16) -> bool {
    &&& options_present(options)
    &&& options_stack(options) == options_stack(e.options)
    &&& options_gate(options) == options_gate(e.options)
}

/// The table of 256 gate entries, indexed by vector.
pub struct InterruptDescriptorTable {
    entries: Vec<Entry>,
}

impl InterruptDescriptorTable {
    /// The entries, by vector.
    pub closed spec fn entries(&self) -> Seq<EntryView> {
        self.entries@.map_values(|e: Entry| e@)
    }

    /// A table of 256 entries.
    pub open spec fn wf(&self) -> bool {
        self.entries().len() == IDT_ENTRIES
    }

    /// A table with every entry absent, for code segment `code_segment`.
    pub fn new(code_segment: u16) -> (r: InterruptDescriptorTable)
        ensures
            r.wf(),
            forall|v: int| 0 <= v < IDT_ENTRIES ==> #[trigger] r.entries()[v] == absent_entry(code_segment),
    {
        let mut entries: Vec<Entry> = Vec::new();
        let mut i: usize = 0;
        while i < IDT_ENTRIES
            invariant
                i <= IDT_ENTRIES,
                entries@.len() == i,
                forall|j: int| 0 <= j < i ==> #[trigger] entries@[j]@ == absent_entry(code_segment),
            decreases IDT_ENTRIES - i,
        {
            entries.push(Entry::new(code_segment));
            i = i + 1;
        }
        InterruptDescriptorTable { entries }
    }

    /// The entry of `vector`.
    pub fn entry(&self, vector: u8) -> (r: Entry)
        requires
            self.wf(),
        ensures
            r@ == self.entries()[vector as int],
    {
        self.entries[vector as usize]
    }

    /// Installs the handler at `address` in the entry of `vector` and marks it
    /// present. `kind` is the signature class of the handler, and must be the
    /// class the vector calls for: reserved vectors take no handler.
    pub fn handle_with(&mut self, vector: u8, kind: HandlerKind, address: u64)
        requires
            old(self).wf(),
            slot_kind(vector) == Some(kind),
        ensures
            final(self).wf(),
            final(self).entries()[vector as int].address == address,
            final(self).entries()[vector as int].selector == old(self).entries()[vector as int].selector,
            installed(old(self).entries()[vector as int], final(self).entries()[vector as int].options),
            forall|v: int| 0 <= v < IDT_ENTRIES && v != vector ==> #[trigger] final(self).entries()[v] == old(self).entries()[v],
    {
        let mut e = self.entries[vector as usize];
        e.handle_at_address(address);
        self.entries.set(vector as usize, e);
        assert forall|v: int| 0 <= v < IDT_ENTRIES && v != vector implies #[trigger] self.entries()[v] == old(self).entries()[v] by {}
    }

    /// Makes the processor switch to interrupt stack `index` (0 to 6) when it
    /// delivers `vector`.
    pub fn on_stack_with_index(&mut self, vector: u8, index: u16)
        requires
            old(self).wf(),
            index < 7,
        ensures
            final(self).wf(),
            final(self).entries()[vector as int].address == old(self).entries()[vector as int].address,
            final(self).entries()[vector as int].selector == old(self).entries()[vector as int].selector,
            options_stack(final(self).entries()[vector as int].options) == index + 1,
            options_present(final(self).entries()[vector as int].options) == options_present(old(self).entries()[vector as int].options),
            options_gate(final(self).entries()[vector as int].options) == options_gate(old(self).entries()[vector as int].options),
            forall|v: int| 0 <= v < IDT_ENTRIES && v != vector ==> #[trigger] final(self).entries()[v] == old(self).entries()[v],
    {
        let mut e = self.entries[vector as usize];
        e.options.on_stack_with_index(index);
        self.entries.set(vector as usize, e);
        assert forall|v: int| 0 <= v < IDT_ENTRIES && v != vector implies #[trigger] self.entries()[v] == old(self).entries()[v] by {}
    }

    /// The 4096 bytes the processor reads for this table.
    pub fn to_bytes(&self) -> (r: Vec<u8>)
        requires
            self.wf(),
        ensures
            r@ == table_bytes(self.entries()),
            r@.len() == IDT_SIZE,
    {
        let mut bytes: Vec<u8> = Vec::new();
        let mut i: usize = 0;
        while i < IDT_ENTRIES
            invariant
                self.wf(),
                i <= IDT_ENTRIES,
                bytes@ == table_bytes(self.entries().take(i as int)),
            decreases IDT_ENTRIES - i,
        {
            let mut chunk = self.entries[i].to_bytes();
            bytes.append(&mut chunk);
            proof {
                assert(self.entries().take(i + 1).drop_last() =~= self.entries().take(i as int));
            }
            i = i + 1;
        }
        proof {
            assert(self.entries().take(IDT_ENTRIES as int) =~= self.entries());
            lemma_table_bytes_len(self.entries());
        }
        bytes
    }

    /// Loads this table, placed in memory at `address`, into the processor:
    /// its size less one and its address.
    pub fn load<M: Machine>(&self, machine: &mut M, address: u64)
        ensures
            final(machine).state() == (MachineState {
                interrupt_table: Some(Pointer { limit: (IDT_SIZE - 1) as u16, base: address }),
                ..old(machine).state()
            }),
    {
        machine.load_interrupt_table(Pointer::new(IDT_SIZE, address));
    }
}

/// The addresses of the kernel's handlers.
#[derive(Clone, Copy, Debug)]
pub struct HandlerAddresses {
    pub breakpoint: u64,
    pub double_fault: u64,
    pub general_protection_fault: u64,
    pub page_fault: u64,
    pub timer: u64,
    pub keyboard: u64,
}

/// The vectors of the exceptions the kernel handles.
pub const BREAKPOINT: u8 = 3;
/// The double-fault vector.
pub const DOUBLE_FAULT: u8 = 8;
/// The general-protection-fault vector.
pub const GENERAL_PROTECTION_FAULT: u8 = 13;
/// The page-fault vector.
pub const PAGE_FAULT: u8 = 14;

/// Whether the kernel's table installs a handler for `v`.
pub open spec fn kernel_vector(v: int) -> bool {
    v == BREAKPOINT || v == DOUBLE_FAULT || v == GENERAL_PROTECTION_FAULT || v == PAGE_FAULT || v
        == vector_number(Vector::Timer) || v == vector_number(Vector::Keyboard)
}

/// The kernel's table: the breakpoint, double-fault (on its own stack),
/// general-protection and page-fault handlers, and the timer and keyboard
/// handlers at their vectors; every other entry is absent.
pub fn kernel_table(code_segment: u16, handlers: HandlerAddresses) -> (r: InterruptDescriptorTable)
    ensures
        r.wf(),
        r.entries()[BREAKPOINT as int].address == handlers.breakpoint,
        r.entries()[DOUBLE_FAULT as int].address == handlers.double_fault,
        r.entries()[GENERAL_PROTECTION_FAULT as int].address == handlers.general_protection_fault,
        r.entries()[PAGE_FAULT as int].address == handlers.page_fault,
        r.entries()[vector_number(Vector::Timer) as int].address == handlers.timer,
        r.entries()[vector_number(Vector::Keyboard) as int].address == handlers.keyboard,
        forall|v: int| 0 <= v < IDT_ENTRIES && kernel_vector(v) ==> {
            &&& options_present(#[trigger] r.entries()[v].options)
            &&& r.entries()[v].selector == code_segment
            &&& options_gate(r.entries()[v].options) == options_gate(MINIMAL_OPTIONS)
        },
        options_stack(r.entries()[DOUBLE_FAULT as int].options) == DOUBLE_FAULT_STACK_INDEX + 1,
        forall|v: int| 0 <= v < IDT_ENTRIES && v != DOUBLE_FAULT && kernel_vector(v) ==>
            options_stack(#[trigger] r.entries()[v].options) == 0,
        forall|v: int| 0 <= v < IDT_ENTRIES && !kernel_vector(v) ==> #[trigger] r.entries()[v] == absent_entry(code_segment),
{
    let mut table = InterruptDescriptorTable::new(code_segment);
    assert(options_stack(MINIMAL_OPTIONS) == 0 && !options_present(MINIMAL_OPTIONS)) by (bit_vector);
    table.handle_with(BREAKPOINT, HandlerKind::Handler, handlers.breakpoint);
    table.handle_with(DOUBLE_FAULT, HandlerKind::DivergingHandlerWithErrorCode, handlers.double_fault);
    table.on_stack_with_index(DOUBLE_FAULT, DOUBLE_FAULT_STACK_INDEX);
    table.handle_with(GENERAL_PROTECTION_FAULT, HandlerKind::HandlerWithErrorCode, handlers.general_protection_fault);
    table.handle_with(PAGE_FAULT, HandlerKind::PageFaultHandler, handlers.page_fault);
    table.handle_with(Vector::Timer.number(), HandlerKind::Handler, handlers.timer);
    table.handle_with(Vector::Keyboard.number(), HandlerKind::Handler, handlers.keyboard);
    table
}

} // verus!
