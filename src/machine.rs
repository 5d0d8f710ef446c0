//! The processor and bus primitives the rest of the library is written against,
//! with a model of their effect, and an implementation of that model that keeps
//! the state in memory.

use vstd::prelude::*;

verus! {

/// The interrupt-enable bit of the flags register.
pub const INTERRUPT_ENABLE_FLAG: u64 = 0x200;

/// A descriptor-table pointer as the processor loads it: the table's size in
/// bytes less one, and the table's address.
#[derive(Clone, Copy, Debug, PartialEq, Eq, Structural)]
pub struct Pointer {
    pub limit: u16,
    pub base: u64,
}

impl Pointer {
    /// The pointer to a table of `size` bytes at `base`.
    pub fn new(size: usize, base: u64) -> (r: Pointer)
        requires
            1 <= size <= 0x1_0000,
        ensures
            r.limit == size - 1,
            r.base == base,
    {
        Pointer { limit: (size - 1) as u16, base }
    }
}

/// What the library can observe of, and has done to, the machine.
pub struct MachineState {
    /// Whether the processor accepts maskable interrupts.
    pub interrupts_enabled: bool,
    /// The code-segment selector register.
    pub code_segment: u16,
    /// The stack-segment selector register.
    pub stack_segment: u16,
    /// The task register.
    pub task_register: u16,
    /// The interrupt descriptor table last loaded, if any.
    pub interrupt_table: Option<Pointer>,
    /// The global descriptor table last loaded, if any.
    pub global_table: Option<Pointer>,
    /// Every byte written to an I/O port, oldest first.
    pub port_writes: Seq<(u16, u8)>,
    /// Every double word written to an I/O port, oldest first.
    pub port_dword_writes: Seq<(u16, u32)>,
    /// Every double word written to device memory, oldest first.
    pub memory_writes: Seq<(u64, u32)>,
}

/// The primitive operations of one processor: single instructions on its
/// interrupt flag and segment registers, port I/O and device-memory access.
pub trait Machine {
    /// What the library can observe of, and has done to, this machine. The
    /// processor itself cannot hand this back as a value, so an implementation
    /// on hardware leaves it unspecified; a model says what it holds.
    open spec fn state(&self) -> MachineState {
        arbitrary()
    }

    /// Sets the interrupt flag.
    fn enable_interrupts(&mut self)
        ensures
            final(self).state() == (MachineState { interrupts_enabled: true, ..old(self).state() }),
    ;

    /// Clears the interrupt flag.
    fn disable_interrupts(&mut self)
        ensures
            final(self).state() == (MachineState { interrupts_enabled: false, ..old(self).state() }),
    ;

    /// Reads the flags register.
    fn read_flags(&self) -> (r: u64)
        ensures
            (r & INTERRUPT_ENABLE_FLAG != 0) == self.state().interrupts_enabled,
    ;

    /// Loads the interrupt descriptor table register.
    fn load_interrupt_table(&mut self, pointer: Pointer)
        ensures
            final(self).state() == (MachineState { interrupt_table: Some(pointer), ..old(self).state() }),
    ;

    /// Loads the global descriptor table register.
    fn load_global_table(&mut self, pointer: Pointer)
        ensures
            final(self).state() == (MachineState { global_table: Some(pointer), ..old(self).state() }),
    ;

    /// Loads the task register.
    fn load_task_register(&mut self, selector: u16)
        ensures
            final(self).state() == (MachineState { task_register: selector, ..old(self).state() }),
    ;

    /// Reloads the code-segment register (through a far return).
    fn set_code_segment(&mut self, selector: u16)
        ensures
            final(self).state() == (MachineState { code_segment: selector, ..old(self).state() }),
    ;

    /// Loads the stack-segment register.
    fn set_stack_segment(&mut self, selector: u16)
        ensures
            final(self).state() == (MachineState { stack_segment: selector, ..old(self).state() }),
    ;

    /// Reads the code-segment register.
    fn code_segment(&self) -> (r: u16)
        ensures
            r == self.state().code_segment,
    ;

    /// Reads the stack-segment register.
    fn stack_segment(&self) -> (r: u16)
        ensures
            r == self.state().stack_segment,
    ;

    /// Reads the page-fault linear address register.
    fn read_fault_address(&mut self) -> (r: u64)
        ensures
            final(self).state() == old(self).state(),
    ;

    /// Reads a model-specific register.
    fn read_msr(&mut self, number: u32) -> (r: u64)
        ensures
            final(self).state() == old(self).state(),
    ;

    /// Writes one byte to an I/O port.
    fn write_port(&mut self, port: u16, value: u8)
        ensures
            final(self).state() == (MachineState {
                port_writes: old(self).state().port_writes.push((port, value)),
                ..old(self).state()
            }),
    ;

    /// Reads one byte from an I/O port.
    fn read_port(&mut self, port: u16) -> (r: u8)
        ensures
            final(self).state() == old(self).state(),
    ;

    /// Writes one double word to an I/O port.
    fn write_port_dword(&mut self, port: u16, value: u32)
        ensures
            final(self).state() == (MachineState {
                port_dword_writes: old(self).state().port_dword_writes.push((port, value)),
                ..old(self).state()
            }),
    ;

    /// Reads one double word from an I/O port.
    fn read_port_dword(&mut self, port: u16) -> (r: u32)
        ensures
            final(self).state() == old(self).state(),
    ;

    /// Writes one double word of device memory.
    fn write_memory(&mut self, address: u64, value: u32)
        ensures
            final(self).state() == (MachineState {
                memory_writes: old(self).state().memory_writes.push((address, value)),
                ..old(self).state()
            }),
    ;

    /// Reads one double word of device memory.
    fn read_memory(&mut self, address: u64) -> (r: u32)
        ensures
            final(self).state() == old(self).state(),
    ;
}


proof fn lemma_interrupt_flag(flags: u64)
    ensures
        (flags | INTERRUPT_ENABLE_FLAG) & INTERRUPT_ENABLE_FLAG != 0,
        (flags & !INTERRUPT_ENABLE_FLAG) & INTERRUPT_ENABLE_FLAG == 0,
{
    assert((flags | 0x200u64) & 0x200u64 != 0) by (bit_vector);
    assert((flags & !0x200u64) & 0x200u64 == 0) by (bit_vector);
}

/// A machine held in memory: registers are fields, and device reads return the
/// last value written to the same place, or the value it was preset to.
pub struct SimulatedMachine {
    flags: u64,
    code_segment: u16,
    stack_segment: u16,
    task_register: u16,
    interrupt_table: Option<Pointer>,
    global_table: Option<Pointer>,
    fault_address: u64,
    msrs: Vec<(u32, u64)>,
    preset_memory: Vec<(u64, u32)>,
    port_writes: Vec<(u16, u8)>,
    port_dword_writes: Vec<(u16, u32)>,
    memory_writes: Vec<(u64, u32)>,
}

impl SimulatedMachine {
    /// A machine whose flags register holds `flags` and whose segment and
    /// task registers hold the given selectors.
    pub fn new(flags: u64, code_segment: u16, stack_segment: u16) -> (r: SimulatedMachine)
        ensures
            r.state() == (MachineState {
                interrupts_enabled: flags & INTERRUPT_ENABLE_FLAG != 0,
                code_segment,
                stack_segment,
                task_register: 0,
                interrupt_table: None,
                global_table: None,
                port_writes: Seq::empty(),
                port_dword_writes: Seq::empty(),
                memory_writes: Seq::empty(),
            }),
    {
        SimulatedMachine {
            flags,
            code_segment,
            stack_segment,
            task_register: 0,
            interrupt_table: None,
            global_table: None,
            fault_address: 0,
            msrs: Vec::new(),
            preset_memory: Vec::new(),
            port_writes: Vec::new(),
            port_dword_writes: Vec::new(),
            memory_writes: Vec::new(),
        }
    }

    /// Makes the page-fault linear address register read as `address`.
    pub fn preset_fault_address(&mut self, address: u64)
        ensures
            final(self).state() == old(self).state(),
    {
        self.fault_address = address;
    }

    /// Makes the model-specific register `number` read as `value`.
    pub fn preset_msr(&mut self, number: u32, value: u64)
        ensures
            final(self).state() == old(self).state(),
    {
        self.msrs.push((number, value));
    }

    /// The interrupt descriptor table last loaded.
    pub fn loaded_interrupt_table(&self) -> (r: Option<Pointer>)
        ensures
            r == self.state().interrupt_table,
    {
        self.interrupt_table
    }

    /// The global descriptor table last loaded.
    pub fn loaded_global_table(&self) -> (r: Option<Pointer>)
        ensures
            r == self.state().global_table,
    {
        self.global_table
    }

    /// The task register.
    pub fn task_register(&self) -> (r: u16)
        ensures
            r == self.state().task_register,
    {
        self.task_register
    }

    /// Every byte written to a port, oldest first.
    pub fn port_writes(&self) -> (r: &Vec<(u16, u8)>)
        ensures
            r@ == self.state().port_writes,
    {
        &self.port_writes
    }

    /// Every double word written to a port, oldest first.
    pub fn port_dword_writes(&self) -> (r: &Vec<(u16, u32)>)
        ensures
            r@ == self.state().port_dword_writes,
    {
        &self.port_dword_writes
    }

    /// Every double word written to device memory, oldest first.
    pub fn memory_writes(&self) -> (r: &Vec<(u64, u32)>)
        ensures
            r@ == self.state().memory_writes,
    {
        &self.memory_writes
    }

    /// Makes device memory at `address` read as `value` until it is written.
    pub fn preset_memory(&mut self, address: u64, value: u32)
        ensures
            final(self).state() == old(self).state(),
    {
        self.preset_memory.push((address, value));
    }
}

/// The value of the last pair in `entries` whose key is `key`, if any.
fn last_value_of<K: Copy + PartialEq, V: Copy>(entries: &Vec<(K, V)>, key: K) -> Option<V> {
    let mut i: usize = entries.len();
    while i > 0
        invariant
            i <= entries.len(),
        decreases i,
    {
        i = i - 1;
        if entries[i].0 == key {
            return Some(entries[i].1);
        }
    }
    None
}

impl Machine for SimulatedMachine {
    closed spec fn state(&self) -> MachineState {
        MachineState {
            interrupts_enabled: self.flags & INTERRUPT_ENABLE_FLAG != 0,
            code_segment: self.code_segment,
            stack_segment: self.stack_segment,
            task_register: self.task_register,
            interrupt_table: self.interrupt_table,
            global_table: self.global_table,
            port_writes: self.port_writes@,
            port_dword_writes: self.port_dword_writes@,
            memory_writes: self.memory_writes@,
        }
    }

    fn enable_interrupts(&mut self) {
        proof {
            lemma_interrupt_flag(self.flags);
        }
        self.flags = self.flags | INTERRUPT_ENABLE_FLAG;
    }

    fn disable_interrupts(&mut self) {
        proof {
            lemma_interrupt_flag(self.flags);
        }
        self.flags = self.flags & !INTERRUPT_ENABLE_FLAG;
    }

    fn read_flags(&self) -> (r: u64) {
        self.flags
    }

    fn load_interrupt_table(&mut self, pointer: Pointer) {
        self.interrupt_table = Some(pointer);
    }

    fn load_global_table(&mut self, pointer: Pointer) {
        self.global_table = Some(pointer);
    }

    fn load_task_register(&mut self, selector: u16) {
        self.task_register = selector;
    }

    fn set_code_segment(&mut self, selector: u16) {
        self.code_segment = selector;
    }

    fn set_stack_segment(&mut self, selector: u16) {
        self.stack_segment = selector;
    }

    fn code_segment(&self) -> (r: u16) {
        self.code_segment
    }

    fn stack_segment(&self) -> (r: u16) {
        self.stack_segment
    }

    fn read_fault_address(&mut self) -> (r: u64) {
        self.fault_address
    }

    fn read_msr(&mut self, number: u32) -> (r: u64) {
        match last_value_of(&self.msrs, number) {
            Some(value) => value,
            None => 0,
        }
    }

    fn write_port(&mut self, port: u16, value: u8) {
        self.port_writes.push((port, value));
    }

    fn read_port(&mut self, port: u16) -> (r: u8) {
        match last_value_of(&self.port_writes, port) {
            Some(value) => value,
            None => 0,
        }
    }

    fn write_port_dword(&mut self, port: u16, value: u32) {
        self.port_dword_writes.push((port, value));
    }

    fn read_port_dword(&mut self, port: u16) -> (r: u32) {
        match last_value_of(&self.port_dword_writes, port) {
            Some(value) => value,
            None => 0,
        }
    }

    fn write_memory(&mut self, address: u64, value: u32) {
        self.memory_writes.push((address, value));
    }

    fn read_memory(&mut self, address: u64) -> (r: u32) {
        match last_value_of(&self.memory_writes, address) {
            Some(value) => value,
            None => match last_value_of(&self.preset_memory, address) {
                Some(value) => value,
                None => 0,
            },
        }
    }
}

} // verus!
