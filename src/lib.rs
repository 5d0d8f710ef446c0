//! The interrupt and exception dispatch core of a small x86_64 kernel: the
//! interrupt descriptor table, the global descriptor table with its selectors
//! and task-state segment, the legacy, local and I/O interrupt controllers, the
//! vector numbers, the critical-section primitive and the policy of each
//! handler. Around it, the boot-time pieces the kernel needs: the Multiboot 2
//! information, the ACPI root pointer, the early frame allocator and the VGA
//! text console.
//!
//! Everything that touches the processor or a device goes through the
//! `Machine` trait, whose contracts say what each primitive does to a model of
//! the machine; `SimulatedMachine` holds that model in memory.

pub mod addresses;
pub mod alignment;
pub mod apic;
pub mod frames;
pub mod handlers;
pub mod idt;
pub mod interrupts;
pub mod io;
pub mod ioapic;
pub mod kernel;
pub mod machine;
pub mod multiboot;
pub mod pic;
pub mod registers;
pub mod rsdp;
pub mod segmentation;
pub mod vectors;
pub mod vga;
pub mod vga_registers;
