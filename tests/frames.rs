use georgix::addresses::PhysicalAddress;
use georgix::frames::{AllocationError, EarlyPhysicalFrameAllocator};
use georgix::multiboot::Info;

fn memory_map_information() -> Vec<u8> {
    let mut bytes = Vec::new();
    for word in [8u32 + 16 + 3 * 24 + 8, 0, 6, 16 + 3 * 24, 24, 0] {
        bytes.extend_from_slice(&word.to_le_bytes());
    }
    for (base, length, kind) in [(0u64, 0x9fc00u64, 1u32), (0xf0000, 0x10000, 2), (0x10_0000, 0x7ee_0000, 1)] {
        bytes.extend_from_slice(&base.to_le_bytes());
        bytes.extend_from_slice(&length.to_le_bytes());
        bytes.extend_from_slice(&kind.to_le_bytes());
        bytes.extend_from_slice(&0u32.to_le_bytes());
    }
    bytes.extend_from_slice(&0u32.to_le_bytes());
    bytes.extend_from_slice(&8u32.to_le_bytes());
    bytes
}

#[test]
fn the_allocator_keeps_only_available_regions() {
    let info = Info::new(memory_map_information());
    let map = info.memory_map().expect("expected a memory map");
    let allocator = EarlyPhysicalFrameAllocator::new_from(&map);
    assert_eq!(2, allocator.available_count());
    assert_eq!((0, 0x9fc00), allocator.available_at(0));
    assert_eq!((0x10_0000, 0x7ee_0000), allocator.available_at(1));
    assert_eq!(0, allocator.reserved_count());
}

#[test]
fn adding_and_reserving_regions() {
    let mut allocator = EarlyPhysicalFrameAllocator::new();
    allocator.add(PhysicalAddress::new(0x20_0000), 0x1000);
    allocator.reserve(PhysicalAddress::new(0x30_0000), 0x2000);
    assert_eq!(1, allocator.available_count());
    assert_eq!((0x20_0000, 0x1000), allocator.available_at(0));
    assert_eq!(1, allocator.reserved_count());
}

#[test]
fn allocation_is_not_offered_yet() {
    assert_eq!(Err(AllocationError), EarlyPhysicalFrameAllocator::allocate(4096, 4096));
}
