use georgix::addresses::{InvalidVirtualAddress, PhysicalAddress, VirtualAddress};

#[test]
fn fallibly_constructing_a_canonical_virtual_address_with_bit_47_cleared() {
    assert_eq!(
        0xfee00000,
        VirtualAddress::try_new(0xfee00000)
            .expect("expected canonical VirtualAddress, got error")
            .as_u64()
    )
}

#[test]
fn fallibly_constructing_a_canonical_virtual_address_with_bit_47_set() {
    assert_eq!(
        0xffff8000fee00000,
        VirtualAddress::try_new(0x8000fee00000)
            .expect("expected canonical VirtualAddress, got error")
            .as_u64()
    )
}

#[test]
fn fallibly_constructing_a_noncanonical_virtual_address() {
    assert_eq!(
        InvalidVirtualAddress(0xc00000fee00000),
        VirtualAddress::try_new(0xc00000fee00000).expect_err("expected InvalidVirtualAddress error")
    )
}

#[test]
fn truncating_a_canonical_virtual_address_with_bit_47_cleared() {
    assert_eq!(0xfee00000, VirtualAddress::truncate(0xfee00000).as_u64())
}

#[test]
fn truncating_a_canonical_virtual_address_with_bit_47_set() {
    assert_eq!(0xffff8000fee00000, VirtualAddress::truncate(0x8000fee00000).as_u64())
}

#[test]
fn truncating_a_noncanonical_virtual_address_with_bit_47_cleared() {
    assert_eq!(0xfee00000, VirtualAddress::truncate(0xc00000fee00000).as_u64())
}

#[test]
fn truncating_a_noncanonical_virtual_address_with_bit_47_set() {
    assert_eq!(0xffff8000fee00000, VirtualAddress::truncate(0xc08000fee00000).as_u64())
}

#[test]
fn constructing_a_null_virtual_address() {
    assert_eq!(0, VirtualAddress::zero().as_u64())
}

#[test]
fn adding_to_a_virtual_address() {
    assert_eq!(0xfee00010, VirtualAddress::new(0xfee00000).add(0x10u64).as_u64());
    assert_eq!(0xffff8000fee00000, VirtualAddress::new(0xfee00000).add(0x8000u64 << 32).as_u64());

    assert_eq!(0xfee00010, VirtualAddress::new(0xfee00000).add(0x10usize as u64).as_u64());
    assert_eq!(
        0xffff8000fee00000,
        VirtualAddress::new(0xfee00000).add((0x8000usize << 32) as u64).as_u64()
    );
}

#[test]
fn already_canonical_high_address_is_kept() {
    assert_eq!(0xffff_8000_0000_0000, VirtualAddress::new(0xffff_8000_0000_0000).as_u64());
}

#[test]
fn physical_address_within_52_bits_is_accepted() {
    assert_eq!(0x000f_ffff_ffff_ffff, PhysicalAddress::try_new(0x000f_ffff_ffff_ffff).unwrap().as_u64());
    assert_eq!(Err(()), PhysicalAddress::try_new(0x0010_0000_0000_0000));
    assert_eq!(0x1010, PhysicalAddress::new(0x1000).add(0x10).as_u64());
}
