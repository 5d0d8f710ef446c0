use georgix::alignment::align_up;

#[test]
fn aligning_an_already_aligned_address_up() {
    assert_eq!(0xFEE00000, align_up(0xFEE00000, 8))
}

#[test]
fn aligning_an_unaligned_address_up() {
    assert_eq!(0xFEE00008, align_up(0xFEE00004, 8))
}

#[test]
fn aligning_to_a_page() {
    assert_eq!(0x2000, align_up(0x1001, 0x1000));
    assert_eq!(0, align_up(0, 16));
}
