use georgix::rsdp::RSDP;

fn v1_bytes(checksum: u8) -> Vec<u8> {
    let mut bytes = Vec::new();
    bytes.extend_from_slice(b"RSD PTR ");
    bytes.push(checksum);
    bytes.extend_from_slice(b"BOCHS ");
    bytes.push(0);
    bytes.extend_from_slice(&0x7FE14D2u32.to_le_bytes());
    bytes.extend_from_slice(&0u32.to_le_bytes());
    bytes.extend_from_slice(&0u64.to_le_bytes());
    bytes.push(0);
    bytes.extend_from_slice(&[0; 3]);
    bytes
}

#[test]
fn finding_the_rsdp_on_boot() {
    let mut area = vec![0u8; 0x400];
    area[0x100..0x108].copy_from_slice(b"RSD PTR ");
    area[0x200..0x200 + 36].copy_from_slice(&v1_bytes(103));
    let found = RSDP::find(&area);
    assert!(found.is_none(), "the first signature is not a valid structure");

    let mut area = vec![0u8; 0x400];
    area[0x108..0x110].copy_from_slice(b"RSD PTR ");
    area[0x200..0x200 + 36].copy_from_slice(&v1_bytes(103));
    let found = RSDP::find(&area).expect("expected to find the RSDP");
    assert_eq!(Some(0x7FE14D2), found.address());
}

#[test]
fn validating_a_v1_rsdp_when_valid() {
    let rsdp = RSDP::from_bytes(&v1_bytes(103)).unwrap();
    assert!(rsdp.validate());
}

#[test]
fn validating_a_v1_rsdp_when_invalid() {
    let rsdp = RSDP::from_bytes(&v1_bytes(23)).unwrap();
    assert!(!rsdp.validate());
}

#[test]
fn getting_the_rsdt_address_from_a_v1_rsdp() {
    let rsdp = RSDP::from_bytes(&v1_bytes(103)).unwrap();
    assert_eq!(Some(0x7FE14D2), rsdp.address());
}

#[test]
fn getting_the_xsdt_address_from_a_v2_rsdp() {
    let mut bytes = v1_bytes(0);
    bytes[15] = 2;
    bytes[20..24].copy_from_slice(&36u32.to_le_bytes());
    bytes[24..32].copy_from_slice(&0x1234_5678_9000u64.to_le_bytes());
    let sum = bytes.iter().fold(0u8, |s, b| s.wrapping_add(*b));
    bytes[8] = 0u8.wrapping_sub(sum);
    let rsdp = RSDP::from_bytes(&bytes).unwrap();
    assert!(rsdp.validate());
    assert_eq!(36, rsdp.length());
    assert_eq!(Some(0x1234_5678_9000), rsdp.address());
}

#[test]
fn too_short_an_rsdp_is_refused() {
    assert!(RSDP::from_bytes(&[0u8; 35]).is_none());
}
