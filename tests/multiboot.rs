use georgix::multiboot::{validate, Info, Kind, Region, Tag, MAGIC};

fn push_u32(bytes: &mut Vec<u8>, value: u32) {
    bytes.extend_from_slice(&value.to_le_bytes());
}

fn push_u64(bytes: &mut Vec<u8>, value: u64) {
    bytes.extend_from_slice(&value.to_le_bytes());
}

fn boot_information() -> Vec<u8> {
    let mut bytes = Vec::new();
    push_u32(&mut bytes, 96);
    push_u32(&mut bytes, 0);
    // A command line tag whose end is not 8-byte aligned.
    push_u32(&mut bytes, 1);
    push_u32(&mut bytes, 13);
    bytes.extend_from_slice(b"kernel\0\0");
    // The memory map.
    push_u32(&mut bytes, 6);
    push_u32(&mut bytes, 16 + 2 * 24);
    push_u32(&mut bytes, 24);
    push_u32(&mut bytes, 0);
    push_u64(&mut bytes, 0);
    push_u64(&mut bytes, 0x9fc00);
    push_u32(&mut bytes, 1);
    push_u32(&mut bytes, 0);
    push_u64(&mut bytes, 0x10_0000);
    push_u64(&mut bytes, 0x7ee_0000);
    push_u32(&mut bytes, 3);
    push_u32(&mut bytes, 0);
    // The end tag.
    push_u32(&mut bytes, 0);
    push_u32(&mut bytes, 8);
    bytes
}

#[test]
fn the_magic_value_is_checked() {
    assert!(validate(0x36D76289));
    assert!(validate(MAGIC));
    assert!(!validate(0x2BADB002));
}

#[test]
fn tags_are_read_up_to_the_end_tag() {
    let info = Info::new(boot_information());
    assert_eq!(
        vec![Tag { kind: 1, size: 13, offset: 8 }, Tag { kind: 6, size: 64, offset: 24 }],
        info.tags()
    );
    assert_eq!(Some(Tag { kind: 6, size: 64, offset: 24 }), info.tag(6));
    assert_eq!(None, info.tag(4));
}

#[test]
fn the_memory_map_lists_its_regions() {
    let info = Info::new(boot_information());
    let map = info.memory_map().expect("expected a memory map");
    assert_eq!(
        &vec![Region::new(0, 0x9fc00, 1), Region::new(0x10_0000, 0x7ee_0000, 3)],
        map.regions()
    );
    let first = map.regions()[0];
    assert_eq!(0, first.starts_at());
    assert_eq!(0x9fc00, first.ends_at());
    assert_eq!(0x9fc00, first.length());
    assert_eq!(Kind::Available, first.kind());
    assert_eq!("Available", first.kind().to_str());
    assert_eq!(Kind::Reclaimable, map.regions()[1].kind());
    assert_eq!("Reclaimable (ACPI)", map.regions()[1].kind().to_str());
    assert_eq!(Kind::Reserved, Region::new(0, 0, 7).kind());
}

#[test]
fn a_truncated_structure_stops_the_tag_list() {
    let mut bytes = boot_information();
    bytes.truncate(40);
    let info = Info::new(bytes);
    assert_eq!(vec![Tag { kind: 1, size: 13, offset: 8 }], info.tags());
    assert!(info.memory_map().is_none());
}
