use multiboot2::{SmbiosTag, Tag, TagTrait, TagType};

/// Returns the tag structure in bytes in native endian format.
fn get_bytes() -> std::vec::Vec<u8> {
    let tables = [0xabu8; 24];
    // size is: 4 bytes for tag + 4 bytes for size + 1 byte for major and minor
    // + 6 bytes reserved + the actual tables
    let size = (4 + 4 + 1 + 1 + 6 + tables.len()) as u32;
    let typ: u32 = TagType::Smbios.into();
    let mut bytes = [typ.to_ne_bytes(), size.to_ne_bytes()].concat();
    bytes.push(3);
    bytes.push(0);
    bytes.extend([0; 6]);
    bytes.extend(tables);
    bytes
}

/// Test to parse a given tag.
#[test]
fn test_parse() {
    let tag = get_bytes();
    let tag = Tag::new(&tag).expect("must be a tag");
    let tag = tag.cast_tag::<SmbiosTag>();
    assert_eq!({ tag.typ }, TagType::Smbios);
    assert_eq!(tag.major, 3);
    assert_eq!(tag.minor, 0);
    assert_eq!(tag.tables, [0xabu8; 24]);
}

#[test]
fn smbios_sizes() {
    let bytes = get_bytes();
    let tag = Tag::new(&bytes).unwrap();
    assert_eq!(tag.size, 40);
    assert_eq!(SmbiosTag::metadata_prefix_size(), 16);
    assert_eq!(SmbiosTag::dst_size(&tag), 24);
    let tag = tag.cast_tag::<SmbiosTag>();
    assert_eq!(tag.size, 40);
    assert_eq!(tag.tables.len(), 24);
}

#[test]
fn smbios_tables_start_after_reserved_bytes() {
    let mut bytes = Vec::new();
    bytes.extend(TagType::Smbios.val().to_ne_bytes());
    bytes.extend(19u32.to_ne_bytes());
    bytes.extend([2u8, 8, 0x11, 0x12, 0x13, 0x14, 0x15, 0x16, 0xa1, 0xa2, 0xa3]);
    let tag = Tag::new(&bytes).unwrap().cast_tag::<SmbiosTag>();
    assert_eq!(tag.major, 2);
    assert_eq!(tag.minor, 8);
    assert_eq!(tag.tables, [0xa1u8, 0xa2, 0xa3]);
    assert_eq!(tag.tables.as_ptr(), bytes[16..].as_ptr());
}

#[test]
fn smbios_without_tables() {
    let mut bytes = Vec::new();
    bytes.extend(TagType::Smbios.val().to_ne_bytes());
    bytes.extend(16u32.to_ne_bytes());
    bytes.extend([3u8, 1, 0, 0, 0, 0, 0, 0]);
    let tag = Tag::new(&bytes).unwrap();
    let tag = tag.try_cast_tag::<SmbiosTag>().expect("sixteen bytes are enough");
    assert_eq!(tag.major, 3);
    assert_eq!(tag.minor, 1);
    assert!(tag.tables.is_empty());
}

#[test]
fn smbios_shorter_than_its_fixed_fields_is_not_cast() {
    let mut bytes = Vec::new();
    bytes.extend(TagType::Smbios.val().to_ne_bytes());
    bytes.extend(15u32.to_ne_bytes());
    bytes.extend([3u8, 0, 0, 0, 0, 0, 0]);
    let tag = Tag::new(&bytes).unwrap();
    assert_eq!(tag.size, 15);
    assert!(tag.try_cast_tag::<SmbiosTag>().is_none());
}

#[test]
fn smbios_cast_twice_is_the_same() {
    let bytes = get_bytes();
    let first = Tag::new(&bytes).unwrap().cast_tag::<SmbiosTag>();
    let second = Tag::new(&bytes).unwrap().cast_tag::<SmbiosTag>();
    assert_eq!(first, second);
}
