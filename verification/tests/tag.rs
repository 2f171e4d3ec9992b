use multiboot2::byte_order::ByteOrder;
use multiboot2::command_line::CommandLineTag;
use multiboot2::reader::Reader;
use multiboot2::tag::{Tag, TagTrait, HEADER_SIZE};
use multiboot2::tag_type::{TagType, TagTypeId};

/// The byte order of this machine, found without the crate.
fn native_order() -> ByteOrder {
    if 1u32.to_ne_bytes() == 1u32.to_le_bytes() {
        ByteOrder::Little
    } else {
        ByteOrder::Big
    }
}

fn header(typ: u32, size: u32) -> Vec<u8> {
    let mut bytes = Vec::new();
    bytes.extend(typ.to_ne_bytes());
    bytes.extend(size.to_ne_bytes());
    bytes
}

#[test]
fn native_order_is_that_of_the_machine() {
    assert_eq!(ByteOrder::native(), native_order());
    let bytes = header(1, 8);
    let tag = Tag::new(&bytes).unwrap();
    assert_eq!(tag.order, native_order());
}

#[test]
fn probe_tells_the_orders_apart() {
    assert_eq!(ByteOrder::from_probe(0x0001), ByteOrder::Little);
    assert_eq!(ByteOrder::from_probe(0x0100), ByteOrder::Big);
    assert_eq!(ByteOrder::from_probe(u16::from_le_bytes([1, 0])), ByteOrder::Little);
    assert_eq!(ByteOrder::from_probe(u16::from_be_bytes([1, 0])), ByteOrder::Big);
    assert_eq!(ByteOrder::from_probe(u16::from_ne_bytes([1, 0])), ByteOrder::native());
}

#[test]
fn join_in_each_order() {
    assert_eq!(ByteOrder::Little.join_u16(0x34, 0x12), 0x1234);
    assert_eq!(ByteOrder::Big.join_u16(0x34, 0x12), 0x3412);
    assert_eq!(ByteOrder::Little.join_u32(0x5678, 0x1234), 0x1234_5678);
    assert_eq!(ByteOrder::Big.join_u32(0x5678, 0x1234), 0x5678_1234);
    assert_eq!(ByteOrder::Little.join_u64(0x9abc_def0, 0x1234_5678), 0x1234_5678_9abc_def0);
    assert_eq!(ByteOrder::Big.join_u64(0x9abc_def0, 0x1234_5678), 0x9abc_def0_1234_5678);
    assert_eq!(ByteOrder::Little.join_u16(0xff, 0xff), 0xffff);
    assert_eq!(ByteOrder::Big.join_u64(0xffff_ffff, 0xffff_ffff), u64::MAX);
}

#[test]
fn header_is_read_in_native_order() {
    let bytes = header(13, 8);
    let tag = Tag::new(&bytes).unwrap();
    assert_eq!(tag.typ, TagTypeId(13));
    assert_eq!(tag.typ, TagType::Smbios);
    assert_eq!(tag.size, 8);
    assert_eq!(tag.bytes, &bytes[..]);
}

#[test]
fn header_in_given_order() {
    let bytes = [0u8, 0, 0, 1, 0, 0, 0, 9, 0x41];
    let tag = Tag::with_order(&bytes, ByteOrder::Big).unwrap();
    assert_eq!(tag.typ, TagTypeId(1));
    assert_eq!(tag.size, 9);
    assert_eq!(tag.order, ByteOrder::Big);
    // Read the other way round the size is 0x0900_0000, more than there are bytes.
    assert_eq!(Tag::with_order(&bytes, ByteOrder::Little), None);
    let bytes = [8u8, 0, 0, 0, 10, 0, 0, 0, 1, 2];
    let tag = Tag::with_order(&bytes, ByteOrder::Little).unwrap();
    assert_eq!(tag.typ, TagTypeId(8));
    assert_eq!(tag.size, 10);
}

#[test]
fn tag_is_bound_to_as_many_bytes_as_its_size_says() {
    let mut bytes = header(1, 10);
    bytes.extend([b'h', b'i', 0xaa, 0xbb, 0xcc, 0xdd]);
    let tag = Tag::new(&bytes).unwrap();
    assert_eq!(tag.size, 10);
    assert_eq!(tag.bytes.len(), 10);
    assert_eq!(tag.bytes, &bytes[..10]);
    assert_eq!(tag.bytes.as_ptr(), bytes.as_ptr());
    let tag = tag.cast_tag::<CommandLineTag>();
    assert_eq!(tag.cmdline, b"hi");
}

#[test]
fn no_tag_without_a_whole_header() {
    assert_eq!(Tag::new(&[]), None);
    let bytes = header(1, 8);
    assert_eq!(Tag::new(&bytes[..7]), None);
    assert!(Tag::new(&bytes).is_some());
}

#[test]
fn no_tag_whose_size_does_not_cover_its_header() {
    for size in 0..8u32 {
        let mut bytes = header(1, size);
        bytes.extend([0u8; 8]);
        assert_eq!(Tag::new(&bytes), None);
    }
    let bytes = header(1, 7);
    assert_eq!(Tag::new(&bytes), None);
}

#[test]
fn no_tag_whose_size_reaches_past_the_bytes() {
    let mut bytes = header(1, 12);
    bytes.extend([1u8, 2, 3]);
    assert_eq!(Tag::new(&bytes), None);
    bytes.push(4);
    assert!(Tag::new(&bytes).is_some());
    let bytes = header(1, u32::MAX);
    assert_eq!(Tag::new(&bytes), None);
}

#[test]
fn every_tag_is_long_enough_for_a_command_line() {
    assert_eq!(HEADER_SIZE, 8);
    assert_eq!(CommandLineTag::metadata_prefix_size(), 8);
    let bytes = header(1, 8);
    let tag = Tag::new(&bytes).unwrap();
    assert_eq!(CommandLineTag::dst_size(&tag), 0);
    assert!(tag.try_cast_tag::<CommandLineTag>().is_some());
}

#[test]
fn kinds_and_their_numbers() {
    assert_eq!(TagType::Cmdline.val(), 1);
    assert_eq!(TagType::Framebuffer.val(), 8);
    assert_eq!(TagType::Smbios.val(), 13);
    assert_eq!(TagType::Custom(0x1234).val(), 0x1234);
    assert_eq!(TagType::from(TagTypeId(1)), TagType::Cmdline);
    assert_eq!(TagType::from(TagTypeId(8)), TagType::Framebuffer);
    assert_eq!(TagType::from(TagTypeId(13)), TagType::Smbios);
    assert_eq!(TagType::from(TagTypeId(2)), TagType::Custom(2));
    assert_eq!(TagTypeId::from(TagType::Framebuffer), TagTypeId::new(8));
    assert_eq!(u32::from(TagType::Custom(77)), 77);
    assert!(TagTypeId(8) == TagType::Framebuffer);
    assert!(TagTypeId(8) != TagType::Smbios);
    assert!(TagTypeId(5) == TagType::Custom(5));
}

#[test]
fn reader_reads_in_turn() {
    let bytes = [0x01u8, 0x02, 0x03, 0x04, 0x05, 0x06, 0x07, 0x08, 0x09, 0x0a, 0x0b, 0x0c, 0x0d, 0x0e, 0x0f, 0x10, 0x11];
    let mut reader = Reader::new(&bytes, ByteOrder::Little);
    assert_eq!(reader.current_address(), 0);
    assert_eq!(reader.read_u8(), 0x01);
    assert_eq!(reader.current_address(), 1);
    // From here on nothing is aligned.
    assert_eq!(reader.read_u16(), 0x0302);
    assert_eq!(reader.current_address(), 3);
    assert_eq!(reader.read_u32(), 0x0706_0504);
    assert_eq!(reader.current_address(), 7);
    reader.skip(2);
    assert_eq!(reader.current_address(), 9);
    assert_eq!(reader.read_u64(), 0x1110_0f0e_0d0c_0b0a);
    assert_eq!(reader.current_address(), 17);
}

#[test]
fn reader_reads_most_significant_byte_first() {
    let bytes = [0x01u8, 0x02, 0x03, 0x04, 0x05, 0x06, 0x07, 0x08, 0x09, 0x0a, 0x0b, 0x0c, 0x0d, 0x0e, 0x0f];
    let mut reader = Reader::new(&bytes, ByteOrder::Big);
    assert_eq!(reader.read_u8(), 0x01);
    assert_eq!(reader.read_u16(), 0x0203);
    assert_eq!(reader.read_u32(), 0x0405_0607);
    assert_eq!(reader.read_u64(), 0x0809_0a0b_0c0d_0e0f);
    assert_eq!(reader.current_address(), 15);
}

#[test]
fn reader_agrees_with_native_integers() {
    let mut bytes = Vec::new();
    bytes.extend(0xbeefu16.to_ne_bytes());
    bytes.extend(0xdead_beefu32.to_ne_bytes());
    bytes.extend(0x0123_4567_89ab_cdefu64.to_ne_bytes());
    let mut reader = Reader::new(&bytes, ByteOrder::native());
    assert_eq!(reader.read_u16(), 0xbeef);
    assert_eq!(reader.read_u32(), 0xdead_beef);
    assert_eq!(reader.read_u64(), 0x0123_4567_89ab_cdef);
}

#[test]
fn reader_may_skip_past_the_end() {
    let bytes = [1u8, 2];
    let mut reader = Reader::new(&bytes, ByteOrder::Little);
    reader.skip(5);
    assert_eq!(reader.current_address(), 5);
    reader.skip(0);
    assert_eq!(reader.current_address(), 5);
}
