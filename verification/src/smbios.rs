//! The tag that carries a copy of the SMBIOS tables.

use crate::reader::Reader;
use crate::tag::{SpecTag, Tag, TagTrait, HEADER_SIZE};
use crate::tag_type::TagTypeId;
use vstd::prelude::*;
use vstd::slice::slice_subrange;

verus! {

/// The number of bytes in front of the tables: the header, the two version bytes and six
/// reserved bytes.
pub const METADATA_SIZE: usize = 16;

/// What an [`SmbiosTag`] stands for.
pub struct SpecSmbiosTag {
    /// The kind in the header.
    pub typ: TagTypeId,
    /// The size in the header.
    pub size: u32,
    /// The major version of the tables.
    pub major: u8,
    /// The minor version of the tables.
    pub minor: u8,
    /// The tables.
    pub tables: Seq<u8>,
}

/// A tag taken as an SMBIOS tag: the two version bytes follow the header, six reserved bytes
/// follow them, and the rest is the tables.
pub open spec fn spec_smbios_tag(tag: SpecTag) -> SpecSmbiosTag {
    SpecSmbiosTag {
        typ: tag.typ,
        size: tag.size,
        major: tag.bytes[8],
        minor: tag.bytes[9],
        tables: tag.payload(METADATA_SIZE as nat),
    }
}

/// The SMBIOS tag: the version of the tables and the tables themselves, which are handed on
/// as they are.
#[derive(Clone, Copy, Debug, PartialEq, Eq)]
pub struct SmbiosTag<'a> {
    /// The kind in the header.
    pub typ: TagTypeId,
    /// The size in the header.
    pub size: u32,
    /// The major version of the tables.
    pub major: u8,
    /// The minor version of the tables.
    pub minor: u8,
    /// The tables, borrowed from the tag.
    pub tables: &'a [u8],
}

impl<'a> View for SmbiosTag<'a> {
    type V = SpecSmbiosTag;

    open spec fn view(&self) -> SpecSmbiosTag {
        SpecSmbiosTag {
            typ: self.typ,
            size: self.size,
            major: self.major,
            minor: self.minor,
            tables: self.tables@,
        }
    }
}

impl<'a> TagTrait<'a> for SmbiosTag<'a> {
    open spec fn spec_metadata_prefix_size() -> nat {
        METADATA_SIZE as nat
    }

    open spec fn spec_cast(tag: SpecTag) -> SpecSmbiosTag {
        spec_smbios_tag(tag)
    }

    open spec fn spec_payload(view: SpecSmbiosTag) -> Seq<u8> {
        view.tables
    }

    fn metadata_prefix_size() -> (n: usize) {
        METADATA_SIZE
    }

    fn dst_size(base_tag: &Tag<'a>) -> (n: usize) {
        base_tag.size as usize - METADATA_SIZE
    }

    fn from_base_tag(tag: &Tag<'a>) -> (view: Self) {
        let len = Self::dst_size(tag);
        let mut reader = Reader::new(tag.bytes, tag.order);
        reader.skip(HEADER_SIZE);
        let major = reader.read_u8();
        let minor = reader.read_u8();
        reader.skip(6);
        let start = reader.current_address();
        SmbiosTag {
            typ: tag.typ,
            size: tag.size,
            major,
            minor,
            tables: slice_subrange(tag.bytes, start, start + len),
        }
    }
}

} // verus!
