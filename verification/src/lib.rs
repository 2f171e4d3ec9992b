//! Decoding of the tagged records that a Multiboot2 bootloader leaves in memory for the kernel.
//!
//! A tag is a header of eight bytes and a payload whose length the header gives. This crate
//! knows the header, a cursor that reads packed integers, the rule by which a header is taken
//! as a tag of one kind, and three kinds: the command line, the framebuffer and the SMBIOS
//! tables. It decodes one tag at a time from bytes that the caller has bounded. Walking the
//! list of tags is the caller's part.
//!
//! Nothing is copied but scalars: what is handed out borrows from the bytes that were handed
//! in.

pub mod byte_order;
pub mod command_line;
pub mod framebuffer;
pub mod reader;
pub mod smbios;
pub mod tag;
pub mod tag_type;
pub mod text;

pub use byte_order::ByteOrder;
pub use command_line::CommandLineTag;
pub use framebuffer::{
    framebuffer_tag, try_framebuffer_tag, FramebufferColor, FramebufferField, FramebufferTag,
    FramebufferType, FramebufferTypeId, Palette, UnknownFramebufferType,
};
pub use reader::Reader;
pub use smbios::SmbiosTag;
pub use tag::{Tag, TagTrait};
pub use tag_type::{TagType, TagTypeId};
pub use text::Utf8DecodeError;
