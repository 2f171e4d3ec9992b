//! The tag that carries the kernel command line.

use crate::tag::{SpecTag, Tag, TagTrait, HEADER_SIZE};
use crate::tag_type::TagTypeId;
use crate::text::{decode_text, spec_text, text_view, Utf8DecodeError};
use vstd::prelude::*;
use vstd::slice::slice_subrange;

verus! {

/// What a [`CommandLineTag`] stands for.
pub struct SpecCommandLineTag {
    /// The kind in the header.
    pub typ: TagTypeId,
    /// The size in the header.
    pub size: u32,
    /// The bytes after the header.
    pub cmdline: Seq<u8>,
}

/// A tag taken as a command line tag: every byte after the header belongs to the text.
pub open spec fn spec_command_line_tag(tag: SpecTag) -> SpecCommandLineTag {
    SpecCommandLineTag { typ: tag.typ, size: tag.size, cmdline: tag.payload(HEADER_SIZE as nat) }
}

/// The command line tag: a header, and after it the command line as UTF-8 text that ends in
/// a zero byte.
#[derive(Clone, Copy, Debug, PartialEq, Eq)]
pub struct CommandLineTag<'a> {
    /// The kind in the header.
    pub typ: TagTypeId,
    /// The size in the header.
    pub size: u32,
    /// The bytes after the header: the text and its zero byte.
    pub cmdline: &'a [u8],
}

impl<'a> View for CommandLineTag<'a> {
    type V = SpecCommandLineTag;

    open spec fn view(&self) -> SpecCommandLineTag {
        SpecCommandLineTag { typ: self.typ, size: self.size, cmdline: self.cmdline@ }
    }
}

impl<'a> CommandLineTag<'a> {
    /// The command line without its zero byte, borrowed from the tag. The text ends in front
    /// of the first zero byte, or at the end of the tag where the bootloader left the zero
    /// byte out. Where the text is not UTF-8, the error says how far it is.
    pub fn command_line(&self) -> (r: Result<&'a str, Utf8DecodeError>)
        ensures
            text_view(r) == spec_text(self.cmdline@),
    {
        decode_text(self.cmdline)
    }
}

/// Reading the command line of the same tag twice gives the same text or the same error:
/// whatever two runs of `command_line` hand back stands for one value.
pub proof fn lemma_command_line_idempotent(
    a: CommandLineTag,
    b: CommandLineTag,
    ra: Result<&str, Utf8DecodeError>,
    rb: Result<&str, Utf8DecodeError>,
)
    requires
        a@ == b@,
        call_ensures(CommandLineTag::command_line, (&a,), ra),
        call_ensures(CommandLineTag::command_line, (&b,), rb),
    ensures
        text_view(ra) == text_view(rb),
{
}

impl<'a> TagTrait<'a> for CommandLineTag<'a> {
    open spec fn spec_metadata_prefix_size() -> nat {
        HEADER_SIZE as nat
    }

    open spec fn spec_cast(tag: SpecTag) -> SpecCommandLineTag {
        spec_command_line_tag(tag)
    }

    open spec fn spec_payload(view: SpecCommandLineTag) -> Seq<u8> {
        view.cmdline
    }

    fn metadata_prefix_size() -> (n: usize) {
        HEADER_SIZE
    }

    fn dst_size(base_tag: &Tag<'a>) -> (n: usize) {
        base_tag.size as usize - HEADER_SIZE
    }

    fn from_base_tag(tag: &Tag<'a>) -> (view: Self) {
        let len = Self::dst_size(tag);
        CommandLineTag {
            typ: tag.typ,
            size: tag.size,
            cmdline: slice_subrange(tag.bytes, HEADER_SIZE, HEADER_SIZE + len),
        }
    }
}

} // verus!
