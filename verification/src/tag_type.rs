//! The kinds of tags, and the number by which a tag header names its kind.

use vstd::prelude::*;
use vstd::std_specs::cmp::PartialEqSpecImpl;
use vstd::std_specs::convert::FromSpecImpl;

verus! {

/// The number in the first field of a tag header. Any 32-bit value may stand there, whether
/// or not it names a kind that [`TagType`] knows.
#[derive(Clone, Copy, Debug, PartialEq, Eq, Structural, Hash)]
pub struct TagTypeId(pub u32);

/// The kinds of tags that this crate decodes, and a variant for every other kind.
#[derive(Clone, Copy, Debug, PartialEq, Eq, Structural, Hash)]
pub enum TagType {
    /// The command line that the kernel was booted with.
    Cmdline,
    /// The framebuffer that the bootloader has set up.
    Framebuffer,
    /// A copy of the SMBIOS tables.
    Smbios,
    /// A kind that is not decoded here, with its number.
    Custom(u32),
}

impl TagType {
    /// The number that names this kind in a tag header.
    pub open spec fn spec_val(self) -> u32 {
        match self {
            TagType::Cmdline => 1,
            TagType::Framebuffer => 8,
            TagType::Smbios => 13,
            TagType::Custom(n) => n,
        }
    }

    /// The kind that the number `n` names. `Custom` is the answer only for a number that
    /// names none of the other kinds.
    pub open spec fn spec_from_val(n: u32) -> TagType {
        if n == 1 {
            TagType::Cmdline
        } else if n == 8 {
            TagType::Framebuffer
        } else if n == 13 {
            TagType::Smbios
        } else {
            TagType::Custom(n)
        }
    }

    /// The number that names this kind in a tag header.
    #[verifier::when_used_as_spec(spec_val)]
    pub fn val(self) -> (n: u32)
        ensures
            n == self.spec_val(),
    {
        match self {
            TagType::Cmdline => 1,
            TagType::Framebuffer => 8,
            TagType::Smbios => 13,
            TagType::Custom(n) => n,
        }
    }
}

impl TagTypeId {
    /// The identifier that holds the number `val`.
    pub fn new(val: u32) -> (id: TagTypeId)
        ensures
            id == TagTypeId(val),
    {
        TagTypeId(val)
    }
}

impl From<TagType> for u32 {
    fn from(kind: TagType) -> (n: u32) {
        kind.val()
    }
}

impl FromSpecImpl<TagType> for u32 {
    open spec fn obeys_from_spec() -> bool {
        true
    }

    open spec fn from_spec(kind: TagType) -> u32 {
        kind.spec_val()
    }
}

impl From<TagType> for TagTypeId {
    fn from(kind: TagType) -> (id: TagTypeId) {
        TagTypeId(kind.val())
    }
}

impl FromSpecImpl<TagType> for TagTypeId {
    open spec fn obeys_from_spec() -> bool {
        true
    }

    open spec fn from_spec(kind: TagType) -> TagTypeId {
        TagTypeId(kind.spec_val())
    }
}

impl From<TagTypeId> for TagType {
    fn from(id: TagTypeId) -> (kind: TagType) {
        let n: u32 = id.0;
        if n == 1 {
            TagType::Cmdline
        } else if n == 8 {
            TagType::Framebuffer
        } else if n == 13 {
            TagType::Smbios
        } else {
            TagType::Custom(n)
        }
    }
}

impl FromSpecImpl<TagTypeId> for TagType {
    open spec fn obeys_from_spec() -> bool {
        true
    }

    open spec fn from_spec(id: TagTypeId) -> TagType {
        TagType::spec_from_val(id.0)
    }
}

impl PartialEq<TagType> for TagTypeId {
    fn eq(&self, other: &TagType) -> (r: bool) {
        self.0 == other.val()
    }
}

impl PartialEqSpecImpl<TagType> for TagTypeId {
    open spec fn obeys_eq_spec() -> bool {
        true
    }

    open spec fn eq_spec(&self, other: &TagType) -> bool {
        self.0 == other.spec_val()
    }
}

} // verus!
