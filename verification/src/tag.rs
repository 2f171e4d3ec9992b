//! The header that every tag starts with, and the contract by which a header is taken as a
//! tag of one kind.
//!
//! A tag is a run of bytes: a 32-bit kind, a 32-bit size that counts the whole tag with its
//! header, and a payload whose layout the kind decides.

use crate::byte_order::{spec_u32, ByteOrder};
use crate::reader::Reader;
use crate::tag_type::TagTypeId;
use vstd::prelude::*;
use vstd::slice::slice_subrange;

verus! {

/// The number of bytes in a tag header.
pub const HEADER_SIZE: usize = 8;

/// What a [`Tag`] stands for: the two header fields, and the bytes of the whole tag.
pub struct SpecTag {
    /// The kind, from the first header field.
    pub typ: TagTypeId,
    /// The size of the tag in bytes, from the second header field.
    pub size: u32,
    /// The bytes of the tag, header first.
    pub bytes: Seq<u8>,
    /// The order of the bytes of each integer in the tag.
    pub order: ByteOrder,
}

impl SpecTag {
    /// A tag is as long as its header says, at least as long as a header, and its two fields
    /// are what its first eight bytes spell.
    pub open spec fn wf(self) -> bool {
        &&& self.size >= HEADER_SIZE
        &&& self.bytes.len() == self.size
        &&& self.typ == TagTypeId(spec_u32(self.order, self.bytes))
        &&& self.size == spec_u32(self.order, self.bytes.skip(4))
    }

    /// The bytes of the tag that follow its first `prefix` bytes.
    pub open spec fn payload(self, prefix: nat) -> Seq<u8> {
        self.bytes.subrange(prefix as int, self.size as int)
    }
}

/// The tag at the start of `bytes`. There is one if `bytes` holds a header and the size in it
/// covers the header and does not reach past the end of `bytes`.
pub open spec fn spec_tag(bytes: Seq<u8>, order: ByteOrder) -> Option<SpecTag> {
    let size = spec_u32(order, bytes.skip(4));
    if bytes.len() >= HEADER_SIZE && HEADER_SIZE <= size <= bytes.len() {
        Some(SpecTag { typ: TagTypeId(spec_u32(order, bytes)), size, bytes: bytes.take(size as int), order })
    } else {
        None
    }
}

/// A tag header, bound to the bytes of its tag.
#[derive(Clone, Copy, Debug, PartialEq, Eq)]
pub struct Tag<'a> {
    /// The kind of the tag.
    pub typ: TagTypeId,
    /// The size of the tag in bytes, header included.
    pub size: u32,
    /// The bytes of the tag, header first.
    pub bytes: &'a [u8],
    /// The order of the bytes of each integer in the tag.
    pub order: ByteOrder,
}

impl<'a> View for Tag<'a> {
    type V = SpecTag;

    open spec fn view(&self) -> SpecTag {
        SpecTag { typ: self.typ, size: self.size, bytes: self.bytes@, order: self.order }
    }
}

/// A kind of tag: how many bytes its fixed fields take, and how a header is taken as a tag of
/// this kind.
pub trait TagTrait<'a>: Sized + View {
    /// The number of bytes that the fixed fields of this kind take, the header among them.
    spec fn spec_metadata_prefix_size() -> nat;

    /// What `tag` stands for when it is taken as a tag of this kind.
    spec fn spec_cast(tag: SpecTag) -> Self::V;

    /// The payload of a tag of this kind: the bytes that follow its fixed fields.
    spec fn spec_payload(view: Self::V) -> Seq<u8>;

    /// The number of bytes that the fixed fields of this kind take, the header among them.
    fn metadata_prefix_size() -> (n: usize)
        ensures
            n == Self::spec_metadata_prefix_size(),
    ;

    /// The length of the payload that follows the fixed fields: what is left of the size in
    /// the header once the fixed fields are taken off.
    fn dst_size(base_tag: &Tag<'a>) -> (n: usize)
        requires
            base_tag.size >= Self::spec_metadata_prefix_size(),
        ensures
            n == base_tag.size - Self::spec_metadata_prefix_size(),
    ;

    /// Takes `tag` as a tag of this kind. Nothing is copied but the fixed fields.
    fn from_base_tag(tag: &Tag<'a>) -> (view: Self)
        requires
            tag.wf(),
            tag.size >= Self::spec_metadata_prefix_size(),
        ensures
            view@ == Self::spec_cast(tag@),
            Self::spec_payload(view@) == tag@.payload(Self::spec_metadata_prefix_size()),
    ;
}

impl<'a> Tag<'a> {
    /// Whether the fields of this header agree with its bytes.
    pub open spec fn wf(&self) -> bool {
        self@.wf()
    }

    /// Whether this header can be taken as a tag of kind `T`: its size covers the fixed fields
    /// of that kind.
    pub open spec fn castable<T: TagTrait<'a>>(&self) -> bool {
        self.wf() && self.size >= T::spec_metadata_prefix_size()
    }

    /// Reads the header at the start of `bytes`, the integers in it taken in the given order,
    /// and binds it to as many bytes as its size says.
    pub fn with_order(bytes: &'a [u8], order: ByteOrder) -> (r: Option<Tag<'a>>)
        ensures
            match r {
                Some(tag) => spec_tag(bytes@, order) == Some(tag@) && tag.wf(),
                None => spec_tag(bytes@, order) is None,
            },
    {
        if bytes.len() < HEADER_SIZE {
            return None;
        }
        let mut reader = Reader::new(bytes, order);
        let typ = reader.read_u32();
        let size = reader.read_u32();
        if size as usize >= HEADER_SIZE && size as usize <= bytes.len() {
            let tag = Tag { typ: TagTypeId(typ), size, bytes: slice_subrange(bytes, 0, size as usize), order };
            Some(tag)
        } else {
            None
        }
    }

    /// Reads the header at the start of `bytes`, the integers in it taken in the byte order of
    /// the machine that runs this code. Which order that is, the tag that comes back says;
    /// [`Tag::with_order`] says what is read in each.
    pub fn new(bytes: &'a [u8]) -> (r: Option<Tag<'a>>)
        ensures
            r matches Some(tag) ==> spec_tag(bytes@, tag.order) == Some(tag@) && tag.wf(),
            r is None ==> spec_tag(bytes@, ByteOrder::Little) is None || spec_tag(
                bytes@,
                ByteOrder::Big,
            ) is None,
    {
        Tag::with_order(bytes, ByteOrder::native())
    }

    /// Takes this header as a tag of kind `T`.
    pub fn cast_tag<T: TagTrait<'a>>(&self) -> (view: T)
        requires
            self.castable::<T>(),
        ensures
            view@ == T::spec_cast(self@),
            T::spec_payload(view@) == self@.payload(T::spec_metadata_prefix_size()),
            T::spec_payload(view@).len() == self.size - T::spec_metadata_prefix_size(),
    {
        T::from_base_tag(self)
    }

    /// Takes this header as a tag of kind `T` if its size covers the fixed fields of that
    /// kind, and says so if it does not.
    pub fn try_cast_tag<T: TagTrait<'a>>(&self) -> (r: Option<T>)
        requires
            self.wf(),
        ensures
            r is None <==> self.size < T::spec_metadata_prefix_size(),
            r matches Some(view) ==> {
                &&& view@ == T::spec_cast(self@)
                &&& T::spec_payload(view@) == self@.payload(T::spec_metadata_prefix_size())
                &&& T::spec_payload(view@).len() == self.size - T::spec_metadata_prefix_size()
            },
    {
        if self.size as usize >= T::metadata_prefix_size() {
            Some(T::from_base_tag(self))
        } else {
            None
        }
    }
}

/// No header whose size is less than the fixed fields of a kind can be taken as a tag of that
/// kind: `cast_tag` admits no such call.
pub proof fn lemma_short_tag_is_not_castable<'a, T: TagTrait<'a>>(tag: Tag<'a>)
    requires
        tag.size < T::spec_metadata_prefix_size(),
    ensures
        !tag.castable::<T>(),
{
}

/// Taking the same header over the same bytes as a tag of kind `T` twice gives the same tag:
/// whatever two runs of `cast_tag` hand back stands for one value.
pub proof fn lemma_cast_tag_idempotent<'a, T: TagTrait<'a>>(a: Tag<'a>, b: Tag<'a>, va: T, vb: T)
    requires
        a@ == b@,
        call_ensures(Tag::cast_tag::<T>, (&a,), va),
        call_ensures(Tag::cast_tag::<T>, (&b,), vb),
    ensures
        va@ == vb@,
{
}

} // verus!
