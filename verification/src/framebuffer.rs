//! The tag that describes the framebuffer.
//!
//! | bytes    | field                                                    |
//! |----------|----------------------------------------------------------|
//! | 0 to 7   | header                                                   |
//! | 8 to 15  | address of the framebuffer                               |
//! | 16 to 19 | pitch                                                    |
//! | 20 to 23 | width                                                    |
//! | 24 to 27 | height                                                   |
//! | 28       | bits per pixel                                           |
//! | 29       | selector: 0 indexed, 1 direct color, 2 text              |
//! | 30, 31   | reserved                                                 |
//! | 32 on    | indexed: number of colors (4 bytes), then 3 bytes a color |
//! |          | direct color: position and size of red, green and blue   |
//! |          | text: nothing                                            |
//!
//! The protocol text gives the selector one byte and lets the rest follow it at once. The
//! bootloaders in use write two bytes more behind the selector, and those are passed over
//! here. The decoder departs from the protocol text on purpose, to read what is written.

use crate::byte_order::{spec_u32, spec_u64, ByteOrder};
use crate::reader::Reader;
use crate::tag::{Tag, HEADER_SIZE};
use vstd::prelude::*;
use vstd::slice::slice_subrange;

verus! {

/// The number of bytes that one color of a palette takes.
pub const COLOR_SIZE: usize = 3;

/// Where one channel of a pixel lies: the position of its lowest bit and its width in bits.
#[derive(Clone, Copy, Debug, PartialEq, Eq, Structural)]
pub struct FramebufferField {
    /// The position of the lowest bit of the channel.
    pub position: u8,
    /// The number of bits of the channel.
    pub size: u8,
}

/// One color of a palette.
#[derive(Clone, Copy, Debug, PartialEq, Eq, Structural)]
pub struct FramebufferColor {
    /// The red part.
    pub red: u8,
    /// The green part.
    pub green: u8,
    /// The blue part.
    pub blue: u8,
}

/// The selector byte of a framebuffer tag holds a value that names no kind of framebuffer.
/// The value is kept.
#[derive(Clone, Copy, Debug, PartialEq, Eq, Structural)]
pub struct UnknownFramebufferType(pub u8);

/// The three kinds of framebuffer, as the selector byte names them.
#[derive(Clone, Copy, Debug, PartialEq, Eq, Structural)]
#[allow(clippy::upper_case_acronyms)]
pub enum FramebufferTypeId {
    /// Pixels are indices into a palette. The selector is 0.
    Indexed,
    /// Pixels hold a red, a green and a blue channel. The selector is 1.
    RGB,
    /// Text cells in place of pixels. The selector is 2.
    Text,
}

/// The kind that a selector byte names, or the byte itself if it names none.
pub open spec fn spec_type_id(selector: u8) -> Result<FramebufferTypeId, UnknownFramebufferType> {
    if selector == 0 {
        Ok(FramebufferTypeId::Indexed)
    } else if selector == 1 {
        Ok(FramebufferTypeId::RGB)
    } else if selector == 2 {
        Ok(FramebufferTypeId::Text)
    } else {
        Err(UnknownFramebufferType(selector))
    }
}

impl FramebufferTypeId {
    /// The kind that a selector byte names, or the byte itself if it names none.
    pub fn from_selector(selector: u8) -> (r: Result<FramebufferTypeId, UnknownFramebufferType>)
        ensures
            r == spec_type_id(selector),
    {
        match selector {
            0 => Ok(FramebufferTypeId::Indexed),
            1 => Ok(FramebufferTypeId::RGB),
            2 => Ok(FramebufferTypeId::Text),
            id => Err(UnknownFramebufferType(id)),
        }
    }
}

/// The colors that a run of bytes holds, three bytes to a color: red, green, blue. Bytes
/// left over at the end make no color.
pub open spec fn spec_palette(bytes: Seq<u8>) -> Seq<FramebufferColor> {
    Seq::new(
        (bytes.len() / COLOR_SIZE as nat) as nat,
        |i: int|
            FramebufferColor { red: bytes[3 * i], green: bytes[3 * i + 1], blue: bytes[3 * i + 2] },
    )
}

/// The palette of an indexed framebuffer: the colors as they lie in the tag, not copied.
#[derive(Clone, Copy, Debug, PartialEq, Eq)]
pub struct Palette<'a> {
    /// The bytes of the colors, three to a color.
    pub bytes: &'a [u8],
}

impl<'a> View for Palette<'a> {
    type V = Seq<FramebufferColor>;

    open spec fn view(&self) -> Seq<FramebufferColor> {
        spec_palette(self.bytes@)
    }
}

impl<'a> Palette<'a> {
    /// The number of colors.
    pub fn len(&self) -> (n: usize)
        ensures
            n == self@.len(),
    {
        self.bytes.len() / COLOR_SIZE
    }

    /// Whether the palette holds no color.
    pub fn is_empty(&self) -> (b: bool)
        ensures
            b <==> self@.len() == 0,
    {
        self.bytes.len() < COLOR_SIZE
    }

    /// The color at `index`, if the palette has that many.
    pub fn get(&self, index: usize) -> (r: Option<FramebufferColor>)
        ensures
            r == if index < self@.len() {
                Some(self@[index as int])
            } else {
                None::<FramebufferColor>
            },
    {
        if index < self.bytes.len() / COLOR_SIZE {
            let at = COLOR_SIZE * index;
            Some(
                FramebufferColor {
                    red: self.bytes[at],
                    green: self.bytes[at + 1],
                    blue: self.bytes[at + 2],
                },
            )
        } else {
            None
        }
    }
}

/// What a [`FramebufferType`] stands for.
#[allow(clippy::upper_case_acronyms)]
pub enum SpecFramebufferType {
    /// An indexed framebuffer with its colors.
    Indexed { palette: Seq<FramebufferColor> },
    /// A direct color framebuffer with the places of its channels.
    RGB { red: FramebufferField, green: FramebufferField, blue: FramebufferField },
    /// A text framebuffer.
    Text,
}

/// What a [`FramebufferTag`] stands for.
pub struct SpecFramebufferTag {
    /// The physical address of the framebuffer.
    pub address: u64,
    /// The number of bytes in a row.
    pub pitch: u32,
    /// The width.
    pub width: u32,
    /// The height.
    pub height: u32,
    /// The number of bits in a pixel.
    pub bpp: u8,
    /// The kind of framebuffer and what belongs to it.
    pub buffer_type: SpecFramebufferType,
}

/// The kind of framebuffer, with what the tag says of that kind.
#[derive(Clone, Copy, Debug, PartialEq, Eq)]
#[allow(clippy::upper_case_acronyms)]
pub enum FramebufferType<'a> {
    /// Pixels are indices into a palette.
    Indexed {
        /// The colors, as they lie in the tag.
        palette: Palette<'a>,
    },
    /// Pixels hold three channels.
    RGB {
        /// Where the red channel lies in a pixel.
        red: FramebufferField,
        /// Where the green channel lies in a pixel.
        green: FramebufferField,
        /// Where the blue channel lies in a pixel.
        blue: FramebufferField,
    },
    /// Text cells in place of pixels: width and height count characters, and the pitch is
    /// the number of bytes in a line of text.
    Text,
}

impl<'a> View for FramebufferType<'a> {
    type V = SpecFramebufferType;

    open spec fn view(&self) -> SpecFramebufferType {
        match *self {
            FramebufferType::Indexed { palette } => SpecFramebufferType::Indexed {
                palette: palette@,
            },
            FramebufferType::RGB { red, green, blue } => SpecFramebufferType::RGB {
                red,
                green,
                blue,
            },
            FramebufferType::Text => SpecFramebufferType::Text,
        }
    }
}

/// The framebuffer tag, decoded.
#[derive(Clone, Copy, Debug, PartialEq, Eq)]
pub struct FramebufferTag<'a> {
    /// The physical address of the framebuffer.
    pub address: u64,
    /// The number of bytes in a row.
    pub pitch: u32,
    /// The width, in pixels or in characters.
    pub width: u32,
    /// The height, in pixels or in characters.
    pub height: u32,
    /// The number of bits in a pixel.
    pub bpp: u8,
    /// The kind of framebuffer and what belongs to it.
    pub buffer_type: FramebufferType<'a>,
}

impl<'a> View for FramebufferTag<'a> {
    type V = SpecFramebufferTag;

    open spec fn view(&self) -> SpecFramebufferTag {
        SpecFramebufferTag {
            address: self.address,
            pitch: self.pitch,
            width: self.width,
            height: self.height,
            bpp: self.bpp,
            buffer_type: self.buffer_type@,
        }
    }
}

/// The number of colors that the tag of an indexed framebuffer announces.
pub open spec fn spec_color_count(bytes: Seq<u8>, order: ByteOrder) -> u32 {
    spec_u32(order, bytes.skip(32))
}

/// Whether every byte that decoding reads lies inside the tag. The selector byte is always
/// read. An indexed framebuffer adds the number of colors and the colors, a direct color
/// framebuffer the six bytes of its channels. The two reserved bytes are passed over unread.
pub open spec fn framebuffer_fits(bytes: Seq<u8>, order: ByteOrder) -> bool {
    &&& bytes.len() >= 30
    &&& bytes[29] == 0 ==> {
        &&& bytes.len() >= 36
        &&& bytes.len() >= 36 + COLOR_SIZE * spec_color_count(bytes, order)
    }
    &&& bytes[29] == 1 ==> bytes.len() >= 38
}

/// What the tag says of the kind of framebuffer that its selector names.
pub open spec fn spec_buffer_type(bytes: Seq<u8>, order: ByteOrder) -> Result<
    SpecFramebufferType,
    UnknownFramebufferType,
> {
    match spec_type_id(bytes[29]) {
        Ok(FramebufferTypeId::Indexed) => Ok(
            SpecFramebufferType::Indexed {
                palette: spec_palette(
                    bytes.subrange(36, 36 + COLOR_SIZE * spec_color_count(bytes, order)),
                ),
            },
        ),
        Ok(FramebufferTypeId::RGB) => Ok(
            SpecFramebufferType::RGB {
                red: FramebufferField { position: bytes[32], size: bytes[33] },
                green: FramebufferField { position: bytes[34], size: bytes[35] },
                blue: FramebufferField { position: bytes[36], size: bytes[37] },
            },
        ),
        Ok(FramebufferTypeId::Text) => Ok(SpecFramebufferType::Text),
        Err(e) => Err(e),
    }
}

/// What the bytes of a framebuffer tag decode to: the five fields behind the header and the
/// kind of framebuffer, or the selector if it names no kind.
pub open spec fn spec_framebuffer_tag(bytes: Seq<u8>, order: ByteOrder) -> Result<
    SpecFramebufferTag,
    UnknownFramebufferType,
> {
    match spec_buffer_type(bytes, order) {
        Ok(buffer_type) => Ok(
            SpecFramebufferTag {
                address: spec_u64(order, bytes.skip(8)),
                pitch: spec_u32(order, bytes.skip(16)),
                width: spec_u32(order, bytes.skip(20)),
                height: spec_u32(order, bytes.skip(24)),
                bpp: bytes[28],
                buffer_type,
            },
        ),
        Err(e) => Err(e),
    }
}

/// A decoded framebuffer tag with the tag taken as what it stands for.
pub open spec fn framebuffer_view(r: Result<FramebufferTag, UnknownFramebufferType>) -> Result<
    SpecFramebufferTag,
    UnknownFramebufferType,
> {
    match r {
        Ok(tag) => Ok(tag@),
        Err(e) => Err(e),
    }
}

/// Decodes a framebuffer tag whose bytes hold all that its selector asks for.
pub fn framebuffer_tag<'a>(tag: &Tag<'a>) -> (r: Result<FramebufferTag<'a>, UnknownFramebufferType>)
    requires
        framebuffer_fits(tag.bytes@, tag.order),
    ensures
        framebuffer_view(r) == spec_framebuffer_tag(tag.bytes@, tag.order),
{
    let mut reader = Reader::new(tag.bytes, tag.order);
    reader.skip(HEADER_SIZE);
    let address = reader.read_u64();
    let pitch = reader.read_u32();
    let width = reader.read_u32();
    let height = reader.read_u32();
    let bpp = reader.read_u8();
    let type_no = reader.read_u8();
    // The protocol text gives the selector one byte. The bootloaders write two bytes more.
    reader.skip(2);
    let buffer_type_id = match FramebufferTypeId::from_selector(type_no) {
        Ok(id) => id,
        Err(e) => {
            return Err(e);
        },
    };
    let buffer_type = match buffer_type_id {
        FramebufferTypeId::Indexed => {
            let num_colors = reader.read_u32();
            let start = reader.current_address();
            // The palette lies inside the bytes, so its end is a number that fits.
            assert(tag.bytes@.len() == tag.bytes.len());
            let palette = Palette {
                bytes: slice_subrange(tag.bytes, start, start + COLOR_SIZE * (num_colors as usize)),
            };
            FramebufferType::Indexed { palette }
        },
        FramebufferTypeId::RGB => {
            let red_pos = reader.read_u8();
            let red_mask = reader.read_u8();
            let green_pos = reader.read_u8();
            let green_mask = reader.read_u8();
            let blue_pos = reader.read_u8();
            let blue_mask = reader.read_u8();
            FramebufferType::RGB {
                red: FramebufferField { position: red_pos, size: red_mask },
                green: FramebufferField { position: green_pos, size: green_mask },
                blue: FramebufferField { position: blue_pos, size: blue_mask },
            }
        },
        FramebufferTypeId::Text => FramebufferType::Text,
    };
    Ok(FramebufferTag { address, pitch, width, height, bpp, buffer_type })
}

/// Whether every byte that decoding the tag reads lies inside it. A byte is looked at only
/// once it is known to be there.
pub fn framebuffer_tag_fits(tag: &Tag) -> (fits: bool)
    ensures
        fits == framebuffer_fits(tag.bytes@, tag.order),
{
    let len = tag.bytes.len();
    if len < 30 {
        return false;
    }
    let selector = tag.bytes[29];
    if selector == 0 {
        if len < 36 {
            return false;
        }
        let mut reader = Reader::new(tag.bytes, tag.order);
        reader.skip(32);
        let num_colors = reader.read_u32();
        (len - 36) / COLOR_SIZE >= num_colors as usize
    } else if selector == 1 {
        len >= 38
    } else {
        true
    }
}

/// Decodes a framebuffer tag, or says that the tag is cut short: that its bytes end before
/// all has been read that its selector asks for.
pub fn try_framebuffer_tag<'a>(tag: &Tag<'a>) -> (r: Option<
    Result<FramebufferTag<'a>, UnknownFramebufferType>,
>)
    ensures
        r is Some <==> framebuffer_fits(tag.bytes@, tag.order),
        r matches Some(decoded) ==> framebuffer_view(decoded) == spec_framebuffer_tag(
            tag.bytes@,
            tag.order,
        ),
{
    if framebuffer_tag_fits(tag) {
        Some(framebuffer_tag(tag))
    } else {
        None
    }
}

/// The palette of an indexed framebuffer holds as many colors as the tag announces, and its
/// color at `i` is made of the three bytes of the tag from `36 + 3 * i` on. Where the tag
/// announces no color, the palette is empty.
pub proof fn lemma_indexed_palette(bytes: Seq<u8>, order: ByteOrder)
    requires
        framebuffer_fits(bytes, order),
        bytes[29] == 0,
    ensures
        spec_buffer_type(bytes, order) is Ok,
        spec_buffer_type(bytes, order)->Ok_0 is Indexed,
        ({
            let palette = spec_buffer_type(bytes, order)->Ok_0->palette;
            &&& palette.len() == spec_color_count(bytes, order)
            &&& forall|i: int|
                0 <= i < palette.len() ==> #[trigger] palette[i] == (FramebufferColor {
                    red: bytes[36 + 3 * i],
                    green: bytes[36 + 3 * i + 1],
                    blue: bytes[36 + 3 * i + 2],
                })
        }),
{
}

/// Decoding the same header over the same bytes twice gives the same framebuffer: whatever
/// two runs of `framebuffer_tag` hand back stands for one value.
pub proof fn lemma_framebuffer_tag_idempotent(
    a: Tag,
    b: Tag,
    ra: Result<FramebufferTag, UnknownFramebufferType>,
    rb: Result<FramebufferTag, UnknownFramebufferType>,
)
    requires
        a@ == b@,
        call_ensures(framebuffer_tag, (&a,), ra),
        call_ensures(framebuffer_tag, (&b,), rb),
    ensures
        framebuffer_view(ra) == framebuffer_view(rb),
{
}

} // verus!
