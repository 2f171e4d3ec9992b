//! A cursor that reads packed, unaligned integers out of a borrowed byte region, one after
//! the other.

use crate::byte_order::{spec_u16, spec_u32, spec_u64, ByteOrder};
use vstd::prelude::*;

verus! {

/// A position in a byte region, together with the byte order of the integers stored there.
///
/// The cursor lives for one decoding pass. Moving it never fails; reading asks of the caller
/// that the bytes to be read lie inside the region.
#[derive(Clone, Copy, Debug)]
pub struct Reader<'a> {
    /// The region that is read.
    pub bytes: &'a [u8],
    /// The distance of the next unread byte from the start of the region.
    pub off: usize,
    /// The order of the bytes of each integer in the region.
    pub order: ByteOrder,
}

impl<'a> Reader<'a> {
    /// Whether the next `n` bytes lie inside the region.
    pub open spec fn has(&self, n: int) -> bool {
        self.off + n <= self.bytes@.len()
    }

    /// The bytes from the cursor to the end of the region.
    pub open spec fn rest(&self) -> Seq<u8> {
        self.bytes@.skip(self.off as int)
    }

    /// A cursor at the start of `bytes`.
    pub fn new(bytes: &'a [u8], order: ByteOrder) -> (reader: Reader<'a>)
        ensures
            reader.bytes == bytes,
            reader.off == 0,
            reader.order == order,
    {
        Reader { bytes, off: 0, order }
    }

    /// Moves the cursor forward by `n` bytes without looking at them.
    pub fn skip(&mut self, n: usize)
        requires
            old(self).off + n <= usize::MAX,
        ensures
            final(self).off == old(self).off + n,
            final(self).bytes == old(self).bytes,
            final(self).order == old(self).order,
    {
        self.off = self.off + n;
    }

    /// Reads the next byte.
    pub fn read_u8(&mut self) -> (v: u8)
        requires
            old(self).has(1),
        ensures
            v == old(self).bytes@[old(self).off as int],
            final(self).off == old(self).off + 1,
            final(self).bytes == old(self).bytes,
            final(self).order == old(self).order,
    {
        let v = self.bytes[self.off];
        self.off = self.off + 1;
        v
    }

    /// Reads the next two bytes as one integer.
    pub fn read_u16(&mut self) -> (v: u16)
        requires
            old(self).has(2),
        ensures
            v == spec_u16(old(self).order, old(self).rest()),
            final(self).off == old(self).off + 2,
            final(self).bytes == old(self).bytes,
            final(self).order == old(self).order,
    {
        let first = self.read_u8();
        let second = self.read_u8();
        self.order.join_u16(first, second)
    }

    /// Reads the next four bytes as one integer.
    pub fn read_u32(&mut self) -> (v: u32)
        requires
            old(self).has(4),
        ensures
            v == spec_u32(old(self).order, old(self).rest()),
            final(self).off == old(self).off + 4,
            final(self).bytes == old(self).bytes,
            final(self).order == old(self).order,
    {
        let first = self.read_u16();
        let second = self.read_u16();
        self.order.join_u32(first, second)
    }

    /// Reads the next eight bytes as one integer.
    pub fn read_u64(&mut self) -> (v: u64)
        requires
            old(self).has(8),
        ensures
            v == spec_u64(old(self).order, old(self).rest()),
            final(self).off == old(self).off + 8,
            final(self).bytes == old(self).bytes,
            final(self).order == old(self).order,
    {
        let first = self.read_u32();
        let second = self.read_u32();
        self.order.join_u64(first, second)
    }

    /// The distance of the next unread byte from the start of the region.
    pub fn current_address(&self) -> (address: usize)
        ensures
            address == self.off,
    {
        self.off
    }
}

} // verus!
