//! Byte orders, and the unsigned integers that a run of bytes spells in each of them.

use vstd::prelude::*;

verus! {

/// The order in which the bytes of a multi-byte integer lie in memory.
#[derive(Clone, Copy, Debug, PartialEq, Eq, Structural)]
pub enum ByteOrder {
    /// Least significant byte first.
    Little,
    /// Most significant byte first.
    Big,
}

/// The 16-bit integer that the first two bytes of `b` spell.
pub open spec fn spec_u16(order: ByteOrder, b: Seq<u8>) -> u16
    recommends
        b.len() >= 2,
{
    match order {
        ByteOrder::Little => (b[0] + 0x100 * b[1]) as u16,
        ByteOrder::Big => (b[1] + 0x100 * b[0]) as u16,
    }
}

/// The 32-bit integer that the first four bytes of `b` spell.
pub open spec fn spec_u32(order: ByteOrder, b: Seq<u8>) -> u32
    recommends
        b.len() >= 4,
{
    match order {
        ByteOrder::Little => (b[0] + 0x100 * b[1] + 0x1_0000 * b[2] + 0x100_0000 * b[3]) as u32,
        ByteOrder::Big => (b[3] + 0x100 * b[2] + 0x1_0000 * b[1] + 0x100_0000 * b[0]) as u32,
    }
}

/// The 64-bit integer that the first eight bytes of `b` spell.
pub open spec fn spec_u64(order: ByteOrder, b: Seq<u8>) -> u64
    recommends
        b.len() >= 8,
{
    match order {
        ByteOrder::Little => (b[0] + 0x100 * b[1] + 0x1_0000 * b[2] + 0x100_0000 * b[3]
            + 0x1_0000_0000 * b[4] + 0x100_0000_0000 * b[5] + 0x1_0000_0000_0000 * b[6]
            + 0x100_0000_0000_0000 * b[7]) as u64,
        ByteOrder::Big => (b[7] + 0x100 * b[6] + 0x1_0000 * b[5] + 0x100_0000 * b[4]
            + 0x1_0000_0000 * b[3] + 0x100_0000_0000 * b[2] + 0x1_0000_0000_0000 * b[1]
            + 0x100_0000_0000_0000 * b[0]) as u64,
    }
}

/// What `u16::from_ne_bytes` makes of two bytes: their little-endian reading on a
/// little-endian target, their big-endian reading on a big-endian one. The contract does not
/// say which of the two the target is.
#[verifier::external_body]
fn u16_from_ne_bytes(b0: u8, b1: u8) -> (v: u16)
    ensures
        v == spec_u16(ByteOrder::Little, seq![b0, b1]) || v == spec_u16(
            ByteOrder::Big,
            seq![b0, b1],
        ),
{
    u16::from_ne_bytes([b0, b1])
}

impl ByteOrder {
    /// The byte order of the machine that runs this code: how it reads the bytes `01 00`,
    /// told apart by [`ByteOrder::from_probe`]. Nothing is promised of the machine's answer.
    pub fn native() -> (order: ByteOrder) {
        ByteOrder::from_probe(u16_from_ne_bytes(1, 0))
    }

    /// The order in which the bytes `01 00` spell `probe`: least significant byte first where
    /// they spell 1, most significant byte first where they spell anything else.
    pub open spec fn spec_from_probe(probe: u16) -> ByteOrder {
        if probe == 1 {
            ByteOrder::Little
        } else {
            ByteOrder::Big
        }
    }

    /// The order in which the bytes `01 00` spell `probe`. Where `probe` is one of the two
    /// numbers that those bytes can spell, they spell it in the order that comes back.
    pub fn from_probe(probe: u16) -> (order: ByteOrder)
        ensures
            order == ByteOrder::spec_from_probe(probe),
            probe == 0x0001 || probe == 0x0100 ==> spec_u16(order, seq![1u8, 0u8]) == probe,
    {
        if probe == 1 {
            ByteOrder::Little
        } else {
            ByteOrder::Big
        }
    }

    /// Joins two bytes that lie in this order into a 16-bit integer.
    pub fn join_u16(self, first: u8, second: u8) -> (v: u16)
        ensures
            self == ByteOrder::Little ==> v == first + 0x100 * second,
            self == ByteOrder::Big ==> v == second + 0x100 * first,
    {
        match self {
            ByteOrder::Little => first as u16 + 0x100 * (second as u16),
            ByteOrder::Big => second as u16 + 0x100 * (first as u16),
        }
    }

    /// Joins two 16-bit halves that lie in this order into a 32-bit integer.
    pub fn join_u32(self, first: u16, second: u16) -> (v: u32)
        ensures
            self == ByteOrder::Little ==> v == first + 0x1_0000 * second,
            self == ByteOrder::Big ==> v == second + 0x1_0000 * first,
    {
        match self {
            ByteOrder::Little => first as u32 + 0x1_0000 * (second as u32),
            ByteOrder::Big => second as u32 + 0x1_0000 * (first as u32),
        }
    }

    /// Joins two 32-bit halves that lie in this order into a 64-bit integer.
    pub fn join_u64(self, first: u32, second: u32) -> (v: u64)
        ensures
            self == ByteOrder::Little ==> v == first + 0x1_0000_0000 * second,
            self == ByteOrder::Big ==> v == second + 0x1_0000_0000 * first,
    {
        match self {
            ByteOrder::Little => first as u64 + 0x1_0000_0000 * (second as u64),
            ByteOrder::Big => second as u64 + 0x1_0000_0000 * (first as u64),
        }
    }
}

} // verus!
