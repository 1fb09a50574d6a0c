//! Sequential little-endian primitive decoder over a borrowed byte slice.

use vstd::prelude::*;

verus! {

/// The value of the two bytes at `i` read as a little-endian integer.
pub open spec fn le_u16(b: Seq<u8>, i: int) -> int
    recommends
        0 <= i,
        i + 2 <= b.len(),
{
    b[i] + 0x100 * b[i + 1]
}

/// The value of the four bytes at `i` read as a little-endian integer.
pub open spec fn le_u32(b: Seq<u8>, i: int) -> int
    recommends
        0 <= i,
        i + 4 <= b.len(),
{
    le_u16(b, i) + 0x1_0000 * le_u16(b, i + 2)
}

/// The value of the eight bytes at `i` read as a little-endian integer.
pub open spec fn le_u64(b: Seq<u8>, i: int) -> int
    recommends
        0 <= i,
        i + 8 <= b.len(),
{
    le_u32(b, i) + 0x1_0000_0000 * le_u32(b, i + 4)
}

/// Reads unsigned little-endian integers from a byte slice, strictly
/// forward, advancing an internal offset. One cursor decodes exactly one
/// fixed-layout structure; every read demands that enough bytes remain.
pub struct BytesReader<'a> {
    pub bytes: &'a [u8],
    pub offset: usize,
}

impl<'a> BytesReader<'a> {
    /// A cursor positioned at the start of `bytes`.
    pub fn new(bytes: &'a [u8]) -> (r: Self)
        ensures
            r.bytes@ == bytes@,
            r.offset == 0,
    {
        Self { bytes, offset: 0 }
    }

    /// A cursor positioned at `offset` within `bytes`.
    pub fn new_at(bytes: &'a [u8], offset: usize) -> (r: Self)
        ensures
            r.bytes@ == bytes@,
            r.offset == offset,
    {
        Self { bytes, offset }
    }

    pub fn read_u8(&mut self) -> (r: u8)
        requires
            old(self).offset + 1 <= old(self).bytes@.len(),
        ensures
            final(self).bytes@ == old(self).bytes@,
            final(self).offset == old(self).offset + 1,
            r == old(self).bytes@[old(self).offset as int],
    {
        let value = self.bytes[self.offset];
        self.offset = self.offset + 1;
        value
    }

    pub fn read_u16(&mut self) -> (r: u16)
        requires
            old(self).offset + 2 <= old(self).bytes@.len(),
        ensures
            final(self).bytes@ == old(self).bytes@,
            final(self).offset == old(self).offset + 2,
            r == le_u16(old(self).bytes@, old(self).offset as int),
    {
        let b0 = self.bytes[self.offset];
        let b1 = self.bytes[self.offset + 1];
        self.offset = self.offset + 2;
        b0 as u16 + 0x100 * (b1 as u16)
    }

    pub fn read_u32(&mut self) -> (r: u32)
        requires
            old(self).offset + 4 <= old(self).bytes@.len(),
        ensures
            final(self).bytes@ == old(self).bytes@,
            final(self).offset == old(self).offset + 4,
            r == le_u32(old(self).bytes@, old(self).offset as int),
    {
        let lo = self.read_u16();
        let hi = self.read_u16();
        lo as u32 + 0x1_0000 * (hi as u32)
    }

    pub fn read_u64(&mut self) -> (r: u64)
        requires
            old(self).offset + 8 <= old(self).bytes@.len(),
        ensures
            final(self).bytes@ == old(self).bytes@,
            final(self).offset == old(self).offset + 8,
            r == le_u64(old(self).bytes@, old(self).offset as int),
    {
        let lo = self.read_u32();
        let hi = self.read_u32();
        lo as u64 + 0x1_0000_0000 * (hi as u64)
    }
}

} // verus!
