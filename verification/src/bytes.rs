//! Little-endian primitive reads over a byte slice, with a sequential
//! cursor like the one the decoder drags through a mesh file.

use vstd::prelude::*;

verus! {

/// The little-endian 16-bit value stored at offset `i` of `b`.
pub open spec fn le16(b: Seq<u8>, i: int) -> u16 {
    (b[i] + 256 * (b[i + 1] as int)) as u16
}

/// The little-endian 32-bit value stored at offset `i` of `b`.
pub open spec fn le32(b: Seq<u8>, i: int) -> u32 {
    (b[i] + 0x100 * (b[i + 1] as int) + 0x1_0000 * (b[i + 2] as int) + 0x100_0000 * (b[i
        + 3] as int)) as u32
}

/// A read cursor over a byte buffer. Reads either return the value at the
/// current position and advance, or report that the buffer is too short
/// and leave the position unchanged.
pub struct ByteCursor<'a> {
    pub data: &'a [u8],
    pub pos: usize,
}

impl<'a> ByteCursor<'a> {
    pub open spec fn wf(&self) -> bool {
        self.pos <= self.data@.len()
    }

    pub fn new(data: &'a [u8]) -> (c: Self)
        ensures
            c.data@ == data@,
            c.pos == 0,
            c.wf(),
    {
        ByteCursor { data, pos: 0 }
    }

    pub fn read_u8(&mut self) -> (r: Option<u8>)
        requires
            old(self).wf(),
        ensures
            final(self).data@ == old(self).data@,
            final(self).wf(),
            old(self).pos + 1 <= old(self).data@.len() ==> r == Some(old(self).data@[old(self).pos as int])
                && final(self).pos == old(self).pos + 1,
            old(self).pos + 1 > old(self).data@.len() ==> r is None && final(self).pos == old(self).pos,
    {
        if self.data.len() - self.pos >= 1 {
            let b = self.data[self.pos];
            self.pos = self.pos + 1;
            Some(b)
        } else {
            None
        }
    }

    pub fn read_u16_le(&mut self) -> (r: Option<u16>)
        requires
            old(self).wf(),
        ensures
            final(self).data@ == old(self).data@,
            final(self).wf(),
            old(self).pos + 2 <= old(self).data@.len() ==> r == Some(
                le16(old(self).data@, old(self).pos as int),
            ) && final(self).pos == old(self).pos + 2,
            old(self).pos + 2 > old(self).data@.len() ==> r is None && final(self).pos == old(self).pos,
    {
        if self.data.len() - self.pos >= 2 {
            let b0 = self.data[self.pos];
            let b1 = self.data[self.pos + 1];
            self.pos = self.pos + 2;
            Some((b0 as u16) + 256 * (b1 as u16))
        } else {
            None
        }
    }

    pub fn read_u32_le(&mut self) -> (r: Option<u32>)
        requires
            old(self).wf(),
        ensures
            final(self).data@ == old(self).data@,
            final(self).wf(),
            old(self).pos + 4 <= old(self).data@.len() ==> r == Some(
                le32(old(self).data@, old(self).pos as int),
            ) && final(self).pos == old(self).pos + 4,
            old(self).pos + 4 > old(self).data@.len() ==> r is None && final(self).pos == old(self).pos,
    {
        if self.data.len() - self.pos >= 4 {
            let b0 = self.data[self.pos];
            let b1 = self.data[self.pos + 1];
            let b2 = self.data[self.pos + 2];
            let b3 = self.data[self.pos + 3];
            self.pos = self.pos + 4;
            Some((b0 as u32) + 0x100 * (b1 as u32) + 0x1_0000 * (b2 as u32) + 0x100_0000 * (
            b3 as u32))
        } else {
            None
        }
    }
}

} // verus!
