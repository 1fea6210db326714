use vstd::prelude::*;

use crate::encoding::{be16, be32, sbe16};
use crate::error::FontError;

verus! {

/// Sequential big-endian reader over an exclusively owned, in-memory byte
/// source, with absolute seek and rewind.
///
/// Every read either returns the value spelled by the bytes at the current
/// position and advances past them, or fails with
/// [`FontError::TruncatedInput`] and leaves the cursor unchanged.
pub struct ByteCursor {
    data: Vec<u8>,
    pos: usize,
}

impl ByteCursor {
    /// The whole byte source.
    pub closed spec fn bytes(self) -> Seq<u8> {
        self.data@
    }

    /// The current read position.
    pub closed spec fn position(self) -> int {
        self.pos as int
    }

    /// The position stays within the source: never negative, never past the
    /// end.
    pub open spec fn wf(self) -> bool {
        0 <= self.position() <= self.bytes().len()
    }

    /// Take ownership of a byte source, positioned at its start.
    pub fn new(data: Vec<u8>) -> (c: ByteCursor)
        ensures
            c.wf(),
            c.bytes() == data@,
            c.position() == 0,
    {
        ByteCursor { data, pos: 0 }
    }

    /// How many bytes the source holds in all.
    pub fn source_len(&self) -> (n: usize)
        ensures
            n == self.bytes().len(),
    {
        self.data.len()
    }

    /// The current read position, for reporting where a parse stopped.
    pub fn current_position(&self) -> (p: usize)
        ensures
            p == self.position(),
    {
        self.pos
    }

    /// Reposition the cursor at `offset` bytes from the start of the source;
    /// a target past the end of the source is refused.
    pub fn seek(&mut self, offset: usize) -> (r: Result<(), FontError>)
        requires
            old(self).wf(),
        ensures
            final(self).wf(),
            final(self).bytes() == old(self).bytes(),
            offset <= old(self).bytes().len() ==> r == Ok::<(), FontError>(())
                && final(self).position() == offset,
            offset > old(self).bytes().len() ==> r == Err::<(), FontError>(
                FontError::InvalidOffset,
            ) && *final(self) == *old(self),
    {
        if offset <= self.data.len() {
            self.pos = offset;
            Ok(())
        } else {
            Err(FontError::InvalidOffset)
        }
    }

    /// Reposition the cursor at the start of the source.
    pub fn rewind(&mut self)
        requires
            old(self).wf(),
        ensures
            final(self).wf(),
            final(self).bytes() == old(self).bytes(),
            final(self).position() == 0,
    {
        self.pos = 0;
    }

    /// Read one byte.
    pub fn read_u8(&mut self) -> (r: Result<u8, FontError>)
        requires
            old(self).wf(),
        ensures
            final(self).wf(),
            final(self).bytes() == old(self).bytes(),
            old(self).position() + 1 <= old(self).bytes().len() ==> r == Ok::<u8, FontError>(
                old(self).bytes()[old(self).position()],
            ) && final(self).position() == old(self).position() + 1,
            old(self).position() + 1 > old(self).bytes().len() ==> r == Err::<u8, FontError>(
                FontError::TruncatedInput,
            ) && *final(self) == *old(self),
    {
        if self.pos < self.data.len() {
            let b = self.data[self.pos];
            self.pos = self.pos + 1;
            Ok(b)
        } else {
            Err(FontError::TruncatedInput)
        }
    }

    /// Read an unsigned big-endian 16-bit value.
    pub fn read_u16(&mut self) -> (r: Result<u16, FontError>)
        requires
            old(self).wf(),
        ensures
            final(self).wf(),
            final(self).bytes() == old(self).bytes(),
            old(self).position() + 2 <= old(self).bytes().len() ==> (r matches Ok(v) && v == be16(
                old(self).bytes(),
                old(self).position(),
            )) && final(self).position() == old(self).position() + 2,
            old(self).position() + 2 > old(self).bytes().len() ==> r == Err::<u16, FontError>(
                FontError::TruncatedInput,
            ) && *final(self) == *old(self),
    {
        if self.data.len() - self.pos >= 2 {
            let hi = self.data[self.pos];
            let lo = self.data[self.pos + 1];
            self.pos = self.pos + 2;
            Ok((hi as u16) * 0x100 + (lo as u16))
        } else {
            Err(FontError::TruncatedInput)
        }
    }

    /// Read an unsigned big-endian 32-bit value.
    pub fn read_u32(&mut self) -> (r: Result<u32, FontError>)
        requires
            old(self).wf(),
        ensures
            final(self).wf(),
            final(self).bytes() == old(self).bytes(),
            old(self).position() + 4 <= old(self).bytes().len() ==> (r matches Ok(v) && v == be32(
                old(self).bytes(),
                old(self).position(),
            )) && final(self).position() == old(self).position() + 4,
            old(self).position() + 4 > old(self).bytes().len() ==> r == Err::<u32, FontError>(
                FontError::TruncatedInput,
            ) && *final(self) == *old(self),
    {
        if self.data.len() - self.pos >= 4 {
            let b0 = self.data[self.pos];
            let b1 = self.data[self.pos + 1];
            let b2 = self.data[self.pos + 2];
            let b3 = self.data[self.pos + 3];
            self.pos = self.pos + 4;
            Ok(
                (b0 as u32) * 0x1000000 + (b1 as u32) * 0x10000 + (b2 as u32) * 0x100 + (
                b3 as u32),
            )
        } else {
            Err(FontError::TruncatedInput)
        }
    }

    /// Read a signed big-endian 16-bit value (two's complement).
    pub fn read_i16(&mut self) -> (r: Result<i16, FontError>)
        requires
            old(self).wf(),
        ensures
            final(self).wf(),
            final(self).bytes() == old(self).bytes(),
            old(self).position() + 2 <= old(self).bytes().len() ==> (r matches Ok(v) && v == sbe16(
                old(self).bytes(),
                old(self).position(),
            )) && final(self).position() == old(self).position() + 2,
            old(self).position() + 2 > old(self).bytes().len() ==> r == Err::<i16, FontError>(
                FontError::TruncatedInput,
            ) && *final(self) == *old(self),
    {
        match self.read_u16() {
            Ok(v) => if v >= 0x8000 {
                Ok(((v - 0x8000) as i16) - 0x7fff - 1)
            } else {
                Ok(v as i16)
            },
            Err(e) => Err(e),
        }
    }

    /// Read a 4-character table tag: four bytes, one per character, packed
    /// big-endian into a 32-bit tag code.
    pub fn read_tag(&mut self) -> (r: Result<u32, FontError>)
        requires
            old(self).wf(),
        ensures
            final(self).wf(),
            final(self).bytes() == old(self).bytes(),
            old(self).position() + 4 <= old(self).bytes().len() ==> (r matches Ok(v) && v == be32(
                old(self).bytes(),
                old(self).position(),
            )) && final(self).position() == old(self).position() + 4,
            old(self).position() + 4 > old(self).bytes().len() ==> r == Err::<u32, FontError>(
                FontError::TruncatedInput,
            ) && *final(self) == *old(self),
    {
        self.read_u32()
    }
}

} // verus!
