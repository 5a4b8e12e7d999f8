//! Positional reader over a byte buffer.
//!
//! Every other component consumes input bytes only through a [`Cursor`],
//! which makes exact offset reporting possible whenever a read fails.

use vstd::prelude::*;

verus! {

/// Little-endian 32-bit value formed from four consecutive bytes.
pub open spec fn spec_le_u32(s: Seq<u8>, pos: int) -> u32
    recommends
        0 <= pos,
        pos + 4 <= s.len(),
{
    (s[pos] as u32 + s[pos + 1] as u32 * 0x100 + s[pos + 2] as u32 * 0x10000
        + s[pos + 3] as u32 * 0x1000000) as u32
}

/// Little-endian 16-bit value formed from two consecutive bytes.
pub open spec fn spec_le_u16(s: Seq<u8>, pos: int) -> u16
    recommends
        0 <= pos,
        pos + 2 <= s.len(),
{
    (s[pos] as u16 + s[pos + 1] as u16 * 0x100) as u16
}

/// Positional reader over a borrowed byte buffer.
pub struct Cursor<'i> {
    bytes: &'i [u8],
    pos: usize,
}

impl<'i> Cursor<'i> {
    /// The whole underlying buffer.
    pub closed spec fn data(&self) -> Seq<u8> {
        self.bytes@
    }

    /// The current read position.
    pub closed spec fn pos(&self) -> int {
        self.pos as int
    }

    /// The position never runs past the end of the buffer.
    pub open spec fn wf(&self) -> bool {
        0 <= self.pos() <= self.data().len()
    }

    pub fn new(bytes: &'i [u8]) -> (r: Cursor<'i>)
        ensures
            r.wf(),
            r.data() == bytes@,
            r.pos() == 0,
    {
        Cursor { bytes, pos: 0 }
    }

    /// Number of bytes not yet consumed.
    pub fn remaining(&self) -> (r: usize)
        requires
            self.wf(),
        ensures
            r == self.data().len() - self.pos(),
    {
        self.bytes.len() - self.pos
    }

    /// The current offset, for error reporting.
    pub fn offset(&self) -> (r: usize)
        ensures
            r == self.pos(),
    {
        self.pos
    }

    pub fn is_empty(&self) -> (r: bool)
        requires
            self.wf(),
        ensures
            r == (self.pos() == self.data().len()),
    {
        self.pos == self.bytes.len()
    }

    /// Read one byte and advance, or report that the buffer is exhausted.
    pub fn read_u8(&mut self) -> (r: Option<u8>)
        requires
            old(self).wf(),
        ensures
            final(self).wf(),
            final(self).data() == old(self).data(),
            r is Some <==> old(self).pos() < old(self).data().len(),
            r is Some ==> r->0 == old(self).data()[old(self).pos()]
                && final(self).pos() == old(self).pos() + 1,
            r is None ==> final(self).pos() == old(self).pos(),
    {
        if self.pos < self.bytes.len() {
            let b = self.bytes[self.pos];
            self.pos = self.pos + 1;
            Some(b)
        } else {
            None
        }
    }

    /// Read two little-endian bytes as a `u16`.
    pub fn read_u16_le(&mut self) -> (r: Option<u16>)
        requires
            old(self).wf(),
        ensures
            final(self).wf(),
            final(self).data() == old(self).data(),
            r is Some <==> old(self).pos() + 2 <= old(self).data().len(),
            r is Some ==> r->0 == spec_le_u16(old(self).data(), old(self).pos())
                && final(self).pos() == old(self).pos() + 2,
            r is None ==> final(self).pos() == old(self).pos(),
    {
        if self.bytes.len() - self.pos >= 2 {
            let b0 = self.bytes[self.pos] as u16;
            let b1 = self.bytes[self.pos + 1] as u16;
            self.pos = self.pos + 2;
            Some(b0 + b1 * 0x100)
        } else {
            None
        }
    }

    /// Read two little-endian bytes as an `i16` (two's complement).
    pub fn read_i16_le(&mut self) -> (r: Option<i16>)
        requires
            old(self).wf(),
        ensures
            final(self).wf(),
            final(self).data() == old(self).data(),
            r is Some <==> old(self).pos() + 2 <= old(self).data().len(),
            r is Some ==> r->0 == spec_le_u16(old(self).data(), old(self).pos()) as i16
                && final(self).pos() == old(self).pos() + 2,
            r is None ==> final(self).pos() == old(self).pos(),
    {
        match self.read_u16_le() {
            Some(v) => Some(#[verifier::truncate] (v as i16)),
            None => None,
        }
    }

    /// Read four little-endian bytes as a `u32`.
    pub fn read_u32_le(&mut self) -> (r: Option<u32>)
        requires
            old(self).wf(),
        ensures
            final(self).wf(),
            final(self).data() == old(self).data(),
            r is Some <==> old(self).pos() + 4 <= old(self).data().len(),
            r is Some ==> r->0 == spec_le_u32(old(self).data(), old(self).pos())
                && final(self).pos() == old(self).pos() + 4,
            r is None ==> final(self).pos() == old(self).pos(),
    {
        if self.bytes.len() - self.pos >= 4 {
            let b0 = self.bytes[self.pos] as u32;
            let b1 = self.bytes[self.pos + 1] as u32;
            let b2 = self.bytes[self.pos + 2] as u32;
            let b3 = self.bytes[self.pos + 3] as u32;
            self.pos = self.pos + 4;
            Some(b0 + b1 * 0x100 + b2 * 0x10000 + b3 * 0x1000000)
        } else {
            None
        }
    }

    /// Read four little-endian bytes as an `i32` (two's complement).
    pub fn read_i32_le(&mut self) -> (r: Option<i32>)
        requires
            old(self).wf(),
        ensures
            final(self).wf(),
            final(self).data() == old(self).data(),
            r is Some <==> old(self).pos() + 4 <= old(self).data().len(),
            r is Some ==> r->0 == spec_le_u32(old(self).data(), old(self).pos()) as i32
                && final(self).pos() == old(self).pos() + 4,
            r is None ==> final(self).pos() == old(self).pos(),
    {
        match self.read_u32_le() {
            Some(v) => Some(#[verifier::truncate] (v as i32)),
            None => None,
        }
    }

    /// Copy the next `n` bytes out and advance past them.
    pub fn read_bytes(&mut self, n: usize) -> (r: Option<Vec<u8>>)
        requires
            old(self).wf(),
        ensures
            final(self).wf(),
            final(self).data() == old(self).data(),
            r is Some <==> old(self).pos() + n <= old(self).data().len(),
            r is Some ==> r->0@ == old(self).data().subrange(
                old(self).pos(),
                old(self).pos() + n,
            ) && final(self).pos() == old(self).pos() + n,
            r is None ==> final(self).pos() == old(self).pos(),
    {
        if n <= self.bytes.len() - self.pos {
            let mut out: Vec<u8> = Vec::new();
            let mut i: usize = 0;
            while i < n
                invariant
                    self.wf(),
                    i <= n,
                    self.pos + n <= self.bytes@.len(),
                    self.pos + n <= usize::MAX,
                    out@ == self.bytes@.subrange(self.pos as int, self.pos + i),
                decreases n - i,
            {
                out.push(self.bytes[self.pos + i]);
                proof {
                    assert(out@ =~= self.bytes@.subrange(self.pos as int, self.pos + i + 1));
                }
                i = i + 1;
            }
            self.pos = self.pos + n;
            Some(out)
        } else {
            None
        }
    }

    /// Borrow the next `n` bytes of the underlying buffer and advance
    /// past them; nothing is copied.
    pub fn read_slice(&mut self, n: usize) -> (r: Option<&'i [u8]>)
        requires
            old(self).wf(),
        ensures
            final(self).wf(),
            final(self).data() == old(self).data(),
            r is Some <==> old(self).pos() + n <= old(self).data().len(),
            r is Some ==> r->0@ == old(self).data().subrange(
                old(self).pos(),
                old(self).pos() + n,
            ) && final(self).pos() == old(self).pos() + n,
            r is None ==> final(self).pos() == old(self).pos(),
    {
        if n <= self.bytes.len() - self.pos {
            let whole: &'i [u8] = self.bytes;
            let r = vstd::slice::slice_subrange(whole, self.pos, self.pos + n);
            self.pos = self.pos + n;
            Some(r)
        } else {
            None
        }
    }

    /// Hand back the bytes that remain, consuming them all.
    pub fn rest(&mut self) -> (r: Vec<u8>)
        requires
            old(self).wf(),
        ensures
            final(self).wf(),
            final(self).data() == old(self).data(),
            final(self).pos() == final(self).data().len(),
            r@ == old(self).data().subrange(old(self).pos(), old(self).data().len() as int),
    {
        let n = self.bytes.len() - self.pos;
        match self.read_bytes(n) {
            Some(v) => v,
            None => {
                // unreachable: n bytes always remain
                Vec::new()
            },
        }
    }
}

} // verus!
