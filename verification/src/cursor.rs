//! Sequential reader over an immutable byte buffer.
//!
//! Every read either succeeds and moves the position past what it read, or
//! fails with [`Error::MalformedBuffer`] and leaves the cursor as it was. No
//! read looks past the end of the buffer.

use vstd::prelude::*;
use vstd::slice::slice_subrange;
use byteorder::{ByteOrder, LittleEndian};
use crate::error::{Error, Site};

verus! {

/// The value of two bytes read as a little-endian 16-bit integer.
pub open spec fn le16(b0: u8, b1: u8) -> u16 {
    (b0 as int + 256 * (b1 as int)) as u16
}

/// The value of four bytes read as a little-endian 32-bit integer.
pub open spec fn le32(b0: u8, b1: u8, b2: u8, b3: u8) -> u32 {
    (b0 as int + 256 * (b1 as int) + 65536 * (b2 as int) + 16777216 * (b3 as int)) as u32
}

/// The error of a read at `pos` that the buffer cannot serve.
pub open spec fn truncated(site: Site, pos: int) -> Error {
    Error::MalformedBuffer { site, offset: pos as usize }
}

/// The byte at `pos`.
pub open spec fn u8_at(s: Seq<u8>, pos: int, site: Site) -> Result<u8, Error> {
    if 0 <= pos < s.len() {
        Ok(s[pos])
    } else {
        Err(truncated(site, pos))
    }
}

/// The little-endian 16-bit integer in the two bytes at `pos`.
pub open spec fn u16_le_at(s: Seq<u8>, pos: int, site: Site) -> Result<u16, Error> {
    if 0 <= pos && pos + 2 <= s.len() {
        Ok(le16(s[pos], s[pos + 1]))
    } else {
        Err(truncated(site, pos))
    }
}

/// The little-endian 32-bit integer in the four bytes at `pos`.
pub open spec fn u32_le_at(s: Seq<u8>, pos: int, site: Site) -> Result<u32, Error> {
    if 0 <= pos && pos + 4 <= s.len() {
        Ok(le32(s[pos], s[pos + 1], s[pos + 2], s[pos + 3]))
    } else {
        Err(truncated(site, pos))
    }
}

/// The run of `n` bytes at `pos`.
pub open spec fn bytes_at(s: Seq<u8>, pos: int, n: nat, site: Site) -> Result<Seq<u8>, Error> {
    if 0 <= pos && pos + n <= s.len() {
        Ok(s.subrange(pos, pos + n))
    } else {
        Err(truncated(site, pos))
    }
}

/// How many bytes stand between `pos` and the first zero byte at or after
/// it; `None` where the buffer holds no zero byte from `pos` on.
pub open spec fn nul_distance(s: Seq<u8>, pos: int) -> Option<nat>
    decreases s.len() - pos,
{
    if pos < 0 || pos >= s.len() {
        None
    } else if s[pos] == 0 {
        Some(0)
    } else {
        match nul_distance(s, pos + 1) {
            Some(d) => Some(d + 1),
            None => None,
        }
    }
}

/// The bytes from `pos` up to the first zero byte, which is not part of the
/// run. A read of it consumes the run and the zero byte.
pub open spec fn nul_run_at(s: Seq<u8>, pos: int, site: Site) -> Result<Seq<u8>, Error> {
    match nul_distance(s, pos) {
        Some(d) => Ok(s.subrange(pos, pos + d)),
        None => Err(truncated(site, pos)),
    }
}

/// A distance of `d` says that the byte `d` places on is zero and that none
/// before it is.
pub proof fn lemma_nul_distance(s: Seq<u8>, pos: int)
    ensures
        match nul_distance(s, pos) {
            Some(d) => {
                &&& 0 <= pos
                &&& pos + d < s.len()
                &&& s[pos + d] == 0
                &&& forall|i: int| pos <= i < pos + d ==> s[i] != 0
            },
            None => forall|i: int| 0 <= pos <= i < s.len() ==> s[i] != 0,
        },
    decreases s.len() - pos,
{
    if 0 <= pos < s.len() && s[pos] != 0 {
        lemma_nul_distance(s, pos + 1);
    }
}

/// The first zero byte at or after `pos` fixes the distance.
pub proof fn lemma_nul_distance_is(s: Seq<u8>, pos: int, d: nat)
    requires
        0 <= pos,
        pos + d < s.len(),
        s[pos + d] == 0,
        forall|i: int| pos <= i < pos + d ==> s[i] != 0,
    ensures
        nul_distance(s, pos) == Some(d),
    decreases d,
{
    if d > 0 {
        lemma_nul_distance_is(s, pos + 1, (d - 1) as nat);
    }
}

/// `byteorder::ByteOrder::read_u16` of `LittleEndian`: the first two bytes of
/// `buf` as a little-endian integer. It panics on a shorter slice.
#[verifier::external_body]
fn le_read_u16(buf: &[u8]) -> (r: u16)
    requires
        buf@.len() >= 2,
    ensures
        r == le16(buf@[0], buf@[1]),
{
    LittleEndian::read_u16(buf)
}

/// `byteorder::ByteOrder::read_u32` of `LittleEndian`: the first four bytes
/// of `buf` as a little-endian integer. It panics on a shorter slice.
#[verifier::external_body]
fn le_read_u32(buf: &[u8]) -> (r: u32)
    requires
        buf@.len() >= 4,
    ensures
        r == le32(buf@[0], buf@[1], buf@[2], buf@[3]),
{
    LittleEndian::read_u32(buf)
}

/// A read position in a borrowed byte buffer.
#[derive(Clone, Copy, Debug)]
pub struct Cursor<'a> {
    buf: &'a [u8],
    pos: usize,
}

impl<'a> Cursor<'a> {
    /// The position never lies beyond the end of the buffer.
    #[verifier::type_invariant]
    spec fn inv(self) -> bool {
        self.pos <= self.buf@.len()
    }

    /// The whole buffer that the cursor reads from.
    pub closed spec fn bytes(&self) -> Seq<u8> {
        self.buf@
    }

    /// The number of bytes before the read position.
    pub closed spec fn offset(&self) -> int {
        self.pos as int
    }

    /// A cursor at the start of `buf`.
    pub fn new(buf: &'a [u8]) -> (cur: Self)
        ensures
            cur.bytes() == buf@,
            cur.offset() == 0,
    {
        Cursor { buf, pos: 0 }
    }

    /// The read position, counted in bytes from the start of the buffer.
    pub fn position(&self) -> (pos: usize)
        ensures
            pos == self.offset(),
            0 <= self.offset() <= self.bytes().len(),
    {
        proof {
            use_type_invariant(self);
        }
        self.pos
    }

    /// The number of bytes from the read position to the end of the buffer.
    pub fn remaining(&self) -> (n: usize)
        ensures
            n == self.bytes().len() - self.offset(),
    {
        proof {
            use_type_invariant(self);
        }
        self.buf.len() - self.pos
    }

    /// Reads one byte.
    pub fn read_u8(&mut self, site: Site) -> (r: Result<u8, Error>)
        ensures
            r == u8_at(old(self).bytes(), old(self).offset(), site),
            final(self).bytes() == old(self).bytes(),
            final(self).offset() == old(self).offset() + (if r is Ok { 1int } else { 0 }),
    {
        proof {
            use_type_invariant(&*self);
        }
        if self.pos < self.buf.len() {
            let b = self.buf[self.pos];
            self.pos = self.pos + 1;
            Ok(b)
        } else {
            Err(Error::MalformedBuffer { site, offset: self.pos })
        }
    }

    /// Reads a 16-bit integer stored in little-endian order.
    pub fn read_u16_le(&mut self, site: Site) -> (r: Result<u16, Error>)
        ensures
            r == u16_le_at(old(self).bytes(), old(self).offset(), site),
            final(self).bytes() == old(self).bytes(),
            final(self).offset() == old(self).offset() + (if r is Ok { 2int } else { 0 }),
    {
        proof {
            use_type_invariant(&*self);
        }
        if self.buf.len() - self.pos >= 2 {
            let v = le_read_u16(slice_subrange(self.buf, self.pos, self.pos + 2));
            self.pos = self.pos + 2;
            Ok(v)
        } else {
            Err(Error::MalformedBuffer { site, offset: self.pos })
        }
    }

    /// Reads a 32-bit integer stored in little-endian order.
    pub fn read_u32_le(&mut self, site: Site) -> (r: Result<u32, Error>)
        ensures
            r == u32_le_at(old(self).bytes(), old(self).offset(), site),
            final(self).bytes() == old(self).bytes(),
            final(self).offset() == old(self).offset() + (if r is Ok { 4int } else { 0 }),
    {
        proof {
            use_type_invariant(&*self);
        }
        if self.buf.len() - self.pos >= 4 {
            let v = le_read_u32(slice_subrange(self.buf, self.pos, self.pos + 4));
            self.pos = self.pos + 4;
            Ok(v)
        } else {
            Err(Error::MalformedBuffer { site, offset: self.pos })
        }
    }

    /// Reads a run of `n` raw bytes.
    pub fn read_bytes(&mut self, n: usize, site: Site) -> (r: Result<Vec<u8>, Error>)
        ensures
            match bytes_at(old(self).bytes(), old(self).offset(), n as nat, site) {
                Ok(run) => r is Ok && r->Ok_0@ == run && final(self).offset() == old(self).offset() + n,
                Err(e) => r == Err::<Vec<u8>, Error>(e) && final(self).offset() == old(self).offset(),
            },
            final(self).bytes() == old(self).bytes(),
    {
        proof {
            use_type_invariant(&*self);
        }
        if self.buf.len() - self.pos >= n {
            let mut run: Vec<u8> = Vec::new();
            let start: usize = self.pos;
            let mut i: usize = 0;
            while i < n
                invariant
                    i <= n,
                    start + n <= self.buf@.len() <= usize::MAX,
                    run@ == self.buf@.subrange(start as int, start + i),
                decreases n - i,
            {
                run.push(self.buf[start + i]);
                i = i + 1;
            }
            self.pos = start + n;
            Ok(run)
        } else {
            Err(Error::MalformedBuffer { site, offset: self.pos })
        }
    }

    /// Reads the bytes up to the next zero byte, and consumes that byte too.
    /// Where no zero byte is left in the buffer, the read fails.
    pub fn read_until_nul(&mut self, site: Site) -> (r: Result<Vec<u8>, Error>)
        ensures
            match nul_run_at(old(self).bytes(), old(self).offset(), site) {
                Ok(run) => r is Ok && r->Ok_0@ == run && final(self).offset() == old(self).offset()
                    + run.len() + 1,
                Err(e) => r == Err::<Vec<u8>, Error>(e) && final(self).offset() == old(self).offset(),
            },
            final(self).bytes() == old(self).bytes(),
    {
        proof {
            use_type_invariant(&*self);
        }
        let start: usize = self.pos;
        let mut run: Vec<u8> = Vec::new();
        let mut i: usize = start;
        while i < self.buf.len() && self.buf[i] != 0
            invariant
                start <= i <= self.buf@.len(),
                run@ == self.buf@.subrange(start as int, i as int),
                forall|j: int| start <= j < i ==> self.buf@[j] != 0,
            decreases self.buf@.len() - i,
        {
            run.push(self.buf[i]);
            i = i + 1;
        }
        proof {
            lemma_nul_distance(self.buf@, start as int);
            if i < self.buf@.len() {
                lemma_nul_distance_is(self.buf@, start as int, (i - start) as nat);
            }
        }
        if i < self.buf.len() {
            self.pos = i + 1;
            Ok(run)
        } else {
            Err(Error::MalformedBuffer { site, offset: start })
        }
    }
}

} // verus!
