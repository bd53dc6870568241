use vstd::prelude::*;

use crate::error::Error;

verus! {

/// The outcome of decoding a value at a position of a byte sequence: the value
/// and the position just after it, or the error that stopped the decoding.
pub type Decoded<T> = Result<(T, int), Error>;

/// Whether `n` bytes can be read at position `p` of `d`.
pub open spec fn fits(d: Seq<u8>, p: int, n: int) -> bool {
    0 <= p && p + n <= d.len()
}

/// The little-endian unsigned value of the two bytes at `p`.
pub open spec fn u16_le(d: Seq<u8>, p: int) -> int {
    d[p] + 256 * d[p + 1]
}

/// The little-endian unsigned value of the four bytes at `p`.
pub open spec fn u32_le(d: Seq<u8>, p: int) -> int {
    u16_le(d, p) + 0x1_0000 * u16_le(d, p + 2)
}

/// The little-endian unsigned value of the eight bytes at `p`.
pub open spec fn u64_le(d: Seq<u8>, p: int) -> int {
    u32_le(d, p) + 0x1_0000_0000 * u32_le(d, p + 4)
}

/// The two's complement reading of a 32-bit unsigned value.
pub open spec fn signed32(u: int) -> int {
    if u >= 0x8000_0000 {
        u - 0x1_0000_0000
    } else {
        u
    }
}

/// The two's complement reading of a 64-bit unsigned value.
pub open spec fn signed64(u: int) -> int {
    if u >= 0x8000_0000_0000_0000 {
        u - 0x1_0000_0000_0000_0000
    } else {
        u
    }
}

pub open spec fn decode_u16(d: Seq<u8>, p: int) -> Decoded<u16> {
    if fits(d, p, 2) {
        Ok((u16_le(d, p) as u16, p + 2))
    } else {
        Err(Error::ParseFailure)
    }
}

pub open spec fn decode_u32(d: Seq<u8>, p: int) -> Decoded<u32> {
    if fits(d, p, 4) {
        Ok((u32_le(d, p) as u32, p + 4))
    } else {
        Err(Error::ParseFailure)
    }
}

pub open spec fn decode_i32(d: Seq<u8>, p: int) -> Decoded<i32> {
    if fits(d, p, 4) {
        Ok((signed32(u32_le(d, p)) as i32, p + 4))
    } else {
        Err(Error::ParseFailure)
    }
}

pub open spec fn decode_i64(d: Seq<u8>, p: int) -> Decoded<i64> {
    if fits(d, p, 8) {
        Ok((signed64(u64_le(d, p)) as i64, p + 8))
    } else {
        Err(Error::ParseFailure)
    }
}

/// A boolean stored as a 32-bit integer: any non-zero value is true.
pub open spec fn decode_bool32(d: Seq<u8>, p: int) -> Decoded<bool> {
    if fits(d, p, 4) {
        Ok((u32_le(d, p) != 0, p + 4))
    } else {
        Err(Error::ParseFailure)
    }
}

/// `n` raw bytes; a short read is a stream failure.
pub open spec fn decode_bytes(d: Seq<u8>, p: int, n: int) -> Decoded<Seq<u8>> {
    if fits(d, p, n) {
        Ok((d.subrange(p, p + n), p + n))
    } else {
        Err(Error::Io)
    }
}

/// A move of the cursor by `delta`: it may not leave the range of 64-bit positions.
pub open spec fn seek_by(p: int, delta: int) -> Result<int, Error> {
    if 0 <= p + delta <= u64::MAX {
        Ok(p + delta)
    } else {
        Err(Error::Io)
    }
}

/// Whether an executable result and the cursor position after it agree with a decoding.
pub open spec fn yields<T>(r: Result<T, Error>, end: u64, expected: Decoded<T>) -> bool {
    match expected {
        Ok((v, q)) => r == Ok::<T, Error>(v) && end as int == q,
        Err(e) => r == Err::<T, Error>(e),
    }
}

/// An in-memory byte source with a cursor. The cursor may stand anywhere in
/// the 64-bit range, also past the end of the data; reads there fail.
#[derive(Debug)]
pub struct ByteReader {
    pub data: Vec<u8>,
    pub position: u64,
}

impl ByteReader {
    pub open spec fn bytes(&self) -> Seq<u8> {
        self.data@
    }

    pub open spec fn pos(&self) -> int {
        self.position as int
    }

    pub fn new(data: Vec<u8>) -> (r: ByteReader)
        ensures
            r.bytes() == data@,
            r.pos() == 0,
    {
        ByteReader { data, position: 0 }
    }

    pub fn stream_position(&self) -> (r: u64)
        ensures
            r == self.position,
    {
        self.position
    }

    pub fn seek_start(&mut self, offset: u64)
        ensures
            final(self).bytes() == old(self).bytes(),
            final(self).position == offset,
    {
        self.position = offset;
    }

    pub fn seek_relative(&mut self, delta: i64) -> (r: Result<(), Error>)
        ensures
            final(self).bytes() == old(self).bytes(),
            match seek_by(old(self).pos(), delta as int) {
                Ok(q) => r is Ok && final(self).pos() == q,
                Err(e) => r == Err::<(), Error>(e),
            },
            r is Err ==> final(self).pos() == old(self).pos(),
    {
        if delta >= 0 {
            let d = delta as u64;
            if self.position <= u64::MAX - d {
                self.position = self.position + d;
                Ok(())
            } else {
                Err(Error::Io)
            }
        } else {
            let back: u64 = if delta == i64::MIN {
                0x8000_0000_0000_0000u64
            } else {
                (-delta) as u64
            };
            if self.position >= back {
                self.position = self.position - back;
                Ok(())
            } else {
                Err(Error::Io)
            }
        }
    }

    /// Whether `n` bytes are left at the cursor.
    fn has(&self, n: u64) -> (r: bool)
        ensures
            r == fits(self.bytes(), self.pos(), n as int),
            self.bytes().len() <= usize::MAX,
    {
        let len = self.data.len() as u64;
        self.position <= len && len - self.position >= n
    }

    pub fn read_u16(&mut self) -> (r: Result<u16, Error>)
        ensures
            final(self).bytes() == old(self).bytes(),
            yields(r, final(self).position, decode_u16(old(self).bytes(), old(self).pos())),
            r is Err ==> final(self).pos() == old(self).pos(),
    {
        if !self.has(2) {
            return Err(Error::ParseFailure);
        }
        let p = self.position as usize;
        let v = self.data[p] as u16 + (self.data[p + 1] as u16) * 256;
        self.position = self.position + 2;
        Ok(v)
    }

    pub fn read_u32(&mut self) -> (r: Result<u32, Error>)
        ensures
            final(self).bytes() == old(self).bytes(),
            yields(r, final(self).position, decode_u32(old(self).bytes(), old(self).pos())),
            r is Err ==> final(self).pos() == old(self).pos(),
    {
        if !self.has(4) {
            return Err(Error::ParseFailure);
        }
        let p = self.position as usize;
        let lo = self.data[p] as u32 + (self.data[p + 1] as u32) * 256;
        let hi = self.data[p + 2] as u32 + (self.data[p + 3] as u32) * 256;
        let v = lo + hi * 0x1_0000;
        self.position = self.position + 4;
        Ok(v)
    }

    pub fn read_i32(&mut self) -> (r: Result<i32, Error>)
        ensures
            final(self).bytes() == old(self).bytes(),
            yields(r, final(self).position, decode_i32(old(self).bytes(), old(self).pos())),
            r is Err ==> final(self).pos() == old(self).pos(),
    {
        let u = self.read_u32()?;
        if u >= 0x8000_0000 {
            Ok(((u - 0x8000_0000) as i32) - 0x7fff_ffff - 1)
        } else {
            Ok(u as i32)
        }
    }

    pub fn read_bool32(&mut self) -> (r: Result<bool, Error>)
        ensures
            final(self).bytes() == old(self).bytes(),
            yields(r, final(self).position, decode_bool32(old(self).bytes(), old(self).pos())),
            r is Err ==> final(self).pos() == old(self).pos(),
    {
        let u = self.read_u32()?;
        Ok(u != 0)
    }

    pub fn read_i64(&mut self) -> (r: Result<i64, Error>)
        ensures
            final(self).bytes() == old(self).bytes(),
            yields(r, final(self).position, decode_i64(old(self).bytes(), old(self).pos())),
            r is Err ==> final(self).pos() == old(self).pos(),
    {
        if !self.has(8) {
            return Err(Error::ParseFailure);
        }
        let lo = self.read_u32()?;
        let hi = self.read_u32()?;
        let u = lo as u64 + (hi as u64) * 0x1_0000_0000;
        if u >= 0x8000_0000_0000_0000 {
            Ok(((u - 0x8000_0000_0000_0000) as i64) - 0x7fff_ffff_ffff_ffff - 1)
        } else {
            Ok(u as i64)
        }
    }

    /// Reads exactly `n` bytes.
    pub fn read_bytes(&mut self, n: u64) -> (r: Result<Vec<u8>, Error>)
        ensures
            final(self).bytes() == old(self).bytes(),
            match decode_bytes(old(self).bytes(), old(self).pos(), n as int) {
                Ok((b, q)) => r matches Ok(v) && v@ == b && final(self).pos() == q,
                Err(e) => r == Err::<Vec<u8>, Error>(e),
            },
            r is Err ==> final(self).pos() == old(self).pos(),
    {
        if !self.has(n) {
            return Err(Error::Io);
        }
        let start = self.position as usize;
        let end = start + n as usize;
        let mut out: Vec<u8> = Vec::new();
        let mut i = start;
        while i < end
            invariant
                start <= i <= end,
                end <= self.data@.len(),
                out@ == self.data@.subrange(start as int, i as int),
            decreases end - i,
        {
            out.push(self.data[i]);
            i = i + 1;
            proof {
                assert(out@ =~= self.data@.subrange(start as int, i as int));
            }
        }
        self.position = self.position + n;
        Ok(out)
    }
}

} // verus!
