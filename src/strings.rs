use vstd::prelude::*;
use vstd::utf8::{decode_utf8, valid_utf8};

use crate::archive::Archive;
use crate::error::Error;
use crate::stream::{Decoded, decode_bytes, decode_i32, decode_u32, fits, seek_by, u16_le};

verus! {

/// The UTF-8 bytes for one UCS-2 code unit: one byte below 0x80, two below
/// 0x800, three otherwise.
pub open spec fn unit_utf8(c: u16) -> Seq<u8> {
    if c < 0x80 {
        seq![c as u8]
    } else if c < 0x800 {
        seq![(0xC0 + c / 64) as u8, (0x80 + c % 64) as u8]
    } else {
        seq![(0xE0 + c / 4096) as u8, (0x80 + (c / 64) % 64) as u8, (0x80 + c % 64) as u8]
    }
}

/// The UTF-8 bytes for a run of UCS-2 code units, unit by unit.
pub open spec fn ucs2_utf8(units: Seq<u16>) -> Seq<u8>
    decreases units.len(),
{
    if units.len() == 0 {
        seq![]
    } else {
        ucs2_utf8(units.drop_last()) + unit_utf8(units.last())
    }
}

/// `n` little-endian 16-bit code units at `p`; a short read is a decoding failure.
pub open spec fn decode_units(d: Seq<u8>, p: int, n: int) -> Decoded<Seq<u16>> {
    if fits(d, p, 2 * n) {
        Ok((Seq::new(n as nat, |i: int| u16_le(d, p + 2 * i) as u16), p + 2 * n))
    } else {
        Err(Error::ParseFailure)
    }
}

/// The raw UTF-8 bytes of a string whose length field, already read, is `len`
/// (non-zero): single bytes for a positive length, UCS-2 units for a negative
/// one, in both cases followed by a terminator that is skipped.
pub open spec fn decode_string_bytes(d: Seq<u8>, p: int, len: int) -> Decoded<Seq<u8>> {
    if len < 0 {
        match decode_units(d, p, -len - 1) {
            Err(e) => Err(e),
            Ok((units, q)) => match seek_by(q, 2) {
                Err(e) => Err(e),
                Ok(q2) => Ok((ucs2_utf8(units), q2)),
            },
        }
    } else {
        match decode_bytes(d, p, len - 1) {
            Err(e) => Err(e),
            Ok((b, q)) => match seek_by(q, 1) {
                Err(e) => Err(e),
                Ok(q2) => Ok((b, q2)),
            },
        }
    }
}

/// A length-prefixed string: length zero is the empty string; otherwise the
/// bytes must form valid UTF-8.
pub open spec fn decode_string(d: Seq<u8>, p: int) -> Decoded<Seq<char>> {
    match decode_i32(d, p) {
        Err(e) => Err(e),
        Ok((len, at1)) => if len == 0 {
            Ok((seq![], at1))
        } else {
            match decode_string_bytes(d, at1, len as int) {
                Err(e) => Err(e),
                Ok((b, q)) => if valid_utf8(b) {
                    Ok((decode_utf8(b), q))
                } else {
                    Err(Error::InvalidString)
                },
            }
        },
    }
}

/// Where the cursor stands once a string has been read, whether the read
/// succeeded or not: a failed step leaves the cursor where that step began,
/// and a string that is not valid UTF-8 has still been read through.
pub open spec fn string_end(d: Seq<u8>, p: int) -> int {
    match decode_i32(d, p) {
        Err(_) => p,
        Ok((len, at1)) => if len == 0 {
            at1
        } else if len < 0 {
            match decode_units(d, at1, -len - 1) {
                Err(_) => at1,
                Ok((_units, q)) => match seek_by(q, 2) {
                    Err(_) => q,
                    Ok(q2) => q2,
                },
            }
        } else {
            match decode_bytes(d, at1, len - 1) {
                Err(_) => at1,
                Ok((_b, q)) => match seek_by(q, 1) {
                    Err(_) => q,
                    Ok(q2) => q2,
                },
            }
        },
    }
}

/// The position after a string, found from its length field alone.
pub open spec fn skip_string(d: Seq<u8>, p: int) -> Result<int, Error> {
    match decode_i32(d, p) {
        Err(e) => Err(e),
        Ok((len, at1)) => if len < 0 {
            seek_by(at1, -2 * len)
        } else {
            seek_by(at1, len as int)
        },
    }
}

/// A name-table entry that carries two 16-bit hashes after the string.
pub open spec fn decode_name_entry_with_hash(d: Seq<u8>, p: int) -> Decoded<Seq<char>> {
    match decode_string(d, p) {
        Err(e) => Err(e),
        Ok((s, q)) => match decode_u32(d, q) {
            Err(e) => Err(e),
            Ok((_hash, q2)) => Ok((s, q2)),
        },
    }
}

pub open spec fn skip_name_entry_with_hash(d: Seq<u8>, p: int) -> Result<int, Error> {
    match skip_string(d, p) {
        Err(e) => Err(e),
        Ok(q) => seek_by(q, 4),
    }
}

/// Whether a string result and the cursor after it agree with a decoding.
pub open spec fn string_yields(r: Result<String, Error>, end: u64, expected: Decoded<Seq<char>>) -> bool {
    match expected {
        Ok((s, q)) => r matches Ok(v) && v@ == s && end as int == q,
        Err(e) => r == Err::<String, Error>(e),
    }
}

/// Relies on String::from_utf8: it succeeds exactly when the bytes are valid
/// UTF-8, and the string then holds the characters that they encode.
#[verifier::external_body]
fn string_from_utf8(bytes: Vec<u8>) -> (r: Option<String>)
    ensures
        r is Some <==> valid_utf8(bytes@),
        r matches Some(s) ==> s@ == decode_utf8(bytes@),
{
    String::from_utf8(bytes).ok()
}

/// Transcodes UCS-2 code units to UTF-8 bytes, unit by unit.
pub fn ucs2_to_utf8(units: &Vec<u16>) -> (r: Vec<u8>)
    ensures
        r@ == ucs2_utf8(units@),
{
    let mut out: Vec<u8> = Vec::new();
    let mut i: usize = 0;
    while i < units.len()
        invariant
            i <= units@.len(),
            out@ == ucs2_utf8(units@.subrange(0, i as int)),
        decreases units.len() - i,
    {
        let c = units[i];
        if c < 0x80 {
            out.push(c as u8);
        } else if c < 0x800 {
            out.push((0xC0 + c / 64) as u8);
            out.push((0x80 + c % 64) as u8);
        } else {
            out.push((0xE0 + c / 4096) as u8);
            out.push((0x80 + (c / 64) % 64) as u8);
            out.push((0x80 + c % 64) as u8);
        }
        proof {
            let s = units@.subrange(0, i as int + 1);
            assert(s.drop_last() =~= units@.subrange(0, i as int));
            assert(s.last() == c);
            assert(out@ =~= ucs2_utf8(s));
        }
        i = i + 1;
    }
    proof {
        assert(units@.subrange(0, units@.len() as int) =~= units@);
    }
    out
}

fn read_units(ar: &mut Archive, n: u64) -> (r: Result<Vec<u16>, Error>)
    requires
        n <= 0x8000_0000,
    ensures
        final(ar).ctx() == old(ar).ctx(),
        r is Err ==> final(ar).pos() == old(ar).pos(),
        match decode_units(old(ar).ctx().data, old(ar).pos(), n as int) {
            Ok((u, q)) => r matches Ok(v) && v@ == u && final(ar).pos() == q,
            Err(e) => r == Err::<Vec<u16>, Error>(e),
        },
{
    let ghost d = ar.ctx().data;
    let ghost p = ar.pos();
    let len = ar.reader.data.len() as u64;
    let at = ar.reader.position;
    if !(at <= len && len - at >= 2 * n) {
        return Err(Error::ParseFailure);
    }
    let mut units: Vec<u16> = Vec::new();
    let mut i: u64 = 0;
    while i < n
        invariant
            i <= n,
            ar.ctx() == old(ar).ctx(),
            d == ar.ctx().data,
            p == old(ar).pos(),
            ar.pos() == p + 2 * i,
            fits(d, p, 2 * n),
            units@ =~= Seq::new(i as nat, |k: int| u16_le(d, p + 2 * k) as u16),
        decreases n - i,
    {
        assert(fits(d, p + 2 * i, 2));
        let c = match ar.read_u16() {
            Ok(c) => c,
            Err(e) => {
                return Err(e);
            },
        };
        units.push(c);
        i = i + 1;
        assert(units@ =~= Seq::new(i as nat, |k: int| u16_le(d, p + 2 * k) as u16));
    }
    Ok(units)
}

/// Reads a length-prefixed string at the cursor.
pub fn parse_string(ar: &mut Archive) -> (r: Result<String, Error>)
    ensures
        final(ar).ctx() == old(ar).ctx(),
        final(ar).pos() == string_end(old(ar).ctx().data, old(ar).pos()),
        string_yields(r, final(ar).reader.position, decode_string(old(ar).ctx().data, old(ar).pos())),
{
    let length = ar.read_i32()?;
    if length == 0 {
        return Ok(String::new());
    }
    let bytes = if length < 0 {
        let n: u64 = ((-(length as i64)) - 1) as u64;
        let units = read_units(ar, n)?;
        ar.seek_relative(2)?;
        ucs2_to_utf8(&units)
    } else {
        let b = ar.read_bytes((length - 1) as u64)?;
        ar.seek_relative(1)?;
        b
    };
    match string_from_utf8(bytes) {
        Some(s) => Ok(s),
        None => Err(Error::InvalidString),
    }
}

/// Moves the cursor past a string without decoding it.
pub fn skip_string_at_cursor(ar: &mut Archive) -> (r: Result<(), Error>)
    ensures
        final(ar).ctx() == old(ar).ctx(),
        match skip_string(old(ar).ctx().data, old(ar).pos()) {
            Ok(q) => r is Ok && final(ar).pos() == q,
            Err(e) => r == Err::<(), Error>(e),
        },
{
    let length = ar.read_i32()?;
    let delta: i64 = if length < 0 {
        -(length as i64) * 2
    } else {
        length as i64
    };
    ar.seek_relative(delta)
}

} // verus!
