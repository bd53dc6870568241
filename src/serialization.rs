use vstd::prelude::*;

use crate::archive::{Archive, Context};
use crate::error::Error;
use crate::records::{
    ObjectExport, ObjectImport, UnrealClassImport, UnrealObjectExport, decode_export,
    decode_import,
};
use crate::stream::{Decoded, decode_i32, seek_by, yields};
use crate::strings::{
    decode_name_entry_with_hash, decode_string, parse_string, string_end, skip_name_entry_with_hash,
    skip_string, skip_string_at_cursor, string_yields,
};

verus! {

/// Size of a GUID.
pub const GUID_SIZE: u64 = 16;

/// Size of a custom-version record in the optimized layout.
pub const CUSTOM_VERSION_SIZE: u64 = 20;

/// Size of the fixed part of a custom-version record in the GUID layout.
pub const GUID_CUSTOM_VERSION_PREFIX_SIZE: u64 = 20;

/// Size of a generation record.
pub const GENERATION_INFO_SIZE: u64 = 8;

/// Size of a compressed-chunk record.
pub const COMPRESSED_CHUNK_SIZE: u64 = 16;

/// A signed 32-bit count or offset taken as unsigned 64-bit, as a sign-extending
/// conversion does: negative values become very large.
pub open spec fn widen(v: i32) -> u64 {
    if v < 0 {
        (v + 0x1_0000_0000_0000_0000) as u64
    } else {
        v as u64
    }
}

pub fn widen_i32(v: i32) -> (r: u64)
    ensures
        r == widen(v),
{
    if v < 0 {
        u64::MAX - ((-(v as i64) - 1) as u64)
    } else {
        v as u64
    }
}

/// The views of a sequence of strings.
pub open spec fn views(v: Seq<String>) -> Seq<Seq<char>> {
    v.map_values(|s: String| s@)
}

/// `n` elements decoded one after another from `p`; the first failure ends the run.
pub open spec fn decode_run<T>(elem: spec_fn(int) -> Decoded<T>, n: nat, p: int) -> Decoded<Seq<T>>
    decreases n,
{
    if n == 0 {
        Ok((seq![], p))
    } else {
        match decode_run(elem, (n - 1) as nat, p) {
            Err(e) => Err(e),
            Ok((vs, q)) => match elem(q) {
                Err(e) => Err(e),
                Ok((v, q2)) => Ok((vs.push(v), q2)),
            },
        }
    }
}

/// Once a run has failed, a longer run fails the same way.
pub proof fn lemma_run_error_sticks<T>(elem: spec_fn(int) -> Decoded<T>, i: nat, n: nat, p: int)
    requires
        i <= n,
        decode_run(elem, i, p) is Err,
    ensures
        decode_run(elem, n, p) == decode_run(elem, i, p),
    decreases n - i,
{
    if i < n {
        lemma_run_error_sticks(elem, i, (n - 1) as nat, p);
    }
}

/// A descriptor stored elsewhere: a count, then an offset.
pub open spec fn decode_array_descriptor(d: Seq<u8>, p: int) -> Decoded<ArrayStreamInfo> {
    match decode_i32(d, p) {
        Err(e) => Err(e),
        Ok((count, at1)) => match decode_i32(d, at1) {
            Err(e) => Err(e),
            Ok((offset, at2)) => Ok((ArrayStreamInfo { offset: widen(offset), count: widen(count) }, at2)),
        },
    }
}

/// A descriptor stored elsewhere in the other order: an offset, then a count.
pub open spec fn decode_array_descriptor_offset_first(d: Seq<u8>, p: int) -> Decoded<ArrayStreamInfo> {
    match decode_i32(d, p) {
        Err(e) => Err(e),
        Ok((offset, at1)) => match decode_i32(d, at1) {
            Err(e) => Err(e),
            Ok((count, at2)) => Ok((ArrayStreamInfo { offset: widen(offset), count: widen(count) }, at2)),
        },
    }
}

/// A count followed at once by the elements.
pub open spec fn decode_counted_here(d: Seq<u8>, p: int) -> Decoded<ArrayStreamInfo> {
    match decode_i32(d, p) {
        Err(e) => Err(e),
        Ok((count, at1)) => Ok((ArrayStreamInfo { offset: at1 as u64, count: widen(count) }, at1)),
    }
}

/// An array whose descriptor stands at `p` and whose elements stand at the
/// descriptor's offset; decoding resumes just after the descriptor.
pub open spec fn decode_indirect<T>(elem: spec_fn(int) -> Decoded<T>, d: Seq<u8>, p: int) -> Decoded<Seq<T>> {
    match decode_array_descriptor(d, p) {
        Err(e) => Err(e),
        Ok((info, at1)) => match decode_run(elem, info.count as nat, info.offset as int) {
            Err(e) => Err(e),
            Ok((vs, _q)) => Ok((vs, at1)),
        },
    }
}

/// An array whose count stands at `p`, directly followed by its elements.
pub open spec fn decode_inline<T>(elem: spec_fn(int) -> Decoded<T>, d: Seq<u8>, p: int) -> Decoded<Seq<T>> {
    match decode_i32(d, p) {
        Err(e) => Err(e),
        Ok((count, at1)) => decode_run(elem, widen(count) as nat, at1),
    }
}

/// Skipping `n` fixed-size records is a single move of the cursor.
pub open spec fn skip_fixed(p: int, n: int, size: int) -> Result<int, Error> {
    seek_by(p, n * size)
}

pub open spec fn string_elem(d: Seq<u8>, with_hash: bool) -> spec_fn(int) -> Decoded<Seq<char>> {
    |q: int|
        if with_hash {
            decode_name_entry_with_hash(d, q)
        } else {
            decode_string(d, q)
        }
}

pub open spec fn import_elem(c: Context) -> spec_fn(int) -> Decoded<ObjectImport> {
    |q: int| decode_import(c, q)
}

pub open spec fn export_elem(c: Context) -> spec_fn(int) -> Decoded<ObjectExport> {
    |q: int| decode_export(c, q)
}

pub open spec fn i32_elem(d: Seq<u8>) -> spec_fn(int) -> Decoded<i32> {
    |q: int| decode_i32(d, q)
}

/// A custom-version record of the GUID layout: a fixed prefix, then a string.
pub open spec fn skip_guid_custom_version(d: Seq<u8>, p: int) -> Result<int, Error> {
    match seek_by(p, GUID_CUSTOM_VERSION_PREFIX_SIZE as int) {
        Err(e) => Err(e),
        Ok(q) => skip_string(d, q),
    }
}

pub open spec fn guid_custom_version_elem(d: Seq<u8>) -> spec_fn(int) -> Decoded<()> {
    |q: int|
        match skip_guid_custom_version(d, q) {
            Err(e) => Err(e),
            Ok(q2) => Ok(((), q2)),
        }
}

/// Whether a skip and the cursor after it agree with the expected end.
pub open spec fn skipped(r: Result<(), Error>, end: int, expected: Result<int, Error>) -> bool {
    match expected {
        Ok(q) => r is Ok && end == q,
        Err(e) => r == Err::<(), Error>(e),
    }
}

/// Whether an array result of strings agrees with a decoding.
pub open spec fn strings_yield(r: Result<Vec<String>, Error>, end: int, expected: Decoded<Seq<Seq<char>>>) -> bool {
    match expected {
        Ok((vs, q)) => r matches Ok(v) && views(v@) == vs && end == q,
        Err(e) => r == Err::<Vec<String>, Error>(e),
    }
}

/// Whether an array result agrees with a decoding.
pub open spec fn vec_yields<T>(r: Result<Vec<T>, Error>, end: int, expected: Decoded<Seq<T>>) -> bool {
    match expected {
        Ok((vs, q)) => r matches Ok(v) && v@ == vs && end == q,
        Err(e) => r == Err::<Vec<T>, Error>(e),
    }
}

/// Descriptor of a single item: where it starts.
#[derive(Clone, Copy, Debug, PartialEq, Eq, Structural)]
pub struct SingleItemStreamInfo {
    pub offset: u64,
}

/// What reading a single item needs besides its position: nothing.
#[derive(Clone, Copy, Debug, PartialEq, Eq, Structural)]
pub struct SingleItemReadInfo {}

/// Descriptor of an array: where its elements start and how many there are.
#[derive(Clone, Copy, Debug, PartialEq, Eq, Structural)]
pub struct ArrayStreamInfo {
    pub offset: u64,
    pub count: u64,
}

/// What reading an array needs besides its position: the count.
#[derive(Clone, Copy, Debug, PartialEq, Eq, Structural)]
pub struct ArrayReadInfo {
    pub count: u64,
}

impl SingleItemReadInfo {
    pub fn get_count(&self) -> (r: u64)
        ensures
            r == 1,
    {
        1
    }

    pub fn from_current_position(_ar: &Archive) -> (r: SingleItemReadInfo) {
        SingleItemReadInfo {}
    }
}

impl SingleItemStreamInfo {
    pub fn get_offset(&self) -> (r: u64)
        ensures
            r == self.offset,
    {
        self.offset
    }

    /// The item at the cursor.
    pub fn from_stream(ar: &Archive) -> (r: SingleItemStreamInfo)
        ensures
            r.offset == ar.pos(),
    {
        SingleItemStreamInfo { offset: ar.stream_position() }
    }

    pub fn from_current_position(ar: &Archive) -> (r: SingleItemStreamInfo)
        ensures
            r.offset == ar.pos(),
    {
        SingleItemStreamInfo { offset: ar.stream_position() }
    }

    /// The item whose offset is stored at the cursor as a 32-bit integer.
    pub fn from_indirect_reference(ar: &mut Archive) -> (r: Result<SingleItemStreamInfo, Error>)
        ensures
            final(ar).ctx() == old(ar).ctx(),
            match decode_i32(old(ar).ctx().data, old(ar).pos()) {
                Ok((o, q)) => r == Ok::<SingleItemStreamInfo, Error>(SingleItemStreamInfo { offset: widen(o) })
                    && final(ar).pos() == q,
                Err(e) => r == Err::<SingleItemStreamInfo, Error>(e),
            },
    {
        let offset = ar.read_i32()?;
        Ok(SingleItemStreamInfo { offset: widen_i32(offset) })
    }

    pub fn to_read_info(&self) -> (r: SingleItemReadInfo) {
        SingleItemReadInfo {}
    }
}

impl ArrayReadInfo {
    pub fn get_count(&self) -> (r: u64)
        ensures
            r == self.count,
    {
        self.count
    }

    /// The count stored at the cursor.
    pub fn from_current_position(ar: &mut Archive) -> (r: Result<ArrayReadInfo, Error>)
        ensures
            final(ar).ctx() == old(ar).ctx(),
            match decode_i32(old(ar).ctx().data, old(ar).pos()) {
                Ok((c, q)) => r == Ok::<ArrayReadInfo, Error>(ArrayReadInfo { count: widen(c) })
                    && final(ar).pos() == q,
                Err(e) => r == Err::<ArrayReadInfo, Error>(e),
            },
    {
        let count = ar.read_i32()?;
        Ok(ArrayReadInfo { count: widen_i32(count) })
    }
}

impl ArrayStreamInfo {
    pub fn get_offset(&self) -> (r: u64)
        ensures
            r == self.offset,
    {
        self.offset
    }

    pub fn to_read_info(&self) -> (r: ArrayReadInfo)
        ensures
            r.count == self.count,
    {
        ArrayReadInfo { count: self.count }
    }

    /// A count at the cursor, with the elements right after it.
    pub fn from_current_position(ar: &mut Archive) -> (r: Result<ArrayStreamInfo, Error>)
        ensures
            final(ar).ctx() == old(ar).ctx(),
            yields(r, final(ar).reader.position, decode_counted_here(old(ar).ctx().data, old(ar).pos())),
    {
        let count = ar.read_i32()?;
        Ok(ArrayStreamInfo { offset: ar.stream_position(), count: widen_i32(count) })
    }

    /// A count and then an offset at the cursor.
    pub fn from_indirect_reference(ar: &mut Archive) -> (r: Result<ArrayStreamInfo, Error>)
        ensures
            final(ar).ctx() == old(ar).ctx(),
            yields(r, final(ar).reader.position, decode_array_descriptor(old(ar).ctx().data, old(ar).pos())),
    {
        let count = ar.read_i32()?;
        let offset = ar.read_i32()?;
        Ok(ArrayStreamInfo { offset: widen_i32(offset), count: widen_i32(count) })
    }

    /// An offset and then a count at the cursor.
    pub fn from_indirect_reference_offset_first(ar: &mut Archive) -> (r: Result<ArrayStreamInfo, Error>)
        ensures
            final(ar).ctx() == old(ar).ctx(),
            yields(
                r,
                final(ar).reader.position,
                decode_array_descriptor_offset_first(old(ar).ctx().data, old(ar).pos()),
            ),
    {
        let offset = ar.read_i32()?;
        let count = ar.read_i32()?;
        Ok(ArrayStreamInfo { offset: widen_i32(offset), count: widen_i32(count) })
    }
}

/// Records that can be passed over without being decoded.
pub trait Skippable {
    /// Moves the cursor past the record that starts at `info.offset`.
    fn seek_past_with_info(ar: &mut Archive, info: &SingleItemStreamInfo) -> Result<(), Error>;

    /// Moves the cursor past the record at the cursor.
    fn seek_past(ar: &mut Archive) -> Result<(), Error>;
}

/// Codec of arrays: `count` elements stored one after another.
pub struct UnrealArray {}

impl UnrealArray {
    /// Decodes `count` strings at the cursor, each followed by a hash when `with_hash`.
    pub fn parse_strings_seekless(ar: &mut Archive, count: u64, with_hash: bool) -> (r: Result<Vec<String>, Error>)
        ensures
            final(ar).ctx() == old(ar).ctx(),
            strings_yield(
                r,
                final(ar).pos(),
                decode_run(string_elem(old(ar).ctx().data, with_hash), count as nat, old(ar).pos()),
            ),
    {
        let ghost c = ar.ctx();
        let ghost p = ar.pos();
        let mut out: Vec<String> = Vec::new();
        proof {
            assert(views(out@) =~= Seq::<Seq<char>>::empty());
        }
        let mut i: u64 = 0;
        while i < count
            invariant
                i <= count,
                ar.ctx() == c,
                c == old(ar).ctx(),
                p == old(ar).pos(),
                decode_run(string_elem(c.data, with_hash), i as nat, p)
                    == Ok::<(Seq<Seq<char>>, int), Error>((views(out@), ar.pos())),
            decreases count - i,
        {
            let v = if with_hash {
                UnrealNameEntryWithHash::parse_inline(ar)
            } else {
                UnrealString::parse_inline(ar)
            };
            let v = match v {
                Ok(v) => v,
                Err(e) => {
                    proof {
                        lemma_run_error_sticks(string_elem(c.data, with_hash), (i + 1) as nat, count as nat, p);
                    }
                    return Err(e);
                },
            };
            let ghost before = out@;
            out.push(v);
            proof {
                assert(views(out@) =~= views(before).push(v@));
            }
            i = i + 1;
        }
        Ok(out)
    }

    /// Decodes `count` import records at the cursor.
    pub fn parse_imports_seekless(ar: &mut Archive, count: u64) -> (r: Result<Vec<ObjectImport>, Error>)
        ensures
            final(ar).ctx() == old(ar).ctx(),
            vec_yields(r, final(ar).pos(), decode_run(import_elem(old(ar).ctx()), count as nat, old(ar).pos())),
    {
        let ghost c = ar.ctx();
        let ghost p = ar.pos();
        let mut out: Vec<ObjectImport> = Vec::new();
        let mut i: u64 = 0;
        while i < count
            invariant
                i <= count,
                ar.ctx() == c,
                c == old(ar).ctx(),
                p == old(ar).pos(),
                decode_run(import_elem(c), i as nat, p) == Ok::<(Seq<ObjectImport>, int), Error>((out@, ar.pos())),
            decreases count - i,
        {
            let v = match UnrealClassImport::parse_inline(ar) {
                Ok(v) => v,
                Err(e) => {
                    proof {
                        lemma_run_error_sticks(import_elem(c), (i + 1) as nat, count as nat, p);
                    }
                    return Err(e);
                },
            };
            out.push(v);
            i = i + 1;
        }
        Ok(out)
    }

    /// Decodes `count` export records at the cursor.
    pub fn parse_exports_seekless(ar: &mut Archive, count: u64) -> (r: Result<Vec<ObjectExport>, Error>)
        ensures
            final(ar).ctx() == old(ar).ctx(),
            vec_yields(r, final(ar).pos(), decode_run(export_elem(old(ar).ctx()), count as nat, old(ar).pos())),
    {
        let ghost c = ar.ctx();
        let ghost p = ar.pos();
        let mut out: Vec<ObjectExport> = Vec::new();
        let mut i: u64 = 0;
        while i < count
            invariant
                i <= count,
                ar.ctx() == c,
                c == old(ar).ctx(),
                p == old(ar).pos(),
                decode_run(export_elem(c), i as nat, p) == Ok::<(Seq<ObjectExport>, int), Error>((out@, ar.pos())),
            decreases count - i,
        {
            let v = match UnrealObjectExport::parse_inline(ar) {
                Ok(v) => v,
                Err(e) => {
                    proof {
                        lemma_run_error_sticks(export_elem(c), (i + 1) as nat, count as nat, p);
                    }
                    return Err(e);
                },
            };
            out.push(v);
            i = i + 1;
        }
        Ok(out)
    }

    /// Decodes `count` signed 32-bit integers at the cursor.
    pub fn parse_i32s_seekless(ar: &mut Archive, count: u64) -> (r: Result<Vec<i32>, Error>)
        ensures
            final(ar).ctx() == old(ar).ctx(),
            vec_yields(r, final(ar).pos(), decode_run(i32_elem(old(ar).ctx().data), count as nat, old(ar).pos())),
    {
        let ghost c = ar.ctx();
        let ghost p = ar.pos();
        let mut out: Vec<i32> = Vec::new();
        let mut i: u64 = 0;
        while i < count
            invariant
                i <= count,
                ar.ctx() == c,
                c == old(ar).ctx(),
                p == old(ar).pos(),
                decode_run(i32_elem(c.data), i as nat, p) == Ok::<(Seq<i32>, int), Error>((out@, ar.pos())),
            decreases count - i,
        {
            let v = match ar.read_i32() {
                Ok(v) => v,
                Err(e) => {
                    proof {
                        lemma_run_error_sticks(i32_elem(c.data), (i + 1) as nat, count as nat, p);
                    }
                    return Err(e);
                },
            };
            out.push(v);
            i = i + 1;
        }
        Ok(out)
    }

    /// Skips `info.count` records of `size` bytes each, starting at `info.offset`.
    pub fn seek_past_fixed(ar: &mut Archive, info: &ArrayStreamInfo, size: u64) -> (r: Result<(), Error>)
        ensures
            final(ar).ctx() == old(ar).ctx(),
            skipped(r, final(ar).pos(), skip_fixed(info.offset as int, info.count as int, size as int)),
    {
        ar.seek_start(info.offset);
        let total: u128 = {
            let n = info.count as u128;
            let s = size as u128;
            assert(n * s <= 0xFFFF_FFFF_FFFF_FFFFu128 * 0xFFFF_FFFF_FFFF_FFFFu128) by (nonlinear_arith)
                requires
                    n <= 0xFFFF_FFFF_FFFF_FFFFu128,
                    s <= 0xFFFF_FFFF_FFFF_FFFFu128,
            ;
            n * s
        };
        if total > (u64::MAX - info.offset) as u128 {
            return Err(Error::Io);
        }
        ar.seek_start(info.offset + total as u64);
        Ok(())
    }

    /// Skips `info.count` custom-version records of the GUID layout, starting at `info.offset`.
    pub fn seek_past_guid_custom_versions(ar: &mut Archive, info: &ArrayStreamInfo) -> (r: Result<(), Error>)
        ensures
            final(ar).ctx() == old(ar).ctx(),
            match decode_run(guid_custom_version_elem(old(ar).ctx().data), info.count as nat, info.offset as int) {
                Ok((_units, q)) => r is Ok && final(ar).pos() == q,
                Err(e) => r == Err::<(), Error>(e),
            },
    {
        ar.seek_start(info.offset);
        let ghost c = ar.ctx();
        let ghost p = ar.pos();
        let ghost mut units: Seq<()> = seq![];
        let mut i: u64 = 0;
        while i < info.count
            invariant
                i <= info.count,
                ar.ctx() == c,
                c == old(ar).ctx(),
                p == info.offset,
                decode_run(guid_custom_version_elem(c.data), i as nat, p) == Ok::<(Seq<()>, int), Error>((units, ar.pos())),
            decreases info.count - i,
        {
            let step = UnrealGuidCustomVersion::seek_past(ar);
            if let Err(e) = step {
                proof {
                    lemma_run_error_sticks(guid_custom_version_elem(c.data), (i + 1) as nat, info.count as nat, p);
                }
                return Err(e);
            }
            proof {
                units = units.push(());
            }
            i = i + 1;
        }
        Ok(())
    }
}

impl UnrealArray {
    /// Decodes a string array through a descriptor at the cursor; the cursor
    /// ends just after the descriptor.
    pub fn parse_indirect_strings(ar: &mut Archive, with_hash: bool) -> (r: Result<Vec<String>, Error>)
        ensures
            final(ar).ctx() == old(ar).ctx(),
            strings_yield(
                r,
                final(ar).pos(),
                decode_indirect(string_elem(old(ar).ctx().data, with_hash), old(ar).ctx().data, old(ar).pos()),
            ),
    {
        let info = ArrayStreamInfo::from_indirect_reference(ar)?;
        let here = ar.stream_position();
        ar.seek_start(info.offset);
        let v = Self::parse_strings_seekless(ar, info.count, with_hash)?;
        ar.seek_start(here);
        Ok(v)
    }

    /// Decodes the import table through a descriptor at the cursor.
    pub fn parse_indirect_imports(ar: &mut Archive) -> (r: Result<Vec<ObjectImport>, Error>)
        ensures
            final(ar).ctx() == old(ar).ctx(),
            vec_yields(r, final(ar).pos(), decode_indirect(import_elem(old(ar).ctx()), old(ar).ctx().data, old(ar).pos())),
    {
        let info = ArrayStreamInfo::from_indirect_reference(ar)?;
        let here = ar.stream_position();
        ar.seek_start(info.offset);
        let v = Self::parse_imports_seekless(ar, info.count)?;
        ar.seek_start(here);
        Ok(v)
    }

    /// Decodes the export table through a descriptor at the cursor.
    pub fn parse_indirect_exports(ar: &mut Archive) -> (r: Result<Vec<ObjectExport>, Error>)
        ensures
            final(ar).ctx() == old(ar).ctx(),
            vec_yields(r, final(ar).pos(), decode_indirect(export_elem(old(ar).ctx()), old(ar).ctx().data, old(ar).pos())),
    {
        let info = ArrayStreamInfo::from_indirect_reference(ar)?;
        let here = ar.stream_position();
        ar.seek_start(info.offset);
        let v = Self::parse_exports_seekless(ar, info.count)?;
        ar.seek_start(here);
        Ok(v)
    }

    /// Decodes a count at the cursor and then that many strings.
    pub fn parse_inline_strings(ar: &mut Archive) -> (r: Result<Vec<String>, Error>)
        ensures
            final(ar).ctx() == old(ar).ctx(),
            strings_yield(
                r,
                final(ar).pos(),
                decode_inline(string_elem(old(ar).ctx().data, false), old(ar).ctx().data, old(ar).pos()),
            ),
    {
        let info = ArrayReadInfo::from_current_position(ar)?;
        Self::parse_strings_seekless(ar, info.count, false)
    }

    /// Decodes a count at the cursor and then that many 32-bit integers.
    pub fn parse_inline_i32s(ar: &mut Archive) -> (r: Result<Vec<i32>, Error>)
        ensures
            final(ar).ctx() == old(ar).ctx(),
            vec_yields(r, final(ar).pos(), decode_inline(i32_elem(old(ar).ctx().data), old(ar).ctx().data, old(ar).pos())),
    {
        let info = ArrayReadInfo::from_current_position(ar)?;
        Self::parse_i32s_seekless(ar, info.count)
    }

    /// Skips a count at the cursor and then that many records of `size` bytes.
    pub fn seek_past_counted(ar: &mut Archive, size: u64) -> (r: Result<(), Error>)
        ensures
            final(ar).ctx() == old(ar).ctx(),
            skipped(r, final(ar).pos(), skip_counted_fixed(old(ar).ctx().data, old(ar).pos(), size as int)),
    {
        let info = ArrayStreamInfo::from_current_position(ar)?;
        Self::seek_past_fixed(ar, &info, size)
    }
}

/// A count, then that many records of `size` bytes, skipped.
pub open spec fn skip_counted_fixed(d: Seq<u8>, p: int, size: int) -> Result<int, Error> {
    match decode_i32(d, p) {
        Err(e) => Err(e),
        Ok((count, at1)) => skip_fixed(at1, widen(count) as int, size),
    }
}

/// Codec of length-prefixed strings.
pub struct UnrealString {}

impl UnrealString {
    pub fn parse_inline(ar: &mut Archive) -> (r: Result<String, Error>)
        ensures
            final(ar).ctx() == old(ar).ctx(),
            final(ar).pos() == string_end(old(ar).ctx().data, old(ar).pos()),
            string_yields(r, final(ar).reader.position, decode_string(old(ar).ctx().data, old(ar).pos())),
    {
        parse_string(ar)
    }

    /// Decodes the string at the cursor.
    pub fn parse_in_stream(ar: &mut Archive) -> (r: Result<String, Error>)
        ensures
            final(ar).ctx() == old(ar).ctx(),
            final(ar).pos() == string_end(old(ar).ctx().data, old(ar).pos()),
            string_yields(r, final(ar).reader.position, decode_string(old(ar).ctx().data, old(ar).pos())),
    {
        let info = SingleItemStreamInfo::from_stream(ar);
        Self::parse_with_info(ar, &info)
    }

    /// Decodes the string that starts at `info.offset`.
    pub fn parse_with_info(ar: &mut Archive, info: &SingleItemStreamInfo) -> (r: Result<String, Error>)
        ensures
            final(ar).ctx() == old(ar).ctx(),
            final(ar).pos() == string_end(old(ar).ctx().data, info.offset as int),
            string_yields(r, final(ar).reader.position, decode_string(old(ar).ctx().data, info.offset as int)),
    {
        ar.seek_start(info.offset);
        parse_string(ar)
    }

    /// Moves the cursor past the string at it.
    pub fn skip_in_stream(ar: &mut Archive) -> (r: Result<(), Error>)
        ensures
            final(ar).ctx() == old(ar).ctx(),
            skipped(r, final(ar).pos(), skip_string(old(ar).ctx().data, old(ar).pos())),
    {
        let info = SingleItemStreamInfo::from_stream(ar);
        Self::seek_past_with_info(ar, &info)
    }

}

impl Skippable for UnrealString {
    fn seek_past_with_info(ar: &mut Archive, info: &SingleItemStreamInfo) -> (r: Result<(), Error>)
        ensures
            final(ar).ctx() == old(ar).ctx(),
            skipped(r, final(ar).pos(), skip_string(old(ar).ctx().data, info.offset as int)),
    {
        ar.seek_start(info.offset);
        skip_string_at_cursor(ar)
    }

    fn seek_past(ar: &mut Archive) -> (r: Result<(), Error>)
        ensures
            final(ar).ctx() == old(ar).ctx(),
            skipped(r, final(ar).pos(), skip_string(old(ar).ctx().data, old(ar).pos())),
    {
        skip_string_at_cursor(ar)
    }
}

/// Codec of name-table entries that carry hashes.
pub struct UnrealNameEntryWithHash {}

impl UnrealNameEntryWithHash {
    pub fn parse_inline(ar: &mut Archive) -> (r: Result<String, Error>)
        ensures
            final(ar).ctx() == old(ar).ctx(),
            string_yields(
                r,
                final(ar).reader.position,
                decode_name_entry_with_hash(old(ar).ctx().data, old(ar).pos()),
            ),
    {
        let s = parse_string(ar)?;
        let _hash = ar.read_u32()?;
        Ok(s)
    }

}

impl Skippable for UnrealNameEntryWithHash {
    fn seek_past_with_info(ar: &mut Archive, info: &SingleItemStreamInfo) -> (r: Result<(), Error>)
        ensures
            final(ar).ctx() == old(ar).ctx(),
            skipped(r, final(ar).pos(), skip_name_entry_with_hash(old(ar).ctx().data, info.offset as int)),
    {
        ar.seek_start(info.offset);
        skip_string_at_cursor(ar)?;
        ar.seek_relative(4)
    }

    fn seek_past(ar: &mut Archive) -> (r: Result<(), Error>)
        ensures
            final(ar).ctx() == old(ar).ctx(),
            skipped(r, final(ar).pos(), skip_name_entry_with_hash(old(ar).ctx().data, old(ar).pos())),
    {
        skip_string_at_cursor(ar)?;
        ar.seek_relative(4)
    }
}

/// Codec of GUIDs, which are only ever skipped.
pub struct UnrealGuid {}

impl Skippable for UnrealGuid {
    fn seek_past_with_info(ar: &mut Archive, info: &SingleItemStreamInfo) -> (r: Result<(), Error>)
        ensures
            final(ar).ctx() == old(ar).ctx(),
            skipped(r, final(ar).pos(), seek_by(info.offset as int, GUID_SIZE as int)),
    {
        ar.seek_start(info.offset);
        ar.seek_relative(GUID_SIZE as i64)
    }

    fn seek_past(ar: &mut Archive) -> (r: Result<(), Error>)
        ensures
            final(ar).ctx() == old(ar).ctx(),
            skipped(r, final(ar).pos(), seek_by(old(ar).pos(), GUID_SIZE as int)),
    {
        ar.seek_relative(GUID_SIZE as i64)
    }
}

/// Codec of custom-version records in the optimized layout.
pub struct UnrealCustomVersion {}

impl Skippable for UnrealCustomVersion {
    fn seek_past_with_info(ar: &mut Archive, info: &SingleItemStreamInfo) -> (r: Result<(), Error>)
        ensures
            final(ar).ctx() == old(ar).ctx(),
            skipped(r, final(ar).pos(), seek_by(info.offset as int, CUSTOM_VERSION_SIZE as int)),
    {
        ar.seek_start(info.offset);
        ar.seek_relative(CUSTOM_VERSION_SIZE as i64)
    }

    fn seek_past(ar: &mut Archive) -> (r: Result<(), Error>)
        ensures
            final(ar).ctx() == old(ar).ctx(),
            skipped(r, final(ar).pos(), seek_by(old(ar).pos(), CUSTOM_VERSION_SIZE as int)),
    {
        ar.seek_relative(CUSTOM_VERSION_SIZE as i64)
    }
}

/// Codec of custom-version records in the GUID layout.
pub struct UnrealGuidCustomVersion {}

impl Skippable for UnrealGuidCustomVersion {
    fn seek_past_with_info(ar: &mut Archive, info: &SingleItemStreamInfo) -> (r: Result<(), Error>)
        ensures
            final(ar).ctx() == old(ar).ctx(),
            skipped(r, final(ar).pos(), skip_guid_custom_version(old(ar).ctx().data, info.offset as int)),
    {
        ar.seek_start(info.offset);
        ar.seek_relative(GUID_CUSTOM_VERSION_PREFIX_SIZE as i64)?;
        skip_string_at_cursor(ar)
    }

    fn seek_past(ar: &mut Archive) -> (r: Result<(), Error>)
        ensures
            final(ar).ctx() == old(ar).ctx(),
            skipped(r, final(ar).pos(), skip_guid_custom_version(old(ar).ctx().data, old(ar).pos())),
    {
        ar.seek_relative(GUID_CUSTOM_VERSION_PREFIX_SIZE as i64)?;
        skip_string_at_cursor(ar)
    }
}

/// Codec of generation records.
pub struct UnrealGenerationInfo {}

impl Skippable for UnrealGenerationInfo {
    fn seek_past_with_info(ar: &mut Archive, info: &SingleItemStreamInfo) -> (r: Result<(), Error>)
        ensures
            final(ar).ctx() == old(ar).ctx(),
            skipped(r, final(ar).pos(), seek_by(info.offset as int, GENERATION_INFO_SIZE as int)),
    {
        ar.seek_start(info.offset);
        ar.seek_relative(GENERATION_INFO_SIZE as i64)
    }

    fn seek_past(ar: &mut Archive) -> (r: Result<(), Error>)
        ensures
            final(ar).ctx() == old(ar).ctx(),
            skipped(r, final(ar).pos(), seek_by(old(ar).pos(), GENERATION_INFO_SIZE as int)),
    {
        ar.seek_relative(GENERATION_INFO_SIZE as i64)
    }
}

/// Codec of compressed-chunk records.
pub struct UnrealCompressedChunk {}

impl Skippable for UnrealCompressedChunk {
    fn seek_past_with_info(ar: &mut Archive, info: &SingleItemStreamInfo) -> (r: Result<(), Error>)
        ensures
            final(ar).ctx() == old(ar).ctx(),
            skipped(r, final(ar).pos(), seek_by(info.offset as int, COMPRESSED_CHUNK_SIZE as int)),
    {
        ar.seek_start(info.offset);
        ar.seek_relative(COMPRESSED_CHUNK_SIZE as i64)
    }

    fn seek_past(ar: &mut Archive) -> (r: Result<(), Error>)
        ensures
            final(ar).ctx() == old(ar).ctx(),
            skipped(r, final(ar).pos(), seek_by(old(ar).pos(), COMPRESSED_CHUNK_SIZE as int)),
    {
        ar.seek_relative(COMPRESSED_CHUNK_SIZE as i64)
    }
}

} // verus!
