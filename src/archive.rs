use vstd::prelude::*;

use crate::error::Error;
use crate::stream::{
    ByteReader, Decoded, decode_bool32, decode_bytes, decode_i32, decode_i64, decode_u16,
    decode_u32, seek_by, yields,
};
use crate::versions::{ObjectVersion, ObjectVersionUE5};

verus! {

/// The magic number that every asset starts with.
pub const PACKAGE_FILE_MAGIC: u32 = 0x9E2A83C1;

/// How custom-version records are laid out, which follows from the legacy version.
#[derive(Clone, Copy, Debug, PartialEq, Eq, Structural)]
pub enum CustomVersionSerializationFormat {
    /// Each record is a GUID, a version integer and a trailing string.
    Guids,
    /// Each record is a fixed 20 bytes.
    Optimized,
}

/// The version numbers read from the start of an asset.
#[derive(Clone, Copy, Debug, PartialEq, Eq, Structural)]
pub struct Preamble {
    pub file_version: ObjectVersion,
    pub file_version_ue5: Option<ObjectVersionUE5>,
    pub file_licensee_version: i32,
    pub legacy_version: i32,
}

/// All that decoding a field depends on besides the position: the bytes and the
/// facts that decide which fields are present.
pub struct Context {
    pub data: Seq<u8>,
    pub file_version: ObjectVersion,
    pub file_version_ue5: Option<ObjectVersionUE5>,
    pub file_licensee_version: i32,
    pub legacy_version: i32,
    pub with_editoronly_data: bool,
}

impl Context {
    /// The asset was saved at or after `v` of the first version line.
    pub open spec fn with(self, v: i32) -> bool {
        self.file_version.0 >= v
    }

    /// The asset was saved at or after `v` of the second version line.
    pub open spec fn with_ue5(self, v: i32) -> bool {
        match self.file_version_ue5 {
            Some(f) => f.0 >= v,
            None => false,
        }
    }

    pub open spec fn format(self) -> CustomVersionSerializationFormat {
        format_of(self.legacy_version as int)
    }
}

pub open spec fn format_of(legacy_version: int) -> CustomVersionSerializationFormat {
    if legacy_version < -5 {
        CustomVersionSerializationFormat::Optimized
    } else {
        CustomVersionSerializationFormat::Guids
    }
}

/// Whether a legacy version belongs to the supported dialects.
pub open spec fn supported_legacy(v: int) -> bool {
    -8 <= v <= -5
}

/// The preamble: magic, legacy version, a discarded legacy integer, the object
/// version, the second object version (newest dialect only, else zero), and the
/// licensee version; then the checks on those numbers, in this order.
pub open spec fn decode_preamble(d: Seq<u8>) -> Decoded<Preamble> {
    match decode_u32(d, 0) {
        Err(e) => Err(e),
        Ok((magic, at1)) => if magic != PACKAGE_FILE_MAGIC {
            Err(Error::InvalidFile)
        } else {
            match decode_i32(d, at1) {
                Err(e) => Err(e),
                Ok((legacy, at2)) => if !supported_legacy(legacy as int) {
                    Err(Error::UnsupportedVersion(legacy))
                } else {
                    match decode_i32(d, at2) {
                        Err(e) => Err(e),
                        Ok((_ue3, at3)) => match decode_i32(d, at3) {
                            Err(e) => Err(e),
                            Ok((v4, at4)) => match (if legacy <= -8 {
                                decode_i32(d, at4)
                            } else {
                                Ok((0i32, at4))
                            }) {
                                Err(e) => Err(e),
                                Ok((v5, at5)) => match decode_i32(d, at5) {
                                    Err(e) => Err(e),
                                    Ok((lic, at6)) => check_versions(legacy, v4, v5, lic, at6),
                                },
                            },
                        },
                    }
                },
            }
        },
    }
}

pub open spec fn check_versions(legacy: i32, v4: i32, v5: i32, lic: i32, p: int) -> Decoded<Preamble> {
    if v4 == 0 && lic == 0 && v5 == 0 {
        Err(Error::UnversionedAsset)
    } else if !ObjectVersion::is_known(v4 as int) {
        Err(Error::UnsupportedVersion(v4))
    } else if v5 != 0 && !ObjectVersionUE5::is_known(v5 as int) {
        Err(Error::UnsupportedVersion(v5))
    } else {
        Ok(
            (
                Preamble {
                    file_version: ObjectVersion(v4),
                    file_version_ue5: if v5 != 0 {
                        Some(ObjectVersionUE5(v5))
                    } else {
                        None
                    },
                    file_licensee_version: lic,
                    legacy_version: legacy,
                },
                p,
            ),
        )
    }
}

/// Presence of editor-only data, which the package flags decide.
pub trait SerializedFlags {
    fn serialized_with_editoronly_data(&self) -> bool;
}

/// Comparison of the asset's version against a threshold of one version line.
pub trait SerializedObjectVersion<T> {
    fn serialized_with(&self, version: T) -> bool;

    fn serialized_without(&self, version: T) -> bool;
}

/// The stream of an asset together with its version gate.
#[derive(Debug)]
pub struct Archive {
    pub reader: ByteReader,
    /// The first-line object version the asset was saved with.
    pub file_version: ObjectVersion,
    /// The second-line object version, for assets saved by engine 5 and later.
    pub file_version_ue5: Option<ObjectVersionUE5>,
    pub file_licensee_version: i32,
    pub legacy_version: i32,
    /// Set once the package flags have been read.
    pub with_editoronly_data: bool,
}

impl SerializedFlags for Archive {
    fn serialized_with_editoronly_data(&self) -> (r: bool)
        ensures
            r == self.with_editoronly_data,
    {
        self.with_editoronly_data
    }
}

impl SerializedObjectVersion<ObjectVersion> for Archive {
    fn serialized_with(&self, version: ObjectVersion) -> (r: bool)
        ensures
            r == self.ctx().with(version.0),
    {
        self.file_version.0 >= version.0
    }

    fn serialized_without(&self, version: ObjectVersion) -> (r: bool)
        ensures
            r == !self.ctx().with(version.0),
    {
        self.file_version.0 < version.0
    }
}

impl SerializedObjectVersion<ObjectVersionUE5> for Archive {
    fn serialized_with(&self, version: ObjectVersionUE5) -> (r: bool)
        ensures
            r == self.ctx().with_ue5(version.0),
    {
        match self.file_version_ue5 {
            Some(f) => f.0 >= version.0,
            None => false,
        }
    }

    fn serialized_without(&self, version: ObjectVersionUE5) -> (r: bool)
        ensures
            r == !self.ctx().with_ue5(version.0),
    {
        match self.file_version_ue5 {
            Some(f) => f.0 < version.0,
            None => true,
        }
    }
}

impl Archive {
    pub open spec fn ctx(&self) -> Context {
        Context {
            data: self.reader.bytes(),
            file_version: self.file_version,
            file_version_ue5: self.file_version_ue5,
            file_licensee_version: self.file_licensee_version,
            legacy_version: self.legacy_version,
            with_editoronly_data: self.with_editoronly_data,
        }
    }

    pub open spec fn pos(&self) -> int {
        self.reader.pos()
    }

    pub open spec fn preamble(&self) -> Preamble {
        Preamble {
            file_version: self.file_version,
            file_version_ue5: self.file_version_ue5,
            file_licensee_version: self.file_licensee_version,
            legacy_version: self.legacy_version,
        }
    }

    /// Reads the preamble of `data`. The cursor is left just after it, and
    /// editor-only data counts as absent until the package flags are read.
    pub fn new(data: Vec<u8>) -> (r: Result<Archive, Error>)
        ensures
            match decode_preamble(data@) {
                Ok((pre, q)) => r matches Ok(a) && a.preamble() == pre && a.reader.bytes() == data@
                    && a.pos() == q && !a.with_editoronly_data,
                Err(e) => r == Err::<Archive, Error>(e),
            },
    {
        let mut reader = ByteReader::new(data);
        let magic = reader.read_u32()?;
        if magic != PACKAGE_FILE_MAGIC {
            return Err(Error::InvalidFile);
        }
        let legacy_version = reader.read_i32()?;
        if !(-8 <= legacy_version && legacy_version <= -5) {
            return Err(Error::UnsupportedVersion(legacy_version));
        }
        let _legacy_ue3_version = reader.read_i32()?;
        let file_version = reader.read_i32()?;
        let file_version_ue5 = if legacy_version <= -8 {
            reader.read_i32()?
        } else {
            0
        };
        let file_licensee_version = reader.read_i32()?;
        if file_version == 0 && file_licensee_version == 0 && file_version_ue5 == 0 {
            return Err(Error::UnversionedAsset);
        }
        let file_version = match ObjectVersion::from_i32(file_version) {
            Some(v) => v,
            None => return Err(Error::UnsupportedVersion(file_version)),
        };
        let file_version_ue5 = if file_version_ue5 != 0 {
            match ObjectVersionUE5::from_i32(file_version_ue5) {
                Some(v) => Some(v),
                None => return Err(Error::UnsupportedVersion(file_version_ue5)),
            }
        } else {
            None
        };
        Ok(
            Archive {
                reader,
                file_version,
                file_version_ue5,
                file_licensee_version,
                legacy_version,
                with_editoronly_data: false,
            },
        )
    }

    pub fn reader(&mut self) -> (r: &mut ByteReader)
        ensures
            *r == old(self).reader,
            final(self).reader == *final(r),
            final(self).preamble() == old(self).preamble(),
            final(self).with_editoronly_data == old(self).with_editoronly_data,
    {
        &mut self.reader
    }

    pub fn custom_version_serialization_format(&self) -> (r: CustomVersionSerializationFormat)
        ensures
            r == self.ctx().format(),
    {
        if self.legacy_version < -5 {
            CustomVersionSerializationFormat::Optimized
        } else {
            CustomVersionSerializationFormat::Guids
        }
    }

    pub fn stream_position(&self) -> (r: u64)
        ensures
            r as int == self.pos(),
    {
        self.reader.stream_position()
    }

    pub fn seek_start(&mut self, offset: u64)
        ensures
            final(self).ctx() == old(self).ctx(),
            final(self).pos() == offset,
    {
        self.reader.seek_start(offset)
    }

    pub fn seek_relative(&mut self, delta: i64) -> (r: Result<(), Error>)
        ensures
            final(self).ctx() == old(self).ctx(),
            match seek_by(old(self).pos(), delta as int) {
                Ok(q) => r is Ok && final(self).pos() == q,
                Err(e) => r == Err::<(), Error>(e),
            },
            r is Err ==> final(self).pos() == old(self).pos(),
    {
        self.reader.seek_relative(delta)
    }

    pub fn read_u16(&mut self) -> (r: Result<u16, Error>)
        ensures
            final(self).ctx() == old(self).ctx(),
            yields(r, final(self).reader.position, decode_u16(old(self).ctx().data, old(self).pos())),
            r is Err ==> final(self).pos() == old(self).pos(),
    {
        self.reader.read_u16()
    }

    pub fn read_u32(&mut self) -> (r: Result<u32, Error>)
        ensures
            final(self).ctx() == old(self).ctx(),
            yields(r, final(self).reader.position, decode_u32(old(self).ctx().data, old(self).pos())),
            r is Err ==> final(self).pos() == old(self).pos(),
    {
        self.reader.read_u32()
    }

    pub fn read_i32(&mut self) -> (r: Result<i32, Error>)
        ensures
            final(self).ctx() == old(self).ctx(),
            yields(r, final(self).reader.position, decode_i32(old(self).ctx().data, old(self).pos())),
            r is Err ==> final(self).pos() == old(self).pos(),
    {
        self.reader.read_i32()
    }

    pub fn read_i64(&mut self) -> (r: Result<i64, Error>)
        ensures
            final(self).ctx() == old(self).ctx(),
            yields(r, final(self).reader.position, decode_i64(old(self).ctx().data, old(self).pos())),
            r is Err ==> final(self).pos() == old(self).pos(),
    {
        self.reader.read_i64()
    }

    pub fn read_bool32(&mut self) -> (r: Result<bool, Error>)
        ensures
            final(self).ctx() == old(self).ctx(),
            yields(r, final(self).reader.position, decode_bool32(old(self).ctx().data, old(self).pos())),
            r is Err ==> final(self).pos() == old(self).pos(),
    {
        self.reader.read_bool32()
    }

    pub fn read_bytes(&mut self, n: u64) -> (r: Result<Vec<u8>, Error>)
        ensures
            final(self).ctx() == old(self).ctx(),
            match decode_bytes(old(self).ctx().data, old(self).pos(), n as int) {
                Ok((b, q)) => r matches Ok(v) && v@ == b && final(self).pos() == q,
                Err(e) => r == Err::<Vec<u8>, Error>(e),
            },
            r is Err ==> final(self).pos() == old(self).pos(),
    {
        self.reader.read_bytes(n)
    }
}

} // verus!
