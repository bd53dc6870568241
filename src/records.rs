use vstd::prelude::*;

use crate::archive::{Archive, Context, SerializedFlags, SerializedObjectVersion};
use crate::error::Error;
use crate::stream::{Decoded, decode_bool32, decode_i32, decode_i64, decode_u16, decode_u32, seek_by, yields};
use crate::serialization::{SingleItemStreamInfo, Skippable, skipped};
use crate::strings::{decode_string, parse_string, skip_string, skip_string_at_cursor};
use crate::versions::{ObjectVersion, ObjectVersionUE5};

verus! {

/// A reference into a name table. `number`, when present, is never zero and is
/// one more than a numeric suffix of the name (`Some(1)` stands for `_0`).
#[derive(Clone, Copy, Debug, PartialEq, Eq, Structural)]
pub struct NameReference {
    pub index: u32,
    pub number: Option<u32>,
}

/// Where an object lives, decoded from a signed index: zero for none, positive
/// for an export, negative for an import.
#[derive(Clone, Copy, Debug, PartialEq, Eq, Structural)]
pub enum ObjectImportOuter {
    Root,
    Export { export_index: u32 },
    Import { import_index: u32 },
}

/// Another name for an object reference, as exports use it too.
pub type ObjectReference = ObjectImportOuter;

/// `0` is no object, `v > 0` the export `v - 1`, `v < 0` the import `-(v + 1)`.
pub open spec fn outer_of(v: int) -> ObjectImportOuter {
    if v == 0 {
        ObjectImportOuter::Root
    } else if v > 0 {
        ObjectImportOuter::Export { export_index: (v - 1) as u32 }
    } else {
        ObjectImportOuter::Import { import_index: (-(v + 1)) as u32 }
    }
}

/// The signed index that stands for a reference.
pub open spec fn index_of(o: ObjectImportOuter) -> int {
    match o {
        ObjectImportOuter::Root => 0,
        ObjectImportOuter::Export { export_index } => export_index + 1,
        ObjectImportOuter::Import { import_index } => -(import_index + 1),
    }
}

/// Whether a reference has a signed 32-bit index.
pub open spec fn encodable(o: ObjectImportOuter) -> bool {
    i32::MIN <= index_of(o) <= i32::MAX
}

impl ObjectImportOuter {
    pub fn decode(index: i32) -> (r: ObjectImportOuter)
        ensures
            r == outer_of(index as int),
    {
        if index == 0 {
            ObjectImportOuter::Root
        } else if index > 0 {
            ObjectImportOuter::Export { export_index: (index - 1) as u32 }
        } else {
            ObjectImportOuter::Import { import_index: (-(index as i64 + 1)) as u32 }
        }
    }

    pub fn encode(&self) -> (r: i32)
        requires
            encodable(*self),
        ensures
            r as int == index_of(*self),
    {
        match *self {
            ObjectImportOuter::Root => 0,
            ObjectImportOuter::Export { export_index } => (export_index as i64 + 1) as i32,
            ObjectImportOuter::Import { import_index } => (-(import_index as i64 + 1)) as i32,
        }
    }
}

/// A reference to an object of another package.
#[derive(Clone, Copy, Debug, PartialEq, Eq, Structural)]
pub struct ObjectImport {
    pub class_package: NameReference,
    pub class_name: NameReference,
    /// Signed index of the import's outer; see `outer`.
    pub outer_index: i32,
    pub object_name: NameReference,
    pub package_name: Option<NameReference>,
    pub import_optional: bool,
}

impl ObjectImport {
    /// Where the outer of this import lives.
    pub fn outer(&self) -> (r: ObjectImportOuter)
        ensures
            r == outer_of(self.outer_index as int),
    {
        ObjectImportOuter::decode(self.outer_index)
    }
}

/// An object that this package defines.
#[derive(Clone, Copy, Debug, PartialEq, Eq, Structural)]
pub struct ObjectExport {
    pub class_index: i32,
    pub super_index: i32,
    pub template_index: i32,
    pub outer_index: i32,
    pub object_name: NameReference,
    pub object_flags: u32,
    pub serial_size: i64,
    pub serial_offset: i64,
    pub forced_export: bool,
    pub not_for_client: bool,
    pub not_for_server: bool,
    pub is_inherited_instance: bool,
    pub package_flags: u32,
    pub not_always_loaded_for_editor_game: bool,
    pub is_asset: bool,
    pub generate_public_hash: bool,
    pub first_export_dependency: i32,
    pub serialization_before_serialization_dependencies: i32,
    pub create_before_serialization_dependencies: i32,
    pub serialization_before_create_dependencies: i32,
    pub create_before_create_dependencies: i32,
    pub script_serialization_start_offset: i64,
    pub script_serialization_end_offset: i64,
}

impl ObjectExport {
    pub fn outer(&self) -> (r: ObjectReference)
        ensures
            r == outer_of(self.outer_index as int),
    {
        ObjectImportOuter::decode(self.outer_index)
    }

    pub fn class(&self) -> (r: ObjectReference)
        ensures
            r == outer_of(self.class_index as int),
    {
        ObjectImportOuter::decode(self.class_index)
    }

    pub fn super_class(&self) -> (r: ObjectReference)
        ensures
            r == outer_of(self.super_index as int),
    {
        ObjectImportOuter::decode(self.super_index)
    }

    pub fn template(&self) -> (r: ObjectReference)
        ensures
            r == outer_of(self.template_index as int),
    {
        ObjectImportOuter::decode(self.template_index)
    }
}

/// A value that is stored only when `present`, and is `default` otherwise.
pub open spec fn decode_i32_or(d: Seq<u8>, p: int, present: bool, default: i32) -> Decoded<i32> {
    if present {
        decode_i32(d, p)
    } else {
        Ok((default, p))
    }
}

pub open spec fn decode_bool32_or(d: Seq<u8>, p: int, present: bool, default: bool) -> Decoded<bool> {
    if present {
        decode_bool32(d, p)
    } else {
        Ok((default, p))
    }
}

/// A name reference: the index, then the number, where zero means no number.
pub open spec fn decode_name_reference(d: Seq<u8>, p: int) -> Decoded<NameReference> {
    match decode_u32(d, p) {
        Err(e) => Err(e),
        Ok((index, at1)) => match decode_u32(d, at1) {
            Err(e) => Err(e),
            Ok((number, at2)) => Ok(
                (
                    NameReference {
                        index,
                        number: if number == 0 {
                            None
                        } else {
                            Some(number)
                        },
                    },
                    at2,
                ),
            ),
        },
    }
}

/// An import record. The package name is present only at or past the
/// non-outer package import version and with editor-only data; the optional
/// flag only at or past the optional resources version.
pub open spec fn decode_import(c: Context, p: int) -> Decoded<ObjectImport> {
    let d = c.data;
    match decode_name_reference(d, p) {
        Err(e) => Err(e),
        Ok((class_package, at1)) => match decode_name_reference(d, at1) {
            Err(e) => Err(e),
            Ok((class_name, at2)) => match decode_i32(d, at2) {
                Err(e) => Err(e),
                Ok((outer_index, at3)) => match decode_name_reference(d, at3) {
                    Err(e) => Err(e),
                    Ok((object_name, at4)) => match (if c.with(
                        ObjectVersion::VER_UE4_NON_OUTER_PACKAGE_IMPORT,
                    ) && c.with_editoronly_data {
                        match decode_name_reference(d, at4) {
                            Err(e) => Err(e),
                            Ok((n, q)) => Ok((Some(n), q)),
                        }
                    } else {
                        Ok((None, at4))
                    }) {
                        Err(e) => Err(e),
                        Ok((package_name, at5)) => match decode_bool32_or(
                            d,
                            at5,
                            c.with_ue5(ObjectVersionUE5::OPTIONAL_RESOURCES),
                            false,
                        ) {
                            Err(e) => Err(e),
                            Ok((import_optional, at6)) => Ok(
                                (
                                    ObjectImport {
                                        class_package,
                                        class_name,
                                        outer_index,
                                        object_name,
                                        package_name,
                                        import_optional,
                                    },
                                    at6,
                                ),
                            ),
                        },
                    },
                },
            },
        },
    }
}

/// The serial size and offset: 64-bit at or past their version, else 32-bit
/// values widened with their sign.
pub open spec fn decode_serial(c: Context, p: int) -> Decoded<(i64, i64)> {
    let d = c.data;
    if c.with(ObjectVersion::VER_UE4_64BIT_EXPORTMAP_SERIALSIZES) {
        match decode_i64(d, p) {
            Err(e) => Err(e),
            Ok((size, at1)) => match decode_i64(d, at1) {
                Err(e) => Err(e),
                Ok((offset, at2)) => Ok(((size, offset), at2)),
            },
        }
    } else {
        match decode_i32(d, p) {
            Err(e) => Err(e),
            Ok((size, at1)) => match decode_i32(d, at1) {
                Err(e) => Err(e),
                Ok((offset, at2)) => Ok(((size as i64, offset as i64), at2)),
            },
        }
    }
}

/// The five dependency counters: stored at or past the preload dependencies
/// version, else all -1.
pub open spec fn decode_dependencies(c: Context, p: int) -> Decoded<(i32, i32, i32, i32, i32)> {
    let d = c.data;
    if c.with(ObjectVersion::VER_UE4_PRELOAD_DEPENDENCIES_IN_COOKED_EXPORTS) {
        match decode_i32(d, p) {
            Err(e) => Err(e),
            Ok((a, at1)) => match decode_i32(d, at1) {
                Err(e) => Err(e),
                Ok((b, at2)) => match decode_i32(d, at2) {
                    Err(e) => Err(e),
                    Ok((x, at3)) => match decode_i32(d, at3) {
                        Err(e) => Err(e),
                        Ok((y, at4)) => match decode_i32(d, at4) {
                            Err(e) => Err(e),
                            Ok((z, at5)) => Ok(((a, b, x, y, z), at5)),
                        },
                    },
                },
            },
        }
    } else {
        Ok(((-1i32, -1i32, -1i32, -1i32, -1i32), p))
    }
}

/// The script serialization offsets: stored at or past their version, else zero.
pub open spec fn decode_script_offsets(c: Context, p: int) -> Decoded<(i64, i64)> {
    let d = c.data;
    if c.with_ue5(ObjectVersionUE5::SCRIPT_SERIALIZATION_OFFSET) {
        match decode_i64(d, p) {
            Err(e) => Err(e),
            Ok((a, at1)) => match decode_i64(d, at1) {
                Err(e) => Err(e),
                Ok((b, at2)) => Ok(((a, b), at2)),
            },
        }
    } else {
        Ok(((0i64, 0i64), p))
    }
}

/// The fields of an export record up to its inherited-instance flag.
pub struct ExportHead {
    pub class_index: i32,
    pub super_index: i32,
    pub template_index: i32,
    pub outer_index: i32,
    pub object_name: NameReference,
    pub object_flags: u32,
    pub serial: (i64, i64),
    pub forced_export: bool,
    pub not_for_client: bool,
    pub not_for_server: bool,
    pub is_inherited_instance: bool,
}

pub open spec fn decode_export_head(c: Context, p: int) -> Decoded<ExportHead> {
    let d = c.data;
    match decode_i32(d, p) {
        Err(e) => Err(e),
        Ok((class_index, at1)) => match decode_i32(d, at1) {
            Err(e) => Err(e),
            Ok((super_index, at2)) => match decode_i32_or(
                d,
                at2,
                c.with(ObjectVersion::VER_UE4_TEMPLATE_INDEX_IN_COOKED_EXPORTS),
                0,
            ) {
                Err(e) => Err(e),
                Ok((template_index, at3)) => match decode_i32(d, at3) {
                    Err(e) => Err(e),
                    Ok((outer_index, at4)) => match decode_name_reference(d, at4) {
                        Err(e) => Err(e),
                        Ok((object_name, at5)) => match decode_u32(d, at5) {
                            Err(e) => Err(e),
                            Ok((object_flags, at6)) => match decode_serial(c, at6) {
                                Err(e) => Err(e),
                                Ok((serial, at7)) => match decode_bool32(d, at7) {
                                    Err(e) => Err(e),
                                    Ok((forced_export, at8)) => match decode_bool32(d, at8) {
                                        Err(e) => Err(e),
                                        Ok((not_for_client, at9)) => match decode_bool32(d, at9) {
                                            Err(e) => Err(e),
                                            Ok((not_for_server, at10)) => match (if c.with_ue5(
                                                ObjectVersionUE5::REMOVE_OBJECT_EXPORT_PACKAGE_GUID,
                                            ) {
                                                Ok(at10)
                                            } else {
                                                seek_by(at10, 16)
                                            }) {
                                                Err(e) => Err(e),
                                                Ok(at11) => match decode_bool32_or(
                                                    d,
                                                    at11,
                                                    c.with_ue5(
                                                        ObjectVersionUE5::TRACK_OBJECT_EXPORT_IS_INHERITED,
                                                    ),
                                                    false,
                                                ) {
                                                    Err(e) => Err(e),
                                                    Ok((is_inherited_instance, at12)) => Ok(
                                                        (
                                                            ExportHead {
                                                                class_index,
                                                                super_index,
                                                                template_index,
                                                                outer_index,
                                                                object_name,
                                                                object_flags,
                                                                serial,
                                                                forced_export,
                                                                not_for_client,
                                                                not_for_server,
                                                                is_inherited_instance,
                                                            },
                                                            at12,
                                                        ),
                                                    ),
                                                },
                                            },
                                        },
                                    },
                                },
                            },
                        },
                    },
                },
            },
        },
    }
}

/// An export record: the head, then the package flags and the fields that
/// later versions added, each at its own threshold.
pub open spec fn decode_export(c: Context, p: int) -> Decoded<ObjectExport> {
    let d = c.data;
    match decode_export_head(c, p) {
        Err(e) => Err(e),
        Ok((h, at1)) => match decode_u32(d, at1) {
            Err(e) => Err(e),
            Ok((package_flags, at2)) => match decode_bool32_or(
                d,
                at2,
                c.with(ObjectVersion::VER_UE4_LOAD_FOR_EDITOR_GAME),
                true,
            ) {
                Err(e) => Err(e),
                Ok((not_always_loaded_for_editor_game, at3)) => match decode_bool32_or(
                    d,
                    at3,
                    c.with(ObjectVersion::VER_UE4_COOKED_ASSETS_IN_EDITOR_SUPPORT),
                    false,
                ) {
                    Err(e) => Err(e),
                    Ok((is_asset, at4)) => match decode_bool32_or(
                        d,
                        at4,
                        c.with_ue5(ObjectVersionUE5::OPTIONAL_RESOURCES),
                        false,
                    ) {
                        Err(e) => Err(e),
                        Ok((generate_public_hash, at5)) => match decode_dependencies(c, at5) {
                            Err(e) => Err(e),
                            Ok((deps, at6)) => match decode_script_offsets(c, at6) {
                                Err(e) => Err(e),
                                Ok((script, at7)) => Ok(
                                    (
                                        ObjectExport {
                                            class_index: h.class_index,
                                            super_index: h.super_index,
                                            template_index: h.template_index,
                                            outer_index: h.outer_index,
                                            object_name: h.object_name,
                                            object_flags: h.object_flags,
                                            serial_size: h.serial.0,
                                            serial_offset: h.serial.1,
                                            forced_export: h.forced_export,
                                            not_for_client: h.not_for_client,
                                            not_for_server: h.not_for_server,
                                            is_inherited_instance: h.is_inherited_instance,
                                            package_flags,
                                            not_always_loaded_for_editor_game,
                                            is_asset,
                                            generate_public_hash,
                                            first_export_dependency: deps.0,
                                            serialization_before_serialization_dependencies: deps.1,
                                            create_before_serialization_dependencies: deps.2,
                                            serialization_before_create_dependencies: deps.3,
                                            create_before_create_dependencies: deps.4,
                                            script_serialization_start_offset: script.0,
                                            script_serialization_end_offset: script.1,
                                        },
                                        at7,
                                    ),
                                ),
                            },
                        },
                    },
                },
            },
        },
    }
}

/// Codec of name references.
pub struct UnrealNameReference {}

impl UnrealNameReference {
    pub fn parse_inline(ar: &mut Archive) -> (r: Result<NameReference, Error>)
        ensures
            final(ar).ctx() == old(ar).ctx(),
            yields(r, final(ar).reader.position, decode_name_reference(old(ar).ctx().data, old(ar).pos())),
    {
        let index = ar.read_u32()?;
        let number = ar.read_u32()?;
        Ok(NameReference { index, number: if number == 0 { None } else { Some(number) } })
    }
}

/// Codec of import records.
pub struct UnrealClassImport {}

impl UnrealClassImport {
    pub fn parse_inline(ar: &mut Archive) -> (r: Result<ObjectImport, Error>)
        ensures
            final(ar).ctx() == old(ar).ctx(),
            yields(r, final(ar).reader.position, decode_import(old(ar).ctx(), old(ar).pos())),
    {
        let class_package = UnrealNameReference::parse_inline(ar)?;
        let class_name = UnrealNameReference::parse_inline(ar)?;
        let outer_index = ar.read_i32()?;
        let object_name = UnrealNameReference::parse_inline(ar)?;
        let package_name = if ar.serialized_with(
            ObjectVersion(ObjectVersion::VER_UE4_NON_OUTER_PACKAGE_IMPORT),
        ) && ar.serialized_with_editoronly_data() {
            Some(UnrealNameReference::parse_inline(ar)?)
        } else {
            None
        };
        let import_optional = if ar.serialized_with(
            ObjectVersionUE5(ObjectVersionUE5::OPTIONAL_RESOURCES),
        ) {
            ar.read_bool32()?
        } else {
            false
        };
        Ok(
            ObjectImport {
                class_package,
                class_name,
                outer_index,
                object_name,
                package_name,
                import_optional,
            },
        )
    }
}

/// Codec of export records.
pub struct UnrealObjectExport {}

impl UnrealObjectExport {
    fn parse_serial(ar: &mut Archive) -> (r: Result<(i64, i64), Error>)
        ensures
            final(ar).ctx() == old(ar).ctx(),
            yields(r, final(ar).reader.position, decode_serial(old(ar).ctx(), old(ar).pos())),
    {
        if ar.serialized_with(ObjectVersion(ObjectVersion::VER_UE4_64BIT_EXPORTMAP_SERIALSIZES)) {
            let size = ar.read_i64()?;
            let offset = ar.read_i64()?;
            Ok((size, offset))
        } else {
            let size = ar.read_i32()?;
            let offset = ar.read_i32()?;
            Ok((size as i64, offset as i64))
        }
    }

    fn parse_dependencies(ar: &mut Archive) -> (r: Result<(i32, i32, i32, i32, i32), Error>)
        ensures
            final(ar).ctx() == old(ar).ctx(),
            yields(r, final(ar).reader.position, decode_dependencies(old(ar).ctx(), old(ar).pos())),
    {
        if ar.serialized_with(
            ObjectVersion(ObjectVersion::VER_UE4_PRELOAD_DEPENDENCIES_IN_COOKED_EXPORTS),
        ) {
            let a = ar.read_i32()?;
            let b = ar.read_i32()?;
            let x = ar.read_i32()?;
            let y = ar.read_i32()?;
            let z = ar.read_i32()?;
            Ok((a, b, x, y, z))
        } else {
            Ok((-1, -1, -1, -1, -1))
        }
    }

    fn parse_script_offsets(ar: &mut Archive) -> (r: Result<(i64, i64), Error>)
        ensures
            final(ar).ctx() == old(ar).ctx(),
            yields(r, final(ar).reader.position, decode_script_offsets(old(ar).ctx(), old(ar).pos())),
    {
        if ar.serialized_with(ObjectVersionUE5(ObjectVersionUE5::SCRIPT_SERIALIZATION_OFFSET)) {
            let a = ar.read_i64()?;
            let b = ar.read_i64()?;
            Ok((a, b))
        } else {
            Ok((0, 0))
        }
    }

    fn parse_head(ar: &mut Archive) -> (r: Result<ExportHead, Error>)
        ensures
            final(ar).ctx() == old(ar).ctx(),
            yields(r, final(ar).reader.position, decode_export_head(old(ar).ctx(), old(ar).pos())),
    {
        let class_index = ar.read_i32()?;
        let super_index = ar.read_i32()?;
        let template_index = if ar.serialized_with(
            ObjectVersion(ObjectVersion::VER_UE4_TEMPLATE_INDEX_IN_COOKED_EXPORTS),
        ) {
            ar.read_i32()?
        } else {
            0
        };
        let outer_index = ar.read_i32()?;
        let object_name = UnrealNameReference::parse_inline(ar)?;
        let object_flags = ar.read_u32()?;
        let serial = Self::parse_serial(ar)?;
        let forced_export = ar.read_bool32()?;
        let not_for_client = ar.read_bool32()?;
        let not_for_server = ar.read_bool32()?;
        if ar.serialized_without(
            ObjectVersionUE5(ObjectVersionUE5::REMOVE_OBJECT_EXPORT_PACKAGE_GUID),
        ) {
            ar.seek_relative(16)?;
        }
        let is_inherited_instance = if ar.serialized_with(
            ObjectVersionUE5(ObjectVersionUE5::TRACK_OBJECT_EXPORT_IS_INHERITED),
        ) {
            ar.read_bool32()?
        } else {
            false
        };
        Ok(
            ExportHead {
                class_index,
                super_index,
                template_index,
                outer_index,
                object_name,
                object_flags,
                serial,
                forced_export,
                not_for_client,
                not_for_server,
                is_inherited_instance,
            },
        )
    }

    pub fn parse_inline(ar: &mut Archive) -> (r: Result<ObjectExport, Error>)
        ensures
            final(ar).ctx() == old(ar).ctx(),
            yields(r, final(ar).reader.position, decode_export(old(ar).ctx(), old(ar).pos())),
    {
        let h = Self::parse_head(ar)?;
        let package_flags = ar.read_u32()?;
        let not_always_loaded_for_editor_game = if ar.serialized_with(
            ObjectVersion(ObjectVersion::VER_UE4_LOAD_FOR_EDITOR_GAME),
        ) {
            ar.read_bool32()?
        } else {
            true
        };
        let is_asset = if ar.serialized_with(
            ObjectVersion(ObjectVersion::VER_UE4_COOKED_ASSETS_IN_EDITOR_SUPPORT),
        ) {
            ar.read_bool32()?
        } else {
            false
        };
        let generate_public_hash = if ar.serialized_with(
            ObjectVersionUE5(ObjectVersionUE5::OPTIONAL_RESOURCES),
        ) {
            ar.read_bool32()?
        } else {
            false
        };
        let deps = Self::parse_dependencies(ar)?;
        let script = Self::parse_script_offsets(ar)?;
        Ok(
            ObjectExport {
                class_index: h.class_index,
                super_index: h.super_index,
                template_index: h.template_index,
                outer_index: h.outer_index,
                object_name: h.object_name,
                object_flags: h.object_flags,
                serial_size: h.serial.0,
                serial_offset: h.serial.1,
                forced_export: h.forced_export,
                not_for_client: h.not_for_client,
                not_for_server: h.not_for_server,
                is_inherited_instance: h.is_inherited_instance,
                package_flags,
                not_always_loaded_for_editor_game,
                is_asset,
                generate_public_hash,
                first_export_dependency: deps.0,
                serialization_before_serialization_dependencies: deps.1,
                create_before_serialization_dependencies: deps.2,
                serialization_before_create_dependencies: deps.3,
                create_before_create_dependencies: deps.4,
                script_serialization_start_offset: script.0,
                script_serialization_end_offset: script.1,
            },
        )
    }
}

/// The engine version an asset was saved with, or is compatible with.
#[derive(Debug)]
pub struct UnrealEngineVersion {
    pub major: u16,
    pub minor: u16,
    pub patch: u16,
    pub changelist: u32,
    pub is_licensee_version: bool,
    pub branch_name: String,
}

/// The mathematical value of an engine version.
pub struct EngineVersionView {
    pub major: u16,
    pub minor: u16,
    pub patch: u16,
    pub changelist: u32,
    pub is_licensee_version: bool,
    pub branch_name: Seq<char>,
}

impl View for UnrealEngineVersion {
    type V = EngineVersionView;

    open spec fn view(&self) -> EngineVersionView {
        EngineVersionView {
            major: self.major,
            minor: self.minor,
            patch: self.patch,
            changelist: self.changelist,
            is_licensee_version: self.is_licensee_version,
            branch_name: self.branch_name@,
        }
    }
}

/// Bit 31 of a raw changelist marks a licensee build; the low 31 bits are the changelist.
pub open spec fn changelist_bits(raw: u32) -> (u32, bool) {
    ((raw % 0x8000_0000) as u32, raw >= 0x8000_0000)
}

/// Version 4.0.0 at a raw changelist, with no branch name.
pub open spec fn version_from_changelist(raw: u32) -> EngineVersionView {
    EngineVersionView {
        major: 4,
        minor: 0,
        patch: 0,
        changelist: changelist_bits(raw).0,
        is_licensee_version: changelist_bits(raw).1,
        branch_name: seq![],
    }
}

/// A full engine-version record: major, minor, patch, raw changelist, branch name.
pub open spec fn decode_engine_version(d: Seq<u8>, p: int) -> Decoded<EngineVersionView> {
    match decode_u16(d, p) {
        Err(e) => Err(e),
        Ok((major, at1)) => match decode_u16(d, at1) {
            Err(e) => Err(e),
            Ok((minor, at2)) => match decode_u16(d, at2) {
                Err(e) => Err(e),
                Ok((patch, at3)) => match decode_u32(d, at3) {
                    Err(e) => Err(e),
                    Ok((raw, at4)) => match decode_string(d, at4) {
                        Err(e) => Err(e),
                        Ok((branch_name, at5)) => Ok(
                            (
                                EngineVersionView {
                                    major,
                                    minor,
                                    patch,
                                    changelist: changelist_bits(raw).0,
                                    is_licensee_version: changelist_bits(raw).1,
                                    branch_name,
                                },
                                at5,
                            ),
                        ),
                    },
                },
            },
        },
    }
}

/// Whether an engine-version result and the cursor after it agree with a decoding.
pub open spec fn version_yields(
    r: Result<UnrealEngineVersion, Error>,
    end: int,
    expected: Decoded<EngineVersionView>,
) -> bool {
    match expected {
        Ok((v, q)) => r matches Ok(x) && x@ == v && end == q,
        Err(e) => r matches Err(x) && x == e,
    }
}

impl UnrealEngineVersion {
    pub const LICENSEE_BIT_MASK: u32 = 0x80000000;
    pub const CHANGELIST_MASK: u32 = 0x7fffffff;

    pub fn empty() -> (r: UnrealEngineVersion)
        ensures
            r@ == (EngineVersionView {
                major: 0,
                minor: 0,
                patch: 0,
                changelist: 0,
                is_licensee_version: false,
                branch_name: seq![],
            }),
    {
        UnrealEngineVersion {
            major: 0,
            minor: 0,
            patch: 0,
            changelist: 0,
            is_licensee_version: false,
            branch_name: String::new(),
        }
    }

    pub fn from_changelist(changelist: u32) -> (r: UnrealEngineVersion)
        ensures
            r@ == version_from_changelist(changelist),
    {
        let (cl, licensee) = if changelist >= 0x8000_0000 {
            (changelist - 0x8000_0000, true)
        } else {
            (changelist, false)
        };
        UnrealEngineVersion {
            major: 4,
            minor: 0,
            patch: 0,
            changelist: cl,
            is_licensee_version: licensee,
            branch_name: String::new(),
        }
    }

    /// No changelist and no licensee flag: the asset was saved without an engine version.
    pub fn is_empty(&self) -> (r: bool)
        ensures
            r == (self.changelist == 0 && !self.is_licensee_version),
    {
        self.changelist == 0 && !self.is_licensee_version
    }

    /// A copy with the same value.
    pub fn duplicate(&self) -> (r: UnrealEngineVersion)
        ensures
            r@ == self@,
    {
        UnrealEngineVersion {
            major: self.major,
            minor: self.minor,
            patch: self.patch,
            changelist: self.changelist,
            is_licensee_version: self.is_licensee_version,
            branch_name: self.branch_name.clone(),
        }
    }

    pub fn parse_inline(ar: &mut Archive) -> (r: Result<UnrealEngineVersion, Error>)
        ensures
            final(ar).ctx() == old(ar).ctx(),
            version_yields(r, final(ar).pos(), decode_engine_version(old(ar).ctx().data, old(ar).pos())),
    {
        let major = ar.read_u16()?;
        let minor = ar.read_u16()?;
        let patch = ar.read_u16()?;
        let raw = ar.read_u32()?;
        let branch_name = parse_string(ar)?;
        let base = Self::from_changelist(raw);
        Ok(
            UnrealEngineVersion {
                major,
                minor,
                patch,
                changelist: base.changelist,
                is_licensee_version: base.is_licensee_version,
                branch_name,
            },
        )
    }
}

/// Size of the fixed part of an engine-version record: three 16-bit numbers
/// and the raw changelist.
pub const ENGINE_VERSION_BASE_SIZE: u64 = 10;

/// An engine-version record is passed over by its fixed part and then its
/// branch name.
pub open spec fn skip_engine_version(d: Seq<u8>, p: int) -> Result<int, Error> {
    match seek_by(p, ENGINE_VERSION_BASE_SIZE as int) {
        Err(e) => Err(e),
        Ok(q) => skip_string(d, q),
    }
}

impl Skippable for UnrealEngineVersion {
    fn seek_past_with_info(ar: &mut Archive, info: &SingleItemStreamInfo) -> (r: Result<(), Error>)
        ensures
            final(ar).ctx() == old(ar).ctx(),
            skipped(r, final(ar).pos(), skip_engine_version(old(ar).ctx().data, info.offset as int)),
    {
        ar.seek_start(info.offset);
        ar.seek_relative(ENGINE_VERSION_BASE_SIZE as i64)?;
        skip_string_at_cursor(ar)
    }

    fn seek_past(ar: &mut Archive) -> (r: Result<(), Error>)
        ensures
            final(ar).ctx() == old(ar).ctx(),
            skipped(r, final(ar).pos(), skip_engine_version(old(ar).ctx().data, old(ar).pos())),
    {
        ar.seek_relative(ENGINE_VERSION_BASE_SIZE as i64)?;
        skip_string_at_cursor(ar)
    }
}

/// An entry of the thumbnail table.
#[derive(Debug)]
pub struct ThumbnailInfo {
    pub object_class_name: String,
    pub object_path_without_package_name: String,
    pub file_offset: i32,
}

pub struct ThumbnailInfoView {
    pub object_class_name: Seq<char>,
    pub object_path_without_package_name: Seq<char>,
    pub file_offset: i32,
}

impl View for ThumbnailInfo {
    type V = ThumbnailInfoView;

    open spec fn view(&self) -> ThumbnailInfoView {
        ThumbnailInfoView {
            object_class_name: self.object_class_name@,
            object_path_without_package_name: self.object_path_without_package_name@,
            file_offset: self.file_offset,
        }
    }
}

/// A thumbnail entry: the class name, the object path, and the data offset.
pub open spec fn decode_thumbnail(d: Seq<u8>, p: int) -> Decoded<ThumbnailInfoView> {
    match decode_string(d, p) {
        Err(e) => Err(e),
        Ok((object_class_name, at1)) => match decode_string(d, at1) {
            Err(e) => Err(e),
            Ok((object_path_without_package_name, at2)) => match decode_i32(d, at2) {
                Err(e) => Err(e),
                Ok((file_offset, at3)) => Ok(
                    (ThumbnailInfoView { object_class_name, object_path_without_package_name, file_offset }, at3),
                ),
            },
        },
    }
}

/// Codec of thumbnail-table entries.
pub struct UnrealThumbnailInfo {}

impl UnrealThumbnailInfo {
    pub fn parse_inline(ar: &mut Archive) -> (r: Result<ThumbnailInfo, Error>)
        ensures
            final(ar).ctx() == old(ar).ctx(),
            match decode_thumbnail(old(ar).ctx().data, old(ar).pos()) {
                Ok((v, q)) => r matches Ok(x) && x@ == v && final(ar).pos() == q,
                Err(e) => r matches Err(x) && x == e,
            },
    {
        let object_class_name = parse_string(ar)?;
        let object_path_without_package_name = parse_string(ar)?;
        let file_offset = ar.read_i32()?;
        Ok(ThumbnailInfo { object_class_name, object_path_without_package_name, file_offset })
    }
}

} // verus!
