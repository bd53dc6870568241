use vstd::prelude::*;

use crate::archive::{
    Archive, Context, CustomVersionSerializationFormat, Preamble, SerializedFlags,
    SerializedObjectVersion, decode_preamble,
};
use crate::error::Error;
use crate::records::{
    EngineVersionView, ObjectExport, ObjectImport, UnrealEngineVersion, decode_engine_version,
    version_from_changelist, version_yields,
};
use crate::serialization::{
    ArrayStreamInfo, COMPRESSED_CHUNK_SIZE, CUSTOM_VERSION_SIZE, GENERATION_INFO_SIZE, GUID_SIZE,
    Skippable, UnrealArray, UnrealGuid, UnrealString, decode_indirect, decode_inline, decode_run,
    export_elem, guid_custom_version_elem, i32_elem, import_elem, skip_counted_fixed, skip_fixed,
    skipped, string_elem, vec_yields, views, widen, widen_i32,
};
use crate::stream::{Decoded, decode_i32, decode_i64, decode_u32, seek_by, yields};
use crate::strings::decode_string;
use crate::versions::{ObjectVersion, ObjectVersionUE5, PackageFlags};

verus! {

/// Editor-only data is present exactly when the filter-editor-only bit, the
/// top bit, is clear.
pub open spec fn has_editor_only_data(package_flags: u32) -> bool {
    package_flags < 0x8000_0000
}

/// Two 32-bit values stored only when `present`, else both zero.
pub open spec fn decode_pair_or_zero(d: Seq<u8>, p: int, present: bool) -> Decoded<(i32, i32)> {
    if present {
        match decode_i32(d, p) {
            Err(e) => Err(e),
            Ok((a, at1)) => match decode_i32(d, at1) {
                Err(e) => Err(e),
                Ok((b, at2)) => Ok(((a, b), at2)),
            },
        }
    } else {
        Ok(((0i32, 0i32), p))
    }
}

pub open spec fn decode_opt_i32(d: Seq<u8>, p: int, present: bool) -> Decoded<Option<i32>> {
    if present {
        match decode_i32(d, p) {
            Err(e) => Err(e),
            Ok((v, q)) => Ok((Some(v), q)),
        }
    } else {
        Ok((None, p))
    }
}

pub open spec fn decode_opt_i64(d: Seq<u8>, p: int, present: bool) -> Decoded<Option<i64>> {
    if present {
        match decode_i64(d, p) {
            Err(e) => Err(e),
            Ok((v, q)) => Ok((Some(v), q)),
        }
    } else {
        Ok((None, p))
    }
}

/// An offset stored only when `present`, where zero or less means none.
pub open spec fn decode_positive_offset(d: Seq<u8>, p: int, present: bool) -> Decoded<Option<i32>> {
    if present {
        match decode_i32(d, p) {
            Err(e) => Err(e),
            Ok((v, q)) => Ok((if v > 0 { Some(v) } else { None }, q)),
        }
    } else {
        Ok((None, p))
    }
}

pub open spec fn decode_opt_string(d: Seq<u8>, p: int, present: bool) -> Decoded<Option<Seq<char>>> {
    if present {
        match decode_string(d, p) {
            Err(e) => Err(e),
            Ok((s, q)) => Ok((Some(s), q)),
        }
    } else {
        Ok((None, p))
    }
}

/// The custom-version table, in the layout that the legacy version selects.
pub open spec fn skip_custom_versions(c: Context, p: int) -> Result<int, Error> {
    match decode_i32(c.data, p) {
        Err(e) => Err(e),
        Ok((count, at1)) => match c.format() {
            CustomVersionSerializationFormat::Optimized => skip_fixed(
                at1,
                widen(count) as int,
                CUSTOM_VERSION_SIZE as int,
            ),
            CustomVersionSerializationFormat::Guids => match decode_run(
                guid_custom_version_elem(c.data),
                widen(count) as nat,
                at1,
            ) {
                Err(e) => Err(e),
                Ok((_units, q)) => Ok(q),
            },
        },
    }
}

/// The package GUID; then, with editor-only data at or past the package owner
/// version, the persistent GUID, and before the non-outer package import
/// version also the owner's persistent GUID.
pub open spec fn skip_guids(c: Context, p: int) -> Result<int, Error> {
    match seek_by(p, GUID_SIZE as int) {
        Err(e) => Err(e),
        Ok(at1) => if c.with(ObjectVersion::VER_UE4_ADDED_PACKAGE_OWNER) && c.with_editoronly_data {
            match seek_by(at1, GUID_SIZE as int) {
                Err(e) => Err(e),
                Ok(at2) => if !c.with(ObjectVersion::VER_UE4_NON_OUTER_PACKAGE_IMPORT) {
                    seek_by(at2, GUID_SIZE as int)
                } else {
                    Ok(at2)
                },
            }
        } else {
            Ok(at1)
        },
    }
}

/// The saved-by engine version: a full record at or past its version, else a
/// raw changelist.
pub open spec fn decode_saved_by(c: Context, p: int) -> Decoded<EngineVersionView> {
    if c.with(ObjectVersion::VER_UE4_ENGINE_VERSION_OBJECT) {
        decode_engine_version(c.data, p)
    } else {
        match decode_u32(c.data, p) {
            Err(e) => Err(e),
            Ok((raw, q)) => Ok((version_from_changelist(raw), q)),
        }
    }
}

/// The compatible-with engine version: a full record at or past its version,
/// else the saved-by version.
pub open spec fn decode_compatible(c: Context, p: int, saved_by: EngineVersionView) -> Decoded<EngineVersionView> {
    if c.with(ObjectVersion::VER_UE4_PACKAGE_SUMMARY_HAS_COMPATIBLE_ENGINE_VERSION) {
        decode_engine_version(c.data, p)
    } else {
        Ok((saved_by, p))
    }
}

/// Chunk ids: an array at or past its version; before it a single id that
/// counts only when non-negative; before that none.
pub open spec fn decode_chunk_ids(c: Context, p: int) -> Decoded<Seq<i32>> {
    if c.with(ObjectVersion::VER_UE4_CHANGED_CHUNKID_TO_BE_AN_ARRAY_OF_CHUNKIDS) {
        decode_inline(i32_elem(c.data), c.data, p)
    } else if c.with(ObjectVersion::VER_UE4_ADDED_CHUNKID_TO_ASSETDATA_AND_UPACKAGE) {
        match decode_i32(c.data, p) {
            Err(e) => Err(e),
            Ok((id, q)) => Ok((if id >= 0 { seq![id] } else { seq![] }, q)),
        }
    } else {
        Ok((seq![], p))
    }
}

/// The preload dependency count and offset: stored at or past their version,
/// else a count of -1 and an offset of 0.
pub open spec fn decode_preload(d: Seq<u8>, p: int, present: bool) -> Decoded<(i32, i32)> {
    if present {
        match decode_i32(d, p) {
            Err(e) => Err(e),
            Ok((a, at1)) => match decode_i32(d, at1) {
                Err(e) => Err(e),
                Ok((b, at2)) => Ok(((a, b), at2)),
            },
        }
    } else {
        Ok(((-1i32, 0i32), p))
    }
}

/// The names count referenced from export data: stored at or past its version,
/// else the size of the name table.
pub open spec fn decode_names_referenced(c: Context, p: int, name_count: int) -> Decoded<i32> {
    if c.with_ue5(ObjectVersionUE5::NAMES_REFERENCED_FROM_EXPORT_DATA) {
        decode_i32(c.data, p)
    } else {
        Ok((name_count as i32, p))
    }
}

/// What a decoded header holds, as mathematical values.
pub struct HeaderView {
    pub preamble: Preamble,
    pub with_editoronly_data: bool,
    pub total_header_size: i32,
    pub folder_name: Seq<char>,
    pub package_flags: u32,
    pub names: Seq<Seq<char>>,
    pub soft_object_paths_count: i32,
    pub soft_object_paths_offset: i32,
    pub localization_id: Option<Seq<char>>,
    pub gatherable_text_data_count: i32,
    pub gatherable_text_data_offset: i32,
    pub exports: Seq<ObjectExport>,
    pub imports: Seq<ObjectImport>,
    pub depends_offset: i32,
    pub soft_package_references_count: i32,
    pub soft_package_references_offset: i32,
    pub searchable_names_offset: Option<i32>,
    pub thumbnail_table_offset: i32,
    pub engine_version: EngineVersionView,
    pub compatible_with_engine_version: EngineVersionView,
    pub compression_flags: u32,
    pub package_source: u32,
    pub additional_packages_to_cook: Seq<Seq<char>>,
    pub texture_allocations: Option<i32>,
    pub asset_registry_data_offset: i32,
    pub bulk_data_start_offset: i64,
    pub world_tile_info_data_offset: Option<i32>,
    pub chunk_ids: Seq<i32>,
    pub preload_dependency_count: i32,
    pub preload_dependency_offset: i32,
    pub names_referenced_from_export_data_count: i32,
    pub payload_toc_offset: Option<i64>,
    pub data_resource_offset: Option<i32>,
}

/// The opening fields: custom versions (skipped), total header size, folder
/// name and package flags.
pub open spec fn decode_opening(c: Context, p: int) -> Decoded<(i32, Seq<char>, u32)> {
    match skip_custom_versions(c, p) {
        Err(e) => Err(e),
        Ok(at1) => match decode_i32(c.data, at1) {
            Err(e) => Err(e),
            Ok((total_header_size, at2)) => match decode_string(c.data, at2) {
                Err(e) => Err(e),
                Ok((folder_name, at3)) => match decode_u32(c.data, at3) {
                    Err(e) => Err(e),
                    Ok((package_flags, at4)) => Ok(((total_header_size, folder_name, package_flags), at4)),
                },
            },
        },
    }
}

/// The name table, soft object paths, localization id and gatherable text, added to `h`.
pub open spec fn decode_name_block(c: Context, p: int, h: HeaderView) -> Result<(HeaderView, int), Error> {
    let d = c.data;
    match decode_indirect(string_elem(d, c.with(ObjectVersion::VER_UE4_NAME_HASHES_SERIALIZED)), d, p) {
        Err(e) => Err(e),
        Ok((names, at1)) => match decode_pair_or_zero(d, at1, c.with_ue5(ObjectVersionUE5::ADD_SOFTOBJECTPATH_LIST)) {
            Err(e) => Err(e),
            Ok((soft_paths, at2)) => match decode_opt_string(
                d,
                at2,
                c.with(ObjectVersion::VER_UE4_ADDED_PACKAGE_SUMMARY_LOCALIZATION_ID) && c.with_editoronly_data,
            ) {
                Err(e) => Err(e),
                Ok((localization_id, at3)) => match decode_pair_or_zero(
                    d,
                    at3,
                    c.with(ObjectVersion::VER_UE4_SERIALIZE_TEXT_IN_PACKAGES),
                ) {
                    Err(e) => Err(e),
                    Ok((gatherable, at4)) => Ok(
                        (
                            HeaderView {
                                names,
                                soft_object_paths_count: soft_paths.0,
                                soft_object_paths_offset: soft_paths.1,
                                localization_id,
                                gatherable_text_data_count: gatherable.0,
                                gatherable_text_data_offset: gatherable.1,
                                ..h
                            },
                            at4,
                        ),
                    ),
                },
            },
        },
    }
}

/// The export and import tables, depends offset, soft package references,
/// searchable names offset and thumbnail table offset, added to `h`.
pub open spec fn decode_object_block(c: Context, p: int, h: HeaderView) -> Result<(HeaderView, int), Error> {
    let d = c.data;
    match decode_indirect(export_elem(c), d, p) {
        Err(e) => Err(e),
        Ok((exports, at1)) => match decode_indirect(import_elem(c), d, at1) {
            Err(e) => Err(e),
            Ok((imports, at2)) => match decode_i32(d, at2) {
                Err(e) => Err(e),
                Ok((depends_offset, at3)) => match decode_pair_or_zero(
                    d,
                    at3,
                    c.with(ObjectVersion::VER_UE4_ADD_STRING_ASSET_REFERENCES_MAP),
                ) {
                    Err(e) => Err(e),
                    Ok((soft_refs, at4)) => match decode_opt_i32(
                        d,
                        at4,
                        c.with(ObjectVersion::VER_UE4_ADDED_SEARCHABLE_NAMES),
                    ) {
                        Err(e) => Err(e),
                        Ok((searchable_names_offset, at5)) => match decode_i32(d, at5) {
                            Err(e) => Err(e),
                            Ok((thumbnail_table_offset, at6)) => Ok(
                                (
                                    HeaderView {
                                        exports,
                                        imports,
                                        depends_offset,
                                        soft_package_references_count: soft_refs.0,
                                        soft_package_references_offset: soft_refs.1,
                                        searchable_names_offset,
                                        thumbnail_table_offset,
                                        ..h
                                    },
                                    at6,
                                ),
                            ),
                        },
                    },
                },
            },
        },
    }
}

/// The GUIDs and generations (skipped), the two engine versions and the
/// compression flags, added to `h`.
pub open spec fn decode_engine_block(c: Context, p: int, h: HeaderView) -> Result<(HeaderView, int), Error> {
    let d = c.data;
    match skip_guids(c, p) {
        Err(e) => Err(e),
        Ok(at1) => match skip_counted_fixed(d, at1, GENERATION_INFO_SIZE as int) {
            Err(e) => Err(e),
            Ok(at2) => match decode_saved_by(c, at2) {
                Err(e) => Err(e),
                Ok((engine_version, at3)) => match decode_compatible(c, at3, engine_version) {
                    Err(e) => Err(e),
                    Ok((compatible, at4)) => match decode_u32(d, at4) {
                        Err(e) => Err(e),
                        Ok((compression_flags, at5)) => Ok(
                            (
                                HeaderView {
                                    engine_version,
                                    compatible_with_engine_version: compatible,
                                    compression_flags,
                                    ..h
                                },
                                at5,
                            ),
                        ),
                    },
                },
            },
        },
    }
}

/// The compressed chunks (skipped), package source, additional packages to
/// cook, texture allocations (legacy versions above -7 only) and asset
/// registry offset, added to `h`.
pub open spec fn decode_cook_block(c: Context, p: int, h: HeaderView) -> Result<(HeaderView, int), Error> {
    let d = c.data;
    match skip_counted_fixed(d, p, COMPRESSED_CHUNK_SIZE as int) {
        Err(e) => Err(e),
        Ok(at1) => match decode_u32(d, at1) {
            Err(e) => Err(e),
            Ok((package_source, at2)) => match decode_inline(string_elem(d, false), d, at2) {
                Err(e) => Err(e),
                Ok((additional, at3)) => match decode_opt_i32(d, at3, c.legacy_version > -7) {
                    Err(e) => Err(e),
                    Ok((texture_allocations, at4)) => match decode_i32(d, at4) {
                        Err(e) => Err(e),
                        Ok((asset_registry_data_offset, at5)) => Ok(
                            (
                                HeaderView {
                                    package_source,
                                    additional_packages_to_cook: additional,
                                    texture_allocations,
                                    asset_registry_data_offset,
                                    ..h
                                },
                                at5,
                            ),
                        ),
                    },
                },
            },
        },
    }
}

/// The bulk data offset, world tile offset, chunk ids and preload
/// dependencies, added to `h`.
pub open spec fn decode_chunk_block(c: Context, p: int, h: HeaderView) -> Result<(HeaderView, int), Error> {
    let d = c.data;
    match decode_i64(d, p) {
        Err(e) => Err(e),
        Ok((bulk_data_start_offset, at1)) => match decode_positive_offset(
            d,
            at1,
            c.with(ObjectVersion::VER_UE4_WORLD_LEVEL_INFO),
        ) {
            Err(e) => Err(e),
            Ok((world_tile, at2)) => match decode_chunk_ids(c, at2) {
                Err(e) => Err(e),
                Ok((chunk_ids, at3)) => match decode_preload(
                    d,
                    at3,
                    c.with(ObjectVersion::VER_UE4_PRELOAD_DEPENDENCIES_IN_COOKED_EXPORTS),
                ) {
                    Err(e) => Err(e),
                    Ok((preload, at4)) => Ok(
                        (
                            HeaderView {
                                bulk_data_start_offset,
                                world_tile_info_data_offset: world_tile,
                                chunk_ids,
                                preload_dependency_count: preload.0,
                                preload_dependency_offset: preload.1,
                                ..h
                            },
                            at4,
                        ),
                    ),
                },
            },
        },
    }
}

/// The count of names referenced from export data, the payload table of
/// contents offset and the data resource offset, added to `h`.
pub open spec fn decode_closing_block(c: Context, p: int, h: HeaderView) -> Result<(HeaderView, int), Error> {
    let d = c.data;
    match decode_names_referenced(c, p, h.names.len() as int) {
        Err(e) => Err(e),
        Ok((names_referenced, at1)) => match decode_opt_i64(d, at1, c.with_ue5(ObjectVersionUE5::PAYLOAD_TOC)) {
            Err(e) => Err(e),
            Ok((payload_toc_offset, at2)) => match decode_positive_offset(
                d,
                at2,
                c.with_ue5(ObjectVersionUE5::DATA_RESOURCES),
            ) {
                Err(e) => Err(e),
                Ok((data_resource_offset, at3)) => Ok(
                    (
                        HeaderView {
                            names_referenced_from_export_data_count: names_referenced,
                            payload_toc_offset,
                            data_resource_offset,
                            ..h
                        },
                        at3,
                    ),
                ),
            },
        },
    }
}

/// The engine version with every field zero or empty.
pub open spec fn empty_engine_version() -> EngineVersionView {
    EngineVersionView {
        major: 0,
        minor: 0,
        patch: 0,
        changelist: 0,
        is_licensee_version: false,
        branch_name: seq![],
    }
}

/// A header that holds the opening fields, with every later field zero, empty or absent.
pub open spec fn blank_header(
    preamble: Preamble,
    with_editoronly_data: bool,
    total_header_size: i32,
    folder_name: Seq<char>,
    package_flags: u32,
) -> HeaderView {
    HeaderView {
        preamble,
        with_editoronly_data,
        total_header_size,
        folder_name,
        package_flags,
        names: seq![],
        soft_object_paths_count: 0,
        soft_object_paths_offset: 0,
        localization_id: None,
        gatherable_text_data_count: 0,
        gatherable_text_data_offset: 0,
        exports: seq![],
        imports: seq![],
        depends_offset: 0,
        soft_package_references_count: 0,
        soft_package_references_offset: 0,
        searchable_names_offset: None,
        thumbnail_table_offset: 0,
        engine_version: empty_engine_version(),
        compatible_with_engine_version: empty_engine_version(),
        compression_flags: 0,
        package_source: 0,
        additional_packages_to_cook: seq![],
        texture_allocations: None,
        asset_registry_data_offset: 0,
        bulk_data_start_offset: 0,
        world_tile_info_data_offset: None,
        chunk_ids: seq![],
        preload_dependency_count: 0,
        preload_dependency_offset: 0,
        names_referenced_from_export_data_count: 0,
        payload_toc_offset: None,
        data_resource_offset: None,
    }
}

/// The context in which decoding runs once the preamble has been read.
pub open spec fn context_of(d: Seq<u8>, pre: Preamble, editor: bool) -> Context {
    Context {
        data: d,
        file_version: pre.file_version,
        file_version_ue5: pre.file_version_ue5,
        file_licensee_version: pre.file_licensee_version,
        legacy_version: pre.legacy_version,
        with_editoronly_data: editor,
    }
}

/// The whole header of an asset, or the first error met while decoding it.
pub open spec fn decode_header(d: Seq<u8>) -> Result<HeaderView, Error> {
    match decode_preamble(d) {
        Err(e) => Err(e),
        Ok((pre, at0)) => match decode_opening(context_of(d, pre, false), at0) {
            Err(e) => Err(e),
            Ok(((total_header_size, folder_name, package_flags), at1)) => {
                let editor = has_editor_only_data(package_flags);
                let c = context_of(d, pre, editor);
                let h0 = blank_header(pre, editor, total_header_size, folder_name, package_flags);
                match decode_name_block(c, at1, h0) {
                    Err(e) => Err(e),
                    Ok((h1, at2)) => match decode_object_block(c, at2, h1) {
                        Err(e) => Err(e),
                        Ok((h2, at3)) => match decode_engine_block(c, at3, h2) {
                            Err(e) => Err(e),
                            Ok((h3, at4)) => match decode_cook_block(c, at4, h3) {
                                Err(e) => Err(e),
                                Ok((h4, at5)) => match decode_chunk_block(c, at5, h4) {
                                    Err(e) => Err(e),
                                    Ok((h5, at6)) => match decode_closing_block(c, at6, h5) {
                                        Err(e) => Err(e),
                                        Ok((h6, _p7)) => Ok(h6),
                                    },
                                },
                            },
                        },
                    },
                }
            },
        },
    }
}

pub open spec fn opt_view(s: Option<String>) -> Option<Seq<char>> {
    match s {
        Some(v) => Some(v@),
        None => None,
    }
}

/// The package summary of an asset: what precedes the object data, with the
/// name, import and export tables loaded.
#[derive(Debug)]
pub struct AssetHeader {
    pub archive: Archive,
    pub total_header_size: i32,
    pub folder_name: String,
    pub package_flags: u32,
    pub names: Vec<String>,
    pub soft_object_paths_count: i32,
    pub soft_object_paths_offset: i32,
    pub localization_id: Option<String>,
    pub gatherable_text_data_count: i32,
    pub gatherable_text_data_offset: i32,
    pub exports: Vec<ObjectExport>,
    pub imports: Vec<ObjectImport>,
    pub depends_offset: i32,
    pub soft_package_references_count: i32,
    pub soft_package_references_offset: i32,
    pub searchable_names_offset: Option<i32>,
    pub thumbnail_table_offset: i32,
    pub engine_version: UnrealEngineVersion,
    pub compatible_with_engine_version: UnrealEngineVersion,
    pub compression_flags: u32,
    pub package_source: u32,
    pub additional_packages_to_cook: Vec<String>,
    pub texture_allocations: Option<i32>,
    pub asset_registry_data_offset: i32,
    pub bulk_data_start_offset: i64,
    pub world_tile_info_data_offset: Option<i32>,
    pub chunk_ids: Vec<i32>,
    pub preload_dependency_count: i32,
    pub preload_dependency_offset: i32,
    pub names_referenced_from_export_data_count: i32,
    pub payload_toc_offset: Option<i64>,
    pub data_resource_offset: Option<i32>,
}

impl View for AssetHeader {
    type V = HeaderView;

    open spec fn view(&self) -> HeaderView {
        HeaderView {
            preamble: self.archive.preamble(),
            with_editoronly_data: self.archive.with_editoronly_data,
            total_header_size: self.total_header_size,
            folder_name: self.folder_name@,
            package_flags: self.package_flags,
            names: views(self.names@),
            soft_object_paths_count: self.soft_object_paths_count,
            soft_object_paths_offset: self.soft_object_paths_offset,
            localization_id: opt_view(self.localization_id),
            gatherable_text_data_count: self.gatherable_text_data_count,
            gatherable_text_data_offset: self.gatherable_text_data_offset,
            exports: self.exports@,
            imports: self.imports@,
            depends_offset: self.depends_offset,
            soft_package_references_count: self.soft_package_references_count,
            soft_package_references_offset: self.soft_package_references_offset,
            searchable_names_offset: self.searchable_names_offset,
            thumbnail_table_offset: self.thumbnail_table_offset,
            engine_version: self.engine_version@,
            compatible_with_engine_version: self.compatible_with_engine_version@,
            compression_flags: self.compression_flags,
            package_source: self.package_source,
            additional_packages_to_cook: views(self.additional_packages_to_cook@),
            texture_allocations: self.texture_allocations,
            asset_registry_data_offset: self.asset_registry_data_offset,
            bulk_data_start_offset: self.bulk_data_start_offset,
            world_tile_info_data_offset: self.world_tile_info_data_offset,
            chunk_ids: self.chunk_ids@,
            preload_dependency_count: self.preload_dependency_count,
            preload_dependency_offset: self.preload_dependency_offset,
            names_referenced_from_export_data_count: self.names_referenced_from_export_data_count,
            payload_toc_offset: self.payload_toc_offset,
            data_resource_offset: self.data_resource_offset,
        }
    }
}

/// Reads the opening fields at the cursor.
fn parse_opening(ar: &mut Archive) -> (r: Result<(i32, String, u32), Error>)
    ensures
        final(ar).ctx() == old(ar).ctx(),
        match decode_opening(old(ar).ctx(), old(ar).pos()) {
            Ok(((t, f, fl), q)) => r matches Ok((t2, f2, fl2)) && t2 == t && f2@ == f && fl2 == fl
                && final(ar).pos() == q,
            Err(e) => r matches Err(e2) && e2 == e,
        },
{
    let count = ar.read_i32()?;
    let info = ArrayStreamInfo { offset: ar.stream_position(), count: widen_i32(count) };
    match ar.custom_version_serialization_format() {
        CustomVersionSerializationFormat::Optimized => {
            UnrealArray::seek_past_fixed(ar, &info, CUSTOM_VERSION_SIZE)?;
        },
        CustomVersionSerializationFormat::Guids => {
            UnrealArray::seek_past_guid_custom_versions(ar, &info)?;
        },
    }
    let total_header_size = ar.read_i32()?;
    let folder_name = UnrealString::parse_inline(ar)?;
    let package_flags = ar.read_u32()?;
    Ok((total_header_size, folder_name, package_flags))
}

fn read_pair_or_zero(ar: &mut Archive, present: bool) -> (r: Result<(i32, i32), Error>)
    ensures
        final(ar).ctx() == old(ar).ctx(),
        yields(r, final(ar).reader.position, decode_pair_or_zero(old(ar).ctx().data, old(ar).pos(), present)),
{
    if present {
        let a = ar.read_i32()?;
        let b = ar.read_i32()?;
        Ok((a, b))
    } else {
        Ok((0, 0))
    }
}

fn read_preload(ar: &mut Archive, present: bool) -> (r: Result<(i32, i32), Error>)
    ensures
        final(ar).ctx() == old(ar).ctx(),
        yields(r, final(ar).reader.position, decode_preload(old(ar).ctx().data, old(ar).pos(), present)),
{
    if present {
        let a = ar.read_i32()?;
        let b = ar.read_i32()?;
        Ok((a, b))
    } else {
        Ok((-1, 0))
    }
}

fn read_opt_i32(ar: &mut Archive, present: bool) -> (r: Result<Option<i32>, Error>)
    ensures
        final(ar).ctx() == old(ar).ctx(),
        yields(r, final(ar).reader.position, decode_opt_i32(old(ar).ctx().data, old(ar).pos(), present)),
{
    if present {
        Ok(Some(ar.read_i32()?))
    } else {
        Ok(None)
    }
}

fn read_opt_i64(ar: &mut Archive, present: bool) -> (r: Result<Option<i64>, Error>)
    ensures
        final(ar).ctx() == old(ar).ctx(),
        yields(r, final(ar).reader.position, decode_opt_i64(old(ar).ctx().data, old(ar).pos(), present)),
{
    if present {
        Ok(Some(ar.read_i64()?))
    } else {
        Ok(None)
    }
}

fn read_positive_offset(ar: &mut Archive, present: bool) -> (r: Result<Option<i32>, Error>)
    ensures
        final(ar).ctx() == old(ar).ctx(),
        yields(r, final(ar).reader.position, decode_positive_offset(old(ar).ctx().data, old(ar).pos(), present)),
{
    if present {
        let v = ar.read_i32()?;
        Ok(if v > 0 { Some(v) } else { None })
    } else {
        Ok(None)
    }
}

fn read_opt_string(ar: &mut Archive, present: bool) -> (r: Result<Option<String>, Error>)
    ensures
        final(ar).ctx() == old(ar).ctx(),
        match decode_opt_string(old(ar).ctx().data, old(ar).pos(), present) {
            Ok((v, q)) => r matches Ok(x) && opt_view(x) == v && final(ar).pos() == q,
            Err(e) => r matches Err(x) && x == e,
        },
{
    if present {
        Ok(Some(UnrealString::parse_inline(ar)?))
    } else {
        Ok(None)
    }
}

fn skip_guids_at_cursor(ar: &mut Archive) -> (r: Result<(), Error>)
    ensures
        final(ar).ctx() == old(ar).ctx(),
        skipped(r, final(ar).pos(), skip_guids(old(ar).ctx(), old(ar).pos())),
{
    UnrealGuid::seek_past(ar)?;
    if ar.serialized_with(ObjectVersion(ObjectVersion::VER_UE4_ADDED_PACKAGE_OWNER))
        && ar.serialized_with_editoronly_data() {
        UnrealGuid::seek_past(ar)?;
        if ar.serialized_without(ObjectVersion(ObjectVersion::VER_UE4_NON_OUTER_PACKAGE_IMPORT)) {
            UnrealGuid::seek_past(ar)?;
        }
    }
    Ok(())
}

fn read_saved_by(ar: &mut Archive) -> (r: Result<UnrealEngineVersion, Error>)
    ensures
        final(ar).ctx() == old(ar).ctx(),
        version_yields(r, final(ar).pos(), decode_saved_by(old(ar).ctx(), old(ar).pos())),
{
    if ar.serialized_with(ObjectVersion(ObjectVersion::VER_UE4_ENGINE_VERSION_OBJECT)) {
        UnrealEngineVersion::parse_inline(ar)
    } else {
        let raw = ar.read_u32()?;
        Ok(UnrealEngineVersion::from_changelist(raw))
    }
}

fn read_compatible(ar: &mut Archive, saved_by: &UnrealEngineVersion) -> (r: Result<UnrealEngineVersion, Error>)
    ensures
        final(ar).ctx() == old(ar).ctx(),
        version_yields(r, final(ar).pos(), decode_compatible(old(ar).ctx(), old(ar).pos(), saved_by@)),
{
    if ar.serialized_with(
        ObjectVersion(ObjectVersion::VER_UE4_PACKAGE_SUMMARY_HAS_COMPATIBLE_ENGINE_VERSION),
    ) {
        UnrealEngineVersion::parse_inline(ar)
    } else {
        Ok(saved_by.duplicate())
    }
}

fn read_chunk_ids(ar: &mut Archive) -> (r: Result<Vec<i32>, Error>)
    ensures
        final(ar).ctx() == old(ar).ctx(),
        vec_yields(r, final(ar).pos(), decode_chunk_ids(old(ar).ctx(), old(ar).pos())),
{
    if ar.serialized_with(
        ObjectVersion(ObjectVersion::VER_UE4_CHANGED_CHUNKID_TO_BE_AN_ARRAY_OF_CHUNKIDS),
    ) {
        UnrealArray::parse_inline_i32s(ar)
    } else if ar.serialized_with(
        ObjectVersion(ObjectVersion::VER_UE4_ADDED_CHUNKID_TO_ASSETDATA_AND_UPACKAGE),
    ) {
        let id = ar.read_i32()?;
        let mut ids: Vec<i32> = Vec::new();
        if id >= 0 {
            ids.push(id);
        }
        proof {
            if id >= 0 {
                assert(ids@ =~= seq![id]);
            } else {
                assert(ids@ =~= Seq::<i32>::empty());
            }
        }
        Ok(ids)
    } else {
        let ids: Vec<i32> = Vec::new();
        proof {
            assert(ids@ =~= Seq::<i32>::empty());
        }
        Ok(ids)
    }
}

fn read_names_referenced(ar: &mut Archive, name_count: usize) -> (r: Result<i32, Error>)
    ensures
        final(ar).ctx() == old(ar).ctx(),
        yields(r, final(ar).reader.position, decode_names_referenced(old(ar).ctx(), old(ar).pos(), name_count as int)),
{
    if ar.serialized_with(ObjectVersionUE5(ObjectVersionUE5::NAMES_REFERENCED_FROM_EXPORT_DATA)) {
        ar.read_i32()
    } else {
        Ok(name_count as i32)
    }
}

/// Whether a decoding stage's result agrees with its specification.
pub open spec fn stage_yields(r: Result<(), Error>, h: HeaderView, end: int, expected: Result<(HeaderView, int), Error>) -> bool {
    match expected {
        Ok((v, q)) => r is Ok && h == v && end == q,
        Err(e) => r == Err::<(), Error>(e),
    }
}

impl AssetHeader {
    fn parse_name_block(&mut self) -> (r: Result<(), Error>)
        ensures
            final(self).archive.ctx() == old(self).archive.ctx(),
            stage_yields(
                r,
                final(self)@,
                final(self).archive.pos(),
                decode_name_block(old(self).archive.ctx(), old(self).archive.pos(), old(self)@),
            ),
    {
        let ar = &mut self.archive;
        let with_hash = ar.serialized_with(ObjectVersion(ObjectVersion::VER_UE4_NAME_HASHES_SERIALIZED));
        let names = UnrealArray::parse_indirect_strings(ar, with_hash)?;
        let soft_paths = read_pair_or_zero(
            ar,
            ar.serialized_with(ObjectVersionUE5(ObjectVersionUE5::ADD_SOFTOBJECTPATH_LIST)),
        )?;
        let localization_id = read_opt_string(
            ar,
            ar.serialized_with(ObjectVersion(ObjectVersion::VER_UE4_ADDED_PACKAGE_SUMMARY_LOCALIZATION_ID))
                && ar.serialized_with_editoronly_data(),
        )?;
        let gatherable = read_pair_or_zero(
            ar,
            ar.serialized_with(ObjectVersion(ObjectVersion::VER_UE4_SERIALIZE_TEXT_IN_PACKAGES)),
        )?;
        self.names = names;
        self.soft_object_paths_count = soft_paths.0;
        self.soft_object_paths_offset = soft_paths.1;
        self.localization_id = localization_id;
        self.gatherable_text_data_count = gatherable.0;
        self.gatherable_text_data_offset = gatherable.1;
        Ok(())
    }

    fn parse_object_block(&mut self) -> (r: Result<(), Error>)
        ensures
            final(self).archive.ctx() == old(self).archive.ctx(),
            stage_yields(
                r,
                final(self)@,
                final(self).archive.pos(),
                decode_object_block(old(self).archive.ctx(), old(self).archive.pos(), old(self)@),
            ),
    {
        let ar = &mut self.archive;
        let exports = UnrealArray::parse_indirect_exports(ar)?;
        let imports = UnrealArray::parse_indirect_imports(ar)?;
        let depends_offset = ar.read_i32()?;
        let soft_refs = read_pair_or_zero(
            ar,
            ar.serialized_with(ObjectVersion(ObjectVersion::VER_UE4_ADD_STRING_ASSET_REFERENCES_MAP)),
        )?;
        let searchable_names_offset = read_opt_i32(
            ar,
            ar.serialized_with(ObjectVersion(ObjectVersion::VER_UE4_ADDED_SEARCHABLE_NAMES)),
        )?;
        let thumbnail_table_offset = ar.read_i32()?;
        self.exports = exports;
        self.imports = imports;
        self.depends_offset = depends_offset;
        self.soft_package_references_count = soft_refs.0;
        self.soft_package_references_offset = soft_refs.1;
        self.searchable_names_offset = searchable_names_offset;
        self.thumbnail_table_offset = thumbnail_table_offset;
        Ok(())
    }

    fn parse_engine_block(&mut self) -> (r: Result<(), Error>)
        ensures
            final(self).archive.ctx() == old(self).archive.ctx(),
            stage_yields(
                r,
                final(self)@,
                final(self).archive.pos(),
                decode_engine_block(old(self).archive.ctx(), old(self).archive.pos(), old(self)@),
            ),
    {
        let ar = &mut self.archive;
        skip_guids_at_cursor(ar)?;
        UnrealArray::seek_past_counted(ar, GENERATION_INFO_SIZE)?;
        let engine_version = read_saved_by(ar)?;
        let compatible = read_compatible(ar, &engine_version)?;
        let compression_flags = ar.read_u32()?;
        self.engine_version = engine_version;
        self.compatible_with_engine_version = compatible;
        self.compression_flags = compression_flags;
        Ok(())
    }

    fn parse_cook_block(&mut self) -> (r: Result<(), Error>)
        ensures
            final(self).archive.ctx() == old(self).archive.ctx(),
            stage_yields(
                r,
                final(self)@,
                final(self).archive.pos(),
                decode_cook_block(old(self).archive.ctx(), old(self).archive.pos(), old(self)@),
            ),
    {
        let ar = &mut self.archive;
        UnrealArray::seek_past_counted(ar, COMPRESSED_CHUNK_SIZE)?;
        let package_source = ar.read_u32()?;
        let additional = UnrealArray::parse_inline_strings(ar)?;
        let texture_allocations = read_opt_i32(ar, ar.legacy_version > -7)?;
        let asset_registry_data_offset = ar.read_i32()?;
        self.package_source = package_source;
        self.additional_packages_to_cook = additional;
        self.texture_allocations = texture_allocations;
        self.asset_registry_data_offset = asset_registry_data_offset;
        Ok(())
    }

    fn parse_chunk_block(&mut self) -> (r: Result<(), Error>)
        ensures
            final(self).archive.ctx() == old(self).archive.ctx(),
            stage_yields(
                r,
                final(self)@,
                final(self).archive.pos(),
                decode_chunk_block(old(self).archive.ctx(), old(self).archive.pos(), old(self)@),
            ),
    {
        let ar = &mut self.archive;
        let bulk_data_start_offset = ar.read_i64()?;
        let world_tile = read_positive_offset(
            ar,
            ar.serialized_with(ObjectVersion(ObjectVersion::VER_UE4_WORLD_LEVEL_INFO)),
        )?;
        let chunk_ids = read_chunk_ids(ar)?;
        let preload = read_preload(
            ar,
            ar.serialized_with(ObjectVersion(ObjectVersion::VER_UE4_PRELOAD_DEPENDENCIES_IN_COOKED_EXPORTS)),
        )?;
        self.bulk_data_start_offset = bulk_data_start_offset;
        self.world_tile_info_data_offset = world_tile;
        self.chunk_ids = chunk_ids;
        self.preload_dependency_count = preload.0;
        self.preload_dependency_offset = preload.1;
        Ok(())
    }

    fn parse_closing_block(&mut self) -> (r: Result<(), Error>)
        ensures
            final(self).archive.ctx() == old(self).archive.ctx(),
            stage_yields(
                r,
                final(self)@,
                final(self).archive.pos(),
                decode_closing_block(old(self).archive.ctx(), old(self).archive.pos(), old(self)@),
            ),
    {
        let name_count = self.names.len();
        proof {
            assert(views(self.names@).len() == name_count);
        }
        let ar = &mut self.archive;
        let names_referenced = read_names_referenced(ar, name_count)?;
        let payload_toc_offset = read_opt_i64(ar, ar.serialized_with(ObjectVersionUE5(ObjectVersionUE5::PAYLOAD_TOC)))?;
        let data_resource_offset = read_positive_offset(
            ar,
            ar.serialized_with(ObjectVersionUE5(ObjectVersionUE5::DATA_RESOURCES)),
        )?;
        self.names_referenced_from_export_data_count = names_referenced;
        self.payload_toc_offset = payload_toc_offset;
        self.data_resource_offset = data_resource_offset;
        Ok(())
    }
}

impl AssetHeader {
    /// Decodes the header of the asset held in `data` (little endian).
    pub fn new(data: Vec<u8>) -> (r: Result<AssetHeader, Error>)
        ensures
            match decode_header(data@) {
                Ok(h) => r matches Ok(x) && x@ == h,
                Err(e) => r matches Err(x) && x == e,
            },
    {
        let mut archive = Archive::new(data)?;
        let (total_header_size, folder_name, package_flags) = parse_opening(&mut archive)?;
        let with_editoronly_data = (package_flags & PackageFlags::FilterEditorOnly.bits()) == 0;
        assert(((package_flags & 0x8000_0000u32) == 0u32) == (package_flags < 0x8000_0000u32))
            by (bit_vector);
        archive.with_editoronly_data = with_editoronly_data;
        let mut header = AssetHeader {
            archive,
            total_header_size,
            folder_name,
            package_flags,
            names: Vec::new(),
            soft_object_paths_count: 0,
            soft_object_paths_offset: 0,
            localization_id: None,
            gatherable_text_data_count: 0,
            gatherable_text_data_offset: 0,
            exports: Vec::new(),
            imports: Vec::new(),
            depends_offset: 0,
            soft_package_references_count: 0,
            soft_package_references_offset: 0,
            searchable_names_offset: None,
            thumbnail_table_offset: 0,
            engine_version: UnrealEngineVersion::empty(),
            compatible_with_engine_version: UnrealEngineVersion::empty(),
            compression_flags: 0,
            package_source: 0,
            additional_packages_to_cook: Vec::new(),
            texture_allocations: None,
            asset_registry_data_offset: 0,
            bulk_data_start_offset: 0,
            world_tile_info_data_offset: None,
            chunk_ids: Vec::new(),
            preload_dependency_count: 0,
            preload_dependency_offset: 0,
            names_referenced_from_export_data_count: 0,
            payload_toc_offset: None,
            data_resource_offset: None,
        };
        proof {
            assert(views(header.names@) =~= Seq::<Seq<char>>::empty());
            assert(views(header.additional_packages_to_cook@) =~= Seq::<Seq<char>>::empty());
            assert(header.exports@ =~= Seq::<ObjectExport>::empty());
            assert(header.imports@ =~= Seq::<ObjectImport>::empty());
            assert(header.chunk_ids@ =~= Seq::<i32>::empty());
            assert(header.archive.ctx() == context_of(data@, header.archive.preamble(), with_editoronly_data));
        }
        header.parse_name_block()?;
        header.parse_object_block()?;
        header.parse_engine_block()?;
        header.parse_cook_block()?;
        header.parse_chunk_block()?;
        header.parse_closing_block()?;
        Ok(header)
    }
}

} // verus!
