use uasset::{AssetHeader, Error, NameReference, ObjectVersion, ObjectVersionUE5};

const MAGIC: u32 = 0x9E2A83C1;

struct Import {
    class_package: u32,
    class_name: u32,
    outer: i32,
    object_name: u32,
    object_number: u32,
}

struct Spec {
    legacy: i32,
    v4: i32,
    v5: i32,
    licensee: i32,
    package_flags: u32,
    names: Vec<&'static str>,
    imports: Vec<Import>,
    exports: usize,
    package_source: u32,
    raw_changelist: u32,
    chunk_ids: Vec<i32>,
    thumbnails: Vec<(&'static str, &'static str, i32)>,
}

fn spec(legacy: i32, v4: i32, v5: i32) -> Spec {
    Spec {
        legacy,
        v4,
        v5,
        licensee: 0,
        package_flags: 0,
        names: vec!["/Game/SimpleRefs/SimpleRefsRoot", "Package", "None"],
        imports: Vec::new(),
        exports: 0,
        package_source: 0x1234_5678,
        raw_changelist: 0x8000_0007,
        chunk_ids: vec![3],
        thumbnails: Vec::new(),
    }
}

fn put_i32(b: &mut Vec<u8>, v: i32) {
    b.extend_from_slice(&v.to_le_bytes());
}

fn put_u32(b: &mut Vec<u8>, v: u32) {
    b.extend_from_slice(&v.to_le_bytes());
}

fn put_i64(b: &mut Vec<u8>, v: i64) {
    b.extend_from_slice(&v.to_le_bytes());
}

fn put_str(b: &mut Vec<u8>, s: &str) {
    put_i32(b, s.len() as i32 + 1);
    b.extend_from_slice(s.as_bytes());
    b.push(0);
}

fn patch(b: &mut Vec<u8>, at: usize, v: i32) {
    b[at..at + 4].copy_from_slice(&v.to_le_bytes());
}

fn build(s: &Spec) -> Vec<u8> {
    let editor = s.package_flags & 0x8000_0000 == 0;
    let with4 = |v: i32| s.v4 >= v;
    let with5 = |v: i32| s.v5 != 0 && s.v5 >= v;
    let mut b = Vec::new();
    put_u32(&mut b, MAGIC);
    put_i32(&mut b, s.legacy);
    put_i32(&mut b, 864);
    put_i32(&mut b, s.v4);
    if s.legacy <= -8 {
        put_i32(&mut b, s.v5);
    }
    put_i32(&mut b, s.licensee);
    put_i32(&mut b, 0);
    put_i32(&mut b, 0);
    put_str(&mut b, "None");
    put_u32(&mut b, s.package_flags);
    put_i32(&mut b, s.names.len() as i32);
    let names_at = b.len();
    put_i32(&mut b, 0);
    if with5(1008) {
        put_i32(&mut b, 0);
        put_i32(&mut b, 0);
    }
    if with4(516) && editor {
        put_str(&mut b, "");
    }
    if with4(459) {
        put_i32(&mut b, 0);
        put_i32(&mut b, 0);
    }
    put_i32(&mut b, s.exports as i32);
    let exports_at = b.len();
    put_i32(&mut b, 0);
    put_i32(&mut b, s.imports.len() as i32);
    let imports_at = b.len();
    put_i32(&mut b, 0);
    put_i32(&mut b, 0);
    if with4(384) {
        put_i32(&mut b, 0);
        put_i32(&mut b, 0);
    }
    if with4(510) {
        put_i32(&mut b, 0);
    }
    let thumbnails_at = b.len();
    put_i32(&mut b, 0);
    b.extend_from_slice(&[0xAB; 16]);
    if with4(518) && editor {
        b.extend_from_slice(&[0xCD; 16]);
        if !with4(520) {
            b.extend_from_slice(&[0xEF; 16]);
        }
    }
    put_i32(&mut b, 1);
    put_i32(&mut b, s.exports as i32);
    put_i32(&mut b, s.names.len() as i32);
    if with4(336) {
        b.extend_from_slice(&4u16.to_le_bytes());
        b.extend_from_slice(&26u16.to_le_bytes());
        b.extend_from_slice(&2u16.to_le_bytes());
        put_u32(&mut b, s.raw_changelist);
        put_str(&mut b, "++UE4+Release-4.26");
    } else {
        put_u32(&mut b, s.raw_changelist);
    }
    if with4(444) {
        b.extend_from_slice(&4u16.to_le_bytes());
        b.extend_from_slice(&26u16.to_le_bytes());
        b.extend_from_slice(&0u16.to_le_bytes());
        put_u32(&mut b, 5);
        put_str(&mut b, "");
    }
    put_u32(&mut b, 0);
    put_i32(&mut b, 0);
    put_u32(&mut b, s.package_source);
    put_i32(&mut b, 0);
    if s.legacy > -7 {
        put_i32(&mut b, 0);
    }
    put_i32(&mut b, 77);
    put_i64(&mut b, 4096);
    if with4(224) {
        put_i32(&mut b, 0);
    }
    if with4(326) {
        put_i32(&mut b, s.chunk_ids.len() as i32);
        for id in &s.chunk_ids {
            put_i32(&mut b, *id);
        }
    } else if with4(278) {
        put_i32(&mut b, *s.chunk_ids.first().unwrap_or(&-1));
    }
    if with4(507) {
        put_i32(&mut b, 0);
        put_i32(&mut b, 0);
    }
    if with5(1001) {
        put_i32(&mut b, s.names.len() as i32);
    }
    if with5(1002) {
        put_i64(&mut b, -1);
    }
    if with5(1009) {
        put_i32(&mut b, 0);
    }

    let here = b.len() as i32;
    patch(&mut b, names_at, here);
    for n in &s.names {
        put_str(&mut b, n);
        if with4(504) {
            put_u32(&mut b, 0xDEAD_BEEF);
        }
    }

    let here = b.len() as i32;
    patch(&mut b, exports_at, here);
    for _ in 0..s.exports {
        put_i32(&mut b, -1);
        put_i32(&mut b, 0);
        if with4(508) {
            put_i32(&mut b, 0);
        }
        put_i32(&mut b, 0);
        put_u32(&mut b, 0);
        put_u32(&mut b, 0);
        put_u32(&mut b, 0x8);
        if with4(511) {
            put_i64(&mut b, 100);
            put_i64(&mut b, 2000);
        } else {
            put_i32(&mut b, 100);
            put_i32(&mut b, 2000);
        }
        put_u32(&mut b, 0);
        put_u32(&mut b, 1);
        put_u32(&mut b, 0);
        if !with5(1005) {
            b.extend_from_slice(&[0; 16]);
        }
        if with5(1006) {
            put_u32(&mut b, 0);
        }
        put_u32(&mut b, 0);
        if with4(365) {
            put_u32(&mut b, 0);
        }
        if with4(485) {
            put_u32(&mut b, 1);
        }
        if with5(1003) {
            put_u32(&mut b, 0);
        }
        if with4(507) {
            for v in [1, 2, 3, 4, 5] {
                put_i32(&mut b, v);
            }
        }
        if with5(1010) {
            put_i64(&mut b, 10);
            put_i64(&mut b, 20);
        }
    }

    let here = b.len() as i32;
    patch(&mut b, imports_at, here);
    for imp in &s.imports {
        put_u32(&mut b, imp.class_package);
        put_u32(&mut b, 0);
        put_u32(&mut b, imp.class_name);
        put_u32(&mut b, 0);
        put_i32(&mut b, imp.outer);
        put_u32(&mut b, imp.object_name);
        put_u32(&mut b, imp.object_number);
        if with4(520) && editor {
            put_u32(&mut b, 0);
            put_u32(&mut b, 0);
        }
        if with5(1003) {
            put_u32(&mut b, 0);
        }
    }

    let here = b.len() as i32;
    patch(&mut b, thumbnails_at, here);
    put_i32(&mut b, s.thumbnails.len() as i32);
    for (class, path, offset) in &s.thumbnails {
        put_str(&mut b, class);
        put_str(&mut b, path);
        put_i32(&mut b, *offset);
    }
    b
}

/// The format generations, as (legacy version, first-line version, second-line version).
fn generations() -> Vec<(&'static str, i32, i32, i32)> {
    vec![
        ("4.10", -7, ObjectVersion::VER_UE4_APEX_CLOTH_TESSELLATION, 0),
        ("4.11", -7, ObjectVersion::VER_UE4_STREAMABLE_TEXTURE_MIN_MAX_DISTANCE, 0),
        ("4.12", -7, ObjectVersion::VER_UE4_NAME_HASHES_SERIALIZED, 0),
        ("4.13", -7, ObjectVersion::VER_UE4_INSTANCED_STEREO_UNIFORM_REFACTOR, 0),
        ("4.14", -7, ObjectVersion::VER_UE4_TEMPLATE_INDEX_IN_COOKED_EXPORTS, 0),
        ("4.15", -7, ObjectVersion::VER_UE4_ADDED_SEARCHABLE_NAMES, 0),
        ("4.16", -7, ObjectVersion::VER_UE4_ADDED_SWEEP_WHILE_WALKING_FLAG, 0),
        ("4.17", -7, ObjectVersion::VER_UE4_ADDED_SWEEP_WHILE_WALKING_FLAG, 0),
        ("4.18", -7, ObjectVersion::VER_UE4_ADDED_SOFT_OBJECT_PATH, 0),
        ("4.19", -7, ObjectVersion::VER_UE4_ADDED_PACKAGE_SUMMARY_LOCALIZATION_ID, 0),
        ("4.20", -7, ObjectVersion::VER_UE4_ADDED_PACKAGE_SUMMARY_LOCALIZATION_ID, 0),
        ("4.21", -7, ObjectVersion::VER_UE4_FIX_WIDE_STRING_CRC, 0),
        ("4.22", -7, ObjectVersion::VER_UE4_FIX_WIDE_STRING_CRC, 0),
        ("4.23", -7, ObjectVersion::VER_UE4_FIX_WIDE_STRING_CRC, 0),
        ("4.24", -7, ObjectVersion::VER_UE4_ADDED_PACKAGE_OWNER, 0),
        ("4.25", -7, ObjectVersion::VER_UE4_ADDED_PACKAGE_OWNER, 0),
        ("4.26", -7, ObjectVersion::VER_UE4_CORRECT_LICENSEE_FLAG, 0),
        ("4.27", -7, ObjectVersion::VER_UE4_CORRECT_LICENSEE_FLAG, 0),
        ("5.0", -8, ObjectVersion::VER_UE4_CORRECT_LICENSEE_FLAG, ObjectVersionUE5::LARGE_WORLD_COORDINATES),
        ("5.1", -8, ObjectVersion::VER_UE4_CORRECT_LICENSEE_FLAG, ObjectVersionUE5::ADD_SOFTOBJECTPATH_LIST),
        ("5.2", -8, ObjectVersion::VER_UE4_CORRECT_LICENSEE_FLAG, ObjectVersionUE5::DATA_RESOURCES),
        ("5.3", -8, ObjectVersion::VER_UE4_CORRECT_LICENSEE_FLAG, ObjectVersionUE5::DATA_RESOURCES),
    ]
}

fn sample_imports() -> Vec<Import> {
    // Names: 0 "/Game/SimpleRefs/SimpleRefsRoot", 1 "Package", 2 "None",
    // 3 "/Game/A/B", 4 "/Script/CoreUObject", 5 "Texture2D", 6 "X".
    vec![
        Import { class_package: 4, class_name: 1, outer: 0, object_name: 3, object_number: 0 },
        Import { class_package: 4, class_name: 1, outer: 0, object_name: 4, object_number: 0 },
        Import { class_package: 4, class_name: 5, outer: -1, object_name: 6, object_number: 0 },
    ]
}

fn sample_names() -> Vec<&'static str> {
    vec![
        "/Game/SimpleRefs/SimpleRefsRoot",
        "Package",
        "None",
        "/Game/A/B",
        "/Script/CoreUObject",
        "Texture2D",
        "X",
    ]
}

#[test]
fn loading_asset() {
    for (label, legacy, v4, v5) in generations() {
        let mut s = spec(legacy, v4, v5);
        s.names = sample_names();
        s.imports = sample_imports();
        s.exports = 2;
        let header = AssetHeader::new(build(&s));
        assert!(header.is_ok(), "generation {} failed: {:?}", label, header.err());
        let header = header.unwrap();
        assert_eq!(header.archive.file_version, ObjectVersion(v4), "generation {}", label);
        let expected_ue5 = if v5 == 0 { None } else { Some(ObjectVersionUE5(v5)) };
        assert_eq!(header.archive.file_version_ue5, expected_ue5, "generation {}", label);
        assert!(header.names.contains(&String::from("/Game/SimpleRefs/SimpleRefsRoot")));
        assert_eq!(header.names.len(), 7);
        assert_eq!(header.imports.len(), 3);
        assert_eq!(header.exports.len(), 2);
        assert_eq!(header.package_source, 0x1234_5678);
        assert_eq!(header.folder_name, "None");
        assert_eq!(header.asset_registry_data_offset, 77);
        assert_eq!(header.bulk_data_start_offset, 4096);
    }
}

#[test]
fn upgrading_asset() {
    let gens = generations();
    for pair in gens.windows(2) {
        let (_, l0, a0, b0) = pair[0];
        let (label, l1, a1, b1) = pair[1];
        let old_header = AssetHeader::new(build(&spec(l0, a0, b0))).unwrap();
        let new_header = AssetHeader::new(build(&spec(l1, a1, b1))).unwrap();
        assert!(new_header.archive.file_version >= old_header.archive.file_version, "{}", label);
        assert!(new_header.archive.file_version_ue5 >= old_header.archive.file_version_ue5, "{}", label);
        assert_eq!(new_header.package_source, old_header.package_source);
    }
}

#[test]
fn simple_refs() {
    let mut s = spec(-8, ObjectVersion::VER_UE4_CORRECT_LICENSEE_FLAG, ObjectVersionUE5::DATA_RESOURCES);
    s.names = sample_names();
    s.imports = sample_imports();
    let header = AssetHeader::new(build(&s)).unwrap();
    assert_eq!(header.package_import_iter(), vec![String::from("/Game/A/B")]);
}

#[test]
fn package_imports_without_core_name_are_all_listed() {
    let mut s = spec(-7, ObjectVersion::VER_UE4_CORRECT_LICENSEE_FLAG, 0);
    s.names = vec!["/Game/A/B", "Package", "/Game/C"];
    s.imports = vec![
        Import { class_package: 0, class_name: 1, outer: 0, object_name: 0, object_number: 0 },
        Import { class_package: 0, class_name: 1, outer: 0, object_name: 2, object_number: 0 },
    ];
    let header = AssetHeader::new(build(&s)).unwrap();
    assert_eq!(header.package_import_iter(), vec![String::from("/Game/A/B"), String::from("/Game/C")]);
}

#[test]
fn package_imports_need_the_package_name() {
    let mut s = spec(-7, ObjectVersion::VER_UE4_CORRECT_LICENSEE_FLAG, 0);
    s.names = vec!["/Game/A/B", "Class"];
    s.imports = vec![Import { class_package: 0, class_name: 1, outer: 0, object_name: 0, object_number: 0 }];
    let header = AssetHeader::new(build(&s)).unwrap();
    assert!(header.package_import_iter().is_empty());
}

#[test]
fn import_iterator_steps_through_package_imports() {
    let mut s = spec(-7, ObjectVersion::VER_UE4_CORRECT_LICENSEE_FLAG, 0);
    s.names = sample_names();
    s.imports = sample_imports();
    let header = AssetHeader::new(build(&s)).unwrap();
    let mut it = uasset::ImportIterator::new(&header);
    assert_eq!(it.next(), Some(String::from("/Game/A/B")));
    assert_eq!(it.next(), None);
}

#[test]
fn corrupted_magic_is_invalid_file() {
    let good = build(&spec(-7, ObjectVersion::VER_UE4_CORRECT_LICENSEE_FLAG, 0));
    for i in 0..4 {
        let mut bad = good.clone();
        bad[i] ^= 0xFF;
        assert!(matches!(AssetHeader::new(bad), Err(Error::InvalidFile)));
    }
    assert!(matches!(AssetHeader::new(vec![0, 0, 0, 0]), Err(Error::InvalidFile)));
}

#[test]
fn short_input_is_parse_failure() {
    assert!(matches!(AssetHeader::new(vec![0xC1, 0x83]), Err(Error::ParseFailure)));
    let good = build(&spec(-7, ObjectVersion::VER_UE4_CORRECT_LICENSEE_FLAG, 0));
    assert!(matches!(AssetHeader::new(good[..30].to_vec()), Err(Error::ParseFailure)));
}

#[test]
fn legacy_version_out_of_range_is_unsupported() {
    let mut s = spec(-4, ObjectVersion::VER_UE4_CORRECT_LICENSEE_FLAG, 0);
    s.legacy = -4;
    assert!(matches!(AssetHeader::new(build(&s)), Err(Error::UnsupportedVersion(-4))));
    s.legacy = -9;
    assert!(matches!(AssetHeader::new(build(&s)), Err(Error::UnsupportedVersion(-9))));
}

#[test]
fn all_zero_versions_is_unversioned() {
    let s = spec(-8, 0, 0);
    assert!(matches!(AssetHeader::new(build(&s)), Err(Error::UnversionedAsset)));
}

#[test]
fn unknown_object_versions_are_unsupported() {
    let s = spec(-7, 100, 0);
    assert!(matches!(AssetHeader::new(build(&s)), Err(Error::UnsupportedVersion(100))));
    let s = spec(-7, 0, 0);
    let mut s2 = s;
    s2.licensee = 1;
    assert!(matches!(AssetHeader::new(build(&s2)), Err(Error::UnsupportedVersion(0))));
    let s = spec(-8, ObjectVersion::VER_UE4_CORRECT_LICENSEE_FLAG, 2000);
    assert!(matches!(AssetHeader::new(build(&s)), Err(Error::UnsupportedVersion(2000))));
}

#[test]
fn engine_version_from_changelist_before_engine_version_object() {
    let s = spec(-6, 300, 0);
    let header = AssetHeader::new(build(&s)).unwrap();
    assert_eq!(header.engine_version.major, 4);
    assert_eq!(header.engine_version.changelist, 7);
    assert!(header.engine_version.is_licensee_version);
    assert_eq!(header.compatible_with_engine_version.changelist, 7);
    assert_eq!(header.texture_allocations, Some(0));
    assert_eq!(header.chunk_ids, vec![3]);
    let header = AssetHeader::new(build(&spec(-6, 270, 0))).unwrap();
    assert!(header.chunk_ids.is_empty());
}

#[test]
fn engine_version_record_is_decoded() {
    let s = spec(-7, ObjectVersion::VER_UE4_CORRECT_LICENSEE_FLAG, 0);
    let header = AssetHeader::new(build(&s)).unwrap();
    assert_eq!(header.engine_version.major, 4);
    assert_eq!(header.engine_version.minor, 26);
    assert_eq!(header.engine_version.patch, 2);
    assert_eq!(header.engine_version.changelist, 7);
    assert!(header.engine_version.is_licensee_version);
    assert_eq!(header.engine_version.branch_name, "++UE4+Release-4.26");
    assert_eq!(header.compatible_with_engine_version.patch, 0);
    assert_eq!(header.compatible_with_engine_version.changelist, 5);
    assert!(!header.compatible_with_engine_version.is_licensee_version);
    assert_eq!(header.texture_allocations, None);
    assert_eq!(header.chunk_ids, vec![3]);
    assert_eq!(header.names_referenced_from_export_data_count, 3);
}

#[test]
fn single_chunk_id_generation() {
    let mut s = spec(-6, 300, 0);
    s.chunk_ids = vec![9];
    let header = AssetHeader::new(build(&s)).unwrap();
    assert_eq!(header.chunk_ids, vec![9]);
    s.chunk_ids = vec![-1];
    let header = AssetHeader::new(build(&s)).unwrap();
    assert!(header.chunk_ids.is_empty());
}

#[test]
fn filter_editor_only_flag_clears_editor_data() {
    let mut s = spec(-7, ObjectVersion::VER_UE4_CORRECT_LICENSEE_FLAG, 0);
    s.package_flags = 0x8000_0000;
    s.names = sample_names();
    s.imports = sample_imports();
    let header = AssetHeader::new(build(&s)).unwrap();
    assert!(!header.archive.with_editoronly_data);
    assert_eq!(header.localization_id, None);
    assert!(header.imports.iter().all(|i| i.package_name.is_none()));

    s.package_flags = 0;
    let header = AssetHeader::new(build(&s)).unwrap();
    assert!(header.archive.with_editoronly_data);
    assert_eq!(header.localization_id, Some(String::new()));
    assert!(header.imports.iter().all(|i| i.package_name.is_some()));
}

#[test]
fn exports_are_decoded_per_version() {
    let mut s = spec(-8, ObjectVersion::VER_UE4_CORRECT_LICENSEE_FLAG, ObjectVersionUE5::DATA_RESOURCES);
    s.exports = 1;
    let header = AssetHeader::new(build(&s)).unwrap();
    let e = header.exports[0];
    assert_eq!(e.class_index, -1);
    assert_eq!(e.object_flags, 0x8);
    assert_eq!(e.serial_size, 100);
    assert_eq!(e.serial_offset, 2000);
    assert!(e.not_for_client);
    assert!(e.is_asset);
    assert_eq!(e.first_export_dependency, 1);
    assert_eq!(e.create_before_create_dependencies, 5);
    assert_eq!(e.script_serialization_start_offset, 0);
    assert_eq!(e.class(), uasset::ObjectImportOuter::Import { import_index: 0 });

    let mut s = spec(-7, ObjectVersion::VER_UE4_APEX_CLOTH_TESSELLATION, 0);
    s.exports = 1;
    let header = AssetHeader::new(build(&s)).unwrap();
    let e = header.exports[0];
    assert_eq!(e.template_index, 0);
    assert_eq!(e.serial_size, 100);
    assert!(!e.not_always_loaded_for_editor_game);
    assert_eq!(e.first_export_dependency, -1);
    assert_eq!(e.serialization_before_create_dependencies, -1);
}

#[test]
fn newest_exports_carry_script_offsets() {
    let mut s = spec(-8, ObjectVersion::VER_UE4_CORRECT_LICENSEE_FLAG, ObjectVersionUE5::SCRIPT_SERIALIZATION_OFFSET);
    s.exports = 1;
    let header = AssetHeader::new(build(&s)).unwrap();
    let e = header.exports[0];
    assert_eq!(e.script_serialization_start_offset, 10);
    assert_eq!(e.script_serialization_end_offset, 20);
    assert_eq!(header.payload_toc_offset, Some(-1));
    assert_eq!(header.data_resource_offset, None);
}

#[test]
fn name_lookup_is_case_insensitive() {
    let mut s = spec(-7, ObjectVersion::VER_UE4_CORRECT_LICENSEE_FLAG, 0);
    s.names = sample_names();
    let header = AssetHeader::new(build(&s)).unwrap();
    let r = header.find_name("PACKAGE").unwrap();
    assert_eq!(r, NameReference { index: 1, number: None });
    assert_eq!(header.resolve_name(&r).unwrap(), "Package");
    assert_eq!(header.find_name("Missing"), None);
    for (i, name) in header.names.iter().enumerate() {
        let r = header.find_name(name).unwrap();
        assert_eq!(r.index as usize, i);
        assert_eq!(&header.resolve_name(&r).unwrap(), name);
    }
}

#[test]
fn name_lookup_ignores_numeric_suffixes() {
    let mut s = spec(-7, ObjectVersion::VER_UE4_CORRECT_LICENSEE_FLAG, 0);
    s.names = sample_names();
    let header = AssetHeader::new(build(&s)).unwrap();
    assert_eq!(header.find_name("Package_0"), None);
}

#[test]
fn resolved_names_carry_their_number() {
    let mut s = spec(-7, ObjectVersion::VER_UE4_CORRECT_LICENSEE_FLAG, 0);
    s.names = sample_names();
    let header = AssetHeader::new(build(&s)).unwrap();
    let r = NameReference { index: 6, number: Some(1) };
    assert_eq!(header.resolve_name(&r).unwrap(), "X_0");
    let r = NameReference { index: 6, number: Some(13) };
    assert_eq!(header.resolve_name(&r).unwrap(), "X_12");
    let r = NameReference { index: 7, number: None };
    assert_eq!(header.resolve_name(&r).unwrap_err(), uasset::InvalidNameIndexError(7));
}

#[test]
fn thumbnails_are_read_on_demand() {
    let mut s = spec(-7, ObjectVersion::VER_UE4_CORRECT_LICENSEE_FLAG, 0);
    s.thumbnails = vec![("Texture2D", "T_Grass", 1234), ("Material", "M_Rock", 5678)];
    let mut header = AssetHeader::new(build(&s)).unwrap();
    let mut it = header.thumbnail_iter().unwrap();
    let first = it.next(&mut header).unwrap().unwrap();
    assert_eq!(first.object_class_name, "Texture2D");
    assert_eq!(first.object_path_without_package_name, "T_Grass");
    assert_eq!(first.file_offset, 1234);
    let second = it.next(&mut header).unwrap().unwrap();
    assert_eq!(second.object_class_name, "Material");
    assert_eq!(second.file_offset, 5678);
    assert!(it.next(&mut header).is_none());
}

#[test]
fn guid_layout_custom_versions_are_skipped() {
    let s = spec(-5, 300, 0);
    let mut bytes = build(&s);
    // Insert two GUID-layout custom versions in place of the empty table.
    let table_at = 20;
    assert_eq!(&bytes[table_at..table_at + 4], &[0, 0, 0, 0]);
    let mut table = Vec::new();
    put_i32(&mut table, 2);
    for tag in ["Alpha", "Beta"] {
        table.extend_from_slice(&[7u8; 20]);
        put_str(&mut table, tag);
    }
    let grow = table.len() as i32 - 4;
    bytes.splice(table_at..table_at + 4, table);
    // The name table offset stored in the summary moves with the insertion.
    let fixed = rebuild_offsets(bytes, grow);
    let header = AssetHeader::new(fixed).unwrap();
    assert_eq!(header.names.len(), 3);
    assert_eq!(header.names[1], "Package");
}

/// Shifts the name, export, import and thumbnail offsets of a legacy -5,
/// version 300 summary by `grow` bytes.
fn rebuild_offsets(mut b: Vec<u8>, grow: i32) -> Vec<u8> {
    // After magic, legacy, ue3, v4, licensee (20 bytes) the table grew; the
    // offsets follow total size (4), folder "None" (9), flags (4) and the name count.
    let names_offset_at = 20 + 4 + grow as usize + 4 + 9 + 4 + 4;
    for at in [names_offset_at] {
        let v = i32::from_le_bytes(b[at..at + 4].try_into().unwrap());
        patch(&mut b, at, v + grow);
    }
    b
}

#[test]
fn name_entries_without_hashes_before_hash_version() {
    let s = spec(-7, ObjectVersion::VER_UE4_APEX_CLOTH_TESSELLATION, 0);
    let header = AssetHeader::new(build(&s)).unwrap();
    assert_eq!(header.names, vec!["/Game/SimpleRefs/SimpleRefsRoot", "Package", "None"]);
}

#[test]
fn empty_name_table_finds_nothing() {
    let mut s = spec(-7, ObjectVersion::VER_UE4_CORRECT_LICENSEE_FLAG, 0);
    s.names = Vec::new();
    s.chunk_ids = Vec::new();
    let header = AssetHeader::new(build(&s)).unwrap();
    assert!(header.names.is_empty());
    assert_eq!(header.find_name("Package"), None);
    assert!(header.package_import_iter().is_empty());
    assert!(header.chunk_ids.is_empty());
    assert_eq!(header.names_referenced_from_export_data_count, 0);
}

#[test]
fn first_case_insensitive_match_wins() {
    let mut s = spec(-7, ObjectVersion::VER_UE4_CORRECT_LICENSEE_FLAG, 0);
    s.names = vec!["package", "Package"];
    let header = AssetHeader::new(build(&s)).unwrap();
    let r = header.find_name("Package").unwrap();
    assert_eq!(r.index, 0);
    assert_eq!(header.resolve_name(&r).unwrap(), "package");
}

#[test]
fn package_imports_match_the_class_name_text() {
    let mut s = spec(-7, ObjectVersion::VER_UE4_CORRECT_LICENSEE_FLAG, 0);
    s.names = vec!["Package", "Package", "X", "package", "/Game/Y"];
    s.imports = vec![
        Import { class_package: 2, class_name: 1, outer: 0, object_name: 2, object_number: 1 },
        Import { class_package: 2, class_name: 3, outer: 0, object_name: 4, object_number: 0 },
        Import { class_package: 2, class_name: 0, outer: 0, object_name: 4, object_number: 0 },
    ];
    let header = AssetHeader::new(build(&s)).unwrap();
    assert_eq!(header.package_import_iter(), vec![String::from("X_0"), String::from("/Game/Y")]);
}
