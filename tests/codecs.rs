use uasset::archive::Archive;
use uasset::records::ObjectImportOuter;
use uasset::serialization::{ArrayStreamInfo, Skippable, UnrealArray, UnrealGuid, UnrealString};
use uasset::strings::{parse_string, ucs2_to_utf8};
use uasset::{ByteReader, Error, ObjectVersion, UnrealEngineVersion};

fn archive(bytes: Vec<u8>) -> Archive {
    Archive {
        reader: ByteReader::new(bytes),
        file_version: ObjectVersion(ObjectVersion::VER_UE4_CORRECT_LICENSEE_FLAG),
        file_version_ue5: None,
        file_licensee_version: 0,
        legacy_version: -7,
        with_editoronly_data: true,
    }
}

fn ascii(s: &str) -> Vec<u8> {
    let mut b = (s.len() as i32 + 1).to_le_bytes().to_vec();
    b.extend_from_slice(s.as_bytes());
    b.push(0);
    b
}

fn ucs2(units: &[u16]) -> Vec<u8> {
    let mut b = (-(units.len() as i32) - 1).to_le_bytes().to_vec();
    for u in units {
        b.extend_from_slice(&u.to_le_bytes());
    }
    b.extend_from_slice(&[0, 0]);
    b
}

#[test]
fn empty_string_reads_only_its_length() {
    let mut ar = archive(vec![0, 0, 0, 0, 9, 9]);
    assert_eq!(parse_string(&mut ar).unwrap(), "");
    assert_eq!(ar.stream_position(), 4);
}

#[test]
fn ascii_string_skips_its_terminator() {
    let mut bytes = ascii("Hello");
    assert_eq!(&bytes[..4], &6i32.to_le_bytes());
    bytes.push(0x55);
    let mut ar = archive(bytes);
    assert_eq!(parse_string(&mut ar).unwrap(), "Hello");
    assert_eq!(ar.stream_position(), 10);
}

#[test]
fn ucs2_string_is_transcoded() {
    let mut ar = archive(ucs2(&[0x43, 0x61, 0x66, 0xE9]));
    assert_eq!(parse_string(&mut ar).unwrap(), "Caf\u{e9}");
    assert_eq!(ar.stream_position(), 4 + 8 + 2);
    let mut ar = archive(ucs2(&[0x20AC, 0x31]));
    assert_eq!(parse_string(&mut ar).unwrap(), "\u{20ac}1");
}

#[test]
fn ucs2_units_map_to_utf8_bytes() {
    assert_eq!(ucs2_to_utf8(&vec![0xE9]), vec![0xC3, 0xA9]);
    assert_eq!(ucs2_to_utf8(&vec![0x41]), vec![0x41]);
    assert_eq!(ucs2_to_utf8(&vec![0x20AC]), vec![0xE2, 0x82, 0xAC]);
    assert_eq!(ucs2_to_utf8(&vec![0x7FF, 0x800]), vec![0xDF, 0xBF, 0xE0, 0xA0, 0x80]);
    assert_eq!(ucs2_to_utf8(&vec![]), Vec::<u8>::new());
}

#[test]
fn invalid_utf8_is_invalid_string() {
    let mut ar = archive(vec![3, 0, 0, 0, 0xFF, 0xFE, 0]);
    assert!(matches!(parse_string(&mut ar), Err(Error::InvalidString)));
    let mut ar = archive(ucs2(&[0xD800]));
    assert!(matches!(parse_string(&mut ar), Err(Error::InvalidString)));
}

#[test]
fn short_strings_fail() {
    let mut ar = archive(vec![10, 0, 0, 0, b'a']);
    assert!(matches!(parse_string(&mut ar), Err(Error::Io)));
    let mut ar = archive(vec![0xFA, 0xFF, 0xFF, 0xFF, 0x41, 0]);
    assert!(matches!(parse_string(&mut ar), Err(Error::ParseFailure)));
    let mut ar = archive(vec![1, 0]);
    assert!(matches!(parse_string(&mut ar), Err(Error::ParseFailure)));
}

#[test]
fn strings_can_be_skipped() {
    let mut bytes = ascii("Hello");
    bytes.extend_from_slice(&ucs2(&[0xE9, 0x41]));
    let mut ar = archive(bytes);
    UnrealString::skip_in_stream(&mut ar).unwrap();
    assert_eq!(ar.stream_position(), 10);
    UnrealString::skip_in_stream(&mut ar).unwrap();
    assert_eq!(ar.stream_position(), 10 + 4 + 6);
}

#[test]
fn object_references_decode() {
    assert_eq!(ObjectImportOuter::decode(0), ObjectImportOuter::Root);
    assert_eq!(ObjectImportOuter::decode(5), ObjectImportOuter::Export { export_index: 4 });
    assert_eq!(ObjectImportOuter::decode(-5), ObjectImportOuter::Import { import_index: 4 });
    assert_eq!(
        ObjectImportOuter::decode(i32::MIN),
        ObjectImportOuter::Import { import_index: i32::MAX as u32 }
    );
}

#[test]
fn object_references_round_trip() {
    for v in (-1000..=1000).chain([i32::MIN, i32::MIN + 1, i32::MAX, i32::MAX - 1]) {
        assert_eq!(ObjectImportOuter::decode(v).encode(), v);
    }
    for i in [0u32, 1, 4, 77, i32::MAX as u32 - 1] {
        let e = ObjectImportOuter::Export { export_index: i };
        assert_eq!(ObjectImportOuter::decode(e.encode()), e);
        let m = ObjectImportOuter::Import { import_index: i };
        assert_eq!(ObjectImportOuter::decode(m.encode()), m);
    }
}

#[test]
fn changelist_splits_licensee_bit() {
    let v = UnrealEngineVersion::from_changelist(0x8000_0005);
    assert_eq!(v.major, 4);
    assert_eq!(v.changelist, 5);
    assert!(v.is_licensee_version);
    assert!(!v.is_empty());
    let v = UnrealEngineVersion::from_changelist(0x7FFF_FFFF);
    assert_eq!(v.changelist, 0x7FFF_FFFF);
    assert!(!v.is_licensee_version);
    assert!(UnrealEngineVersion::from_changelist(0).is_empty());
    assert!(UnrealEngineVersion::empty().is_empty());
}

#[test]
fn fixed_records_skip_by_arithmetic() {
    let mut ar = archive(vec![0; 8]);
    let info = ArrayStreamInfo { offset: 4, count: 3 };
    UnrealArray::seek_past_fixed(&mut ar, &info, 16).unwrap();
    assert_eq!(ar.stream_position(), 52);
    let info = ArrayStreamInfo { offset: 4, count: u64::MAX };
    assert!(matches!(UnrealArray::seek_past_fixed(&mut ar, &info, 16), Err(Error::Io)));
}

#[test]
fn seeking_before_the_start_fails() {
    let mut ar = archive(vec![0; 8]);
    assert!(matches!(ar.seek_relative(-1), Err(Error::Io)));
    ar.seek_start(6);
    ar.seek_relative(-6).unwrap();
    assert_eq!(ar.stream_position(), 0);
}

#[test]
fn integers_are_little_endian() {
    let mut ar = archive(vec![0xFE, 0xFF, 0xFF, 0xFF, 0x01, 0x02, 0, 0, 0, 0, 0, 0x80]);
    assert_eq!(ar.read_i32().unwrap(), -2);
    assert_eq!(ar.read_u16().unwrap(), 0x0201);
    assert_eq!(ar.read_u16().unwrap(), 0);
    ar.seek_start(4);
    assert_eq!(ar.read_i64().unwrap(), i64::MIN + 0x0201);
}

#[test]
fn engine_versions_and_guids_can_be_skipped() {
    let mut bytes = vec![4, 0, 27, 0, 1, 0, 9, 0, 0, 0];
    bytes.extend_from_slice(&ascii("Main"));
    bytes.extend_from_slice(&[0xAA; 16]);
    let mut ar = archive(bytes);
    UnrealEngineVersion::seek_past(&mut ar).unwrap();
    assert_eq!(ar.stream_position(), 10 + 4 + 5);
    UnrealGuid::seek_past(&mut ar).unwrap();
    assert_eq!(ar.stream_position(), 10 + 4 + 5 + 16);
    ar.seek_start(0);
    let v = UnrealEngineVersion::parse_inline(&mut ar).unwrap();
    assert_eq!((v.major, v.minor, v.patch, v.changelist), (4, 27, 1, 9));
    assert_eq!(v.branch_name, "Main");
}

#[test]
fn failed_string_reads_leave_the_cursor_where_the_failing_step_began() {
    let mut ar = archive(vec![10, 0, 0, 0, b'a']);
    assert!(parse_string(&mut ar).is_err());
    assert_eq!(ar.stream_position(), 4);
    let mut ar = archive(vec![0xFA, 0xFF, 0xFF, 0xFF, 0x41, 0]);
    assert!(parse_string(&mut ar).is_err());
    assert_eq!(ar.stream_position(), 4);
    let mut ar = archive(vec![3, 0, 0, 0, 0xFF, 0xFE, 0, 7]);
    assert!(matches!(parse_string(&mut ar), Err(Error::InvalidString)));
    assert_eq!(ar.stream_position(), 7);
    let mut ar = archive(vec![1, 0]);
    assert!(parse_string(&mut ar).is_err());
    assert_eq!(ar.stream_position(), 0);
    let mut ar = archive(vec![9, 9, 10, 0, 0, 0, b'a']);
    ar.seek_start(2);
    assert!(UnrealString::parse_in_stream(&mut ar).is_err());
    assert_eq!(ar.stream_position(), 6);
}
