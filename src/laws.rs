use vstd::prelude::*;

use crate::archive::{PACKAGE_FILE_MAGIC, decode_preamble};
use crate::error::Error;
use crate::header::decode_header;
use crate::lookup::{find_spec, is_first_match, lower_of, name_match, resolvable, resolved};
use crate::records::{ObjectImportOuter, encodable, index_of, outer_of};
use crate::stream::{signed32, u32_le};
use crate::strings::{ucs2_utf8, unit_utf8};
use crate::versions::ObjectVersionUE5;
use vstd::utf8::{
    decode_utf8, encode_scalar, encode_utf8, encode_utf8_decode_utf8, encode_utf8_valid_utf8,
    valid_utf8,
};

verus! {

/// Decoding a signed index into a reference and encoding it again gives the
/// index back, for every 32-bit index.
pub proof fn lemma_reference_index_round_trip(v: i32)
    ensures
        encodable(outer_of(v as int)),
        index_of(outer_of(v as int)) == v,
{
}

/// Encoding a reference and decoding the index gives the reference back,
/// for every reference that has a 32-bit index.
pub proof fn lemma_reference_round_trip(o: ObjectImportOuter)
    requires
        encodable(o),
    ensures
        outer_of(index_of(o)) == o,
{
}

/// When `query` matches entry `i`, some entry is the first match.
proof fn lemma_first_match_exists(names: Seq<Seq<char>>, query: Seq<char>, i: int)
    requires
        0 <= i < names.len(),
        name_match(query, names[i]),
    ensures
        exists|k: int| is_first_match(names, query, k),
    decreases i,
{
    if exists|j: int| 0 <= j < i && name_match(query, #[trigger] names[j]) {
        let j = choose|j: int| 0 <= j < i && name_match(query, #[trigger] names[j]);
        lemma_first_match_exists(names, query, j);
    } else {
        assert(is_first_match(names, query, i));
    }
}

/// Looking up a stored name finds a reference that resolves to that name,
/// unless an earlier entry differs from it but is equal once lowercased.
pub proof fn lemma_find_then_resolve(names: Seq<Seq<char>>, i: int)
    requires
        0 <= i < names.len(),
        names.len() <= u32::MAX,
        forall|j: int|
            0 <= j < i && lower_of(#[trigger] names[j]) == lower_of(names[i]) ==> names[j] == names[i],
    ensures
        find_spec(names, names[i]) matches Some(r) && resolvable(names, r)
            && resolved(names[r.index as int], r.number) == names[i],
{
    lemma_first_match_exists(names, names[i], i);
    let k = choose|k: int| is_first_match(names, names[i], k);
    assert(k <= i) by {
        if k > i {
            assert(!name_match(names[i], names[i]));
        }
    }
    assert(names[k] == names[i]);
}

/// Data whose first four bytes are not the package magic is refused as not
/// being an asset, whatever follows.
pub proof fn lemma_bad_magic_is_invalid_file(d: Seq<u8>)
    requires
        d.len() >= 4,
        u32_le(d, 0) != PACKAGE_FILE_MAGIC,
    ensures
        decode_header(d) == Err::<crate::header::HeaderView, Error>(Error::InvalidFile),
{
}

/// The first-line object version stored in an asset's preamble.
pub open spec fn stored_file_version(d: Seq<u8>) -> int {
    signed32(u32_le(d, 12))
}

/// The second-line object version stored in an asset's preamble: present only
/// in the newest dialect (legacy version -8), zero otherwise.
pub open spec fn stored_file_version_ue5(d: Seq<u8>) -> int {
    if signed32(u32_le(d, 4)) <= -8 {
        signed32(u32_le(d, 16))
    } else {
        0
    }
}

/// The decoded second-line version as a number, zero when absent. Known
/// versions are positive, so this orders absent before any present version.
pub open spec fn ue5_value(v: Option<ObjectVersionUE5>) -> int {
    match v {
        Some(x) => x.0 as int,
        None => 0,
    }
}

/// Decoding reports both object versions exactly as stored. So of two assets
/// that both decode, the one stored with later versions is reported with
/// later versions: re-saving an asset at a newer version never lowers the
/// decoded versions.
pub proof fn lemma_decoded_version_order(d1: Seq<u8>, d2: Seq<u8>)
    requires
        decode_header(d1) is Ok,
        decode_header(d2) is Ok,
        stored_file_version(d1) <= stored_file_version(d2),
        stored_file_version_ue5(d1) <= stored_file_version_ue5(d2),
    ensures
        decode_header(d1)->Ok_0.preamble.file_version.0 == stored_file_version(d1),
        decode_header(d2)->Ok_0.preamble.file_version.0 == stored_file_version(d2),
        ue5_value(decode_header(d1)->Ok_0.preamble.file_version_ue5) == stored_file_version_ue5(d1),
        ue5_value(decode_header(d2)->Ok_0.preamble.file_version_ue5) == stored_file_version_ue5(d2),
        decode_header(d1)->Ok_0.preamble.file_version.0 <= decode_header(d2)->Ok_0.preamble.file_version.0,
        ue5_value(decode_header(d1)->Ok_0.preamble.file_version_ue5) <= ue5_value(
            decode_header(d2)->Ok_0.preamble.file_version_ue5,
        ),
{
    lemma_decoded_version_is_stored(d1);
    lemma_decoded_version_is_stored(d2);
}

proof fn lemma_decoded_version_is_stored(d: Seq<u8>)
    requires
        decode_header(d) is Ok,
    ensures
        decode_header(d)->Ok_0.preamble.file_version.0 == stored_file_version(d),
        ue5_value(decode_header(d)->Ok_0.preamble.file_version_ue5) == stored_file_version_ue5(d),
{
    assert(decode_preamble(d) is Ok);
}

/// The characters that UCS-2 units stand for, one per unit.
pub open spec fn ucs2_chars(units: Seq<u16>) -> Seq<char> {
    units.map_values(|u: u16| u as char)
}

/// No unit is a surrogate, so each one is a character by itself.
pub open spec fn no_surrogates(units: Seq<u16>) -> bool {
    forall|i: int| 0 <= i < units.len() ==> !(0xD800 <= #[trigger] units[i] <= 0xDFFF)
}

proof fn lemma_unit_utf8(c: u16)
    requires
        !(0xD800 <= c <= 0xDFFF),
    ensures
        unit_utf8(c) == encode_scalar(c as u32),
{
    let v = c as u32;
    if c < 0x80 {
        assert((c as u8) == ((v & 0x7F) as u8)) by (bit_vector)
            requires
                c < 0x80,
                v == c as u32,
        ;
        assert(unit_utf8(c) =~= encode_scalar(v));
    } else if c < 0x800 {
        assert(((0xC0 + c / 64) as u8) == (0xC0 | ((v >> 6) & 0x1F) as u8)) by (bit_vector)
            requires
                0x80 <= c < 0x800,
                v == c as u32,
        ;
        assert(((0x80 + c % 64) as u8) == (0x80 | (v & 0x3F) as u8)) by (bit_vector)
            requires
                v == c as u32,
        ;
        assert(unit_utf8(c) =~= encode_scalar(v));
    } else {
        assert(((0xE0 + c / 4096) as u8) == (0xE0 | ((v >> 12) & 0x0F) as u8)) by (bit_vector)
            requires
                0x800 <= c,
                v == c as u32,
        ;
        assert(((0x80 + (c / 64) % 64) as u8) == (0x80 | ((v >> 6) & 0x3F) as u8)) by (bit_vector)
            requires
                v == c as u32,
        ;
        assert(((0x80 + c % 64) as u8) == (0x80 | (v & 0x3F) as u8)) by (bit_vector)
            requires
                v == c as u32,
        ;
        assert(unit_utf8(c) =~= encode_scalar(v));
    }
}

proof fn lemma_encode_utf8_push(s: Seq<char>, c: char)
    ensures
        encode_utf8(s.push(c)) == encode_utf8(s) + encode_scalar(c as u32),
    decreases s.len(),
{
    if s.len() == 0 {
        assert(s.push(c).drop_first() =~= Seq::<char>::empty());
        assert(s.push(c)[0] == c);
        assert(encode_utf8(s.push(c).drop_first()) == Seq::<u8>::empty());
        assert(encode_utf8(s) == Seq::<u8>::empty());
        assert(encode_utf8(s.push(c)) == encode_scalar(c as u32) + Seq::<u8>::empty());
        assert(encode_utf8(s.push(c)) =~= encode_utf8(s) + encode_scalar(c as u32));
    } else {
        lemma_encode_utf8_push(s.drop_first(), c);
        assert(s.push(c).drop_first() =~= s.drop_first().push(c));
        assert(s.push(c)[0] == s[0]);
        let head = encode_scalar(s[0] as u32);
        let rest = encode_utf8(s.drop_first());
        let last = encode_scalar(c as u32);
        assert(encode_utf8(s.push(c)) == head + (rest + last));
        assert(encode_utf8(s) == head + rest);
        assert(head + (rest + last) =~= (head + rest) + last);
    }
}

proof fn lemma_ucs2_utf8_is_encoding(units: Seq<u16>)
    requires
        no_surrogates(units),
    ensures
        ucs2_utf8(units) == encode_utf8(ucs2_chars(units)),
    decreases units.len(),
{
    if units.len() > 0 {
        let init = units.drop_last();
        let c = units.last();
        assert(no_surrogates(init)) by {
            assert forall|i: int| 0 <= i < init.len() implies !(0xD800 <= #[trigger] init[i] <= 0xDFFF) by {
                assert(init[i] == units[i]);
            }
        }
        lemma_ucs2_utf8_is_encoding(init);
        assert(!(0xD800 <= units[units.len() - 1] <= 0xDFFF));
        lemma_unit_utf8(c);
        assert(ucs2_chars(units) =~= ucs2_chars(init).push(c as char));
        lemma_encode_utf8_push(ucs2_chars(init), c as char);
        assert((c as char) as u32 == c as u32);
    } else {
        assert(ucs2_chars(units) =~= Seq::<char>::empty());
    }
}

/// UCS-2 units without surrogates transcode to valid UTF-8 that decodes to
/// exactly one character per unit: such a string reads back as its units.
pub proof fn lemma_ucs2_transcoding_round_trip(units: Seq<u16>)
    requires
        no_surrogates(units),
    ensures
        valid_utf8(ucs2_utf8(units)),
        decode_utf8(ucs2_utf8(units)) == ucs2_chars(units),
{
    lemma_ucs2_utf8_is_encoding(units);
    encode_utf8_valid_utf8(ucs2_chars(units));
    encode_utf8_decode_utf8(ucs2_chars(units));
}

/// The characters that single-byte code units stand for, one per byte.
pub open spec fn byte_chars(bytes: Seq<u8>) -> Seq<char> {
    bytes.map_values(|b: u8| b as char)
}

proof fn lemma_ascii_is_encoding(bytes: Seq<u8>)
    requires
        forall|i: int| 0 <= i < bytes.len() ==> #[trigger] bytes[i] < 0x80,
    ensures
        bytes == encode_utf8(byte_chars(bytes)),
    decreases bytes.len(),
{
    if bytes.len() > 0 {
        let init = bytes.drop_last();
        let b = bytes.last();
        assert(forall|i: int| 0 <= i < init.len() ==> #[trigger] init[i] == bytes[i]);
        lemma_ascii_is_encoding(init);
        assert(byte_chars(bytes) =~= byte_chars(init).push(b as char));
        lemma_encode_utf8_push(byte_chars(init), b as char);
        assert(bytes[bytes.len() - 1] < 0x80);
        let v = (b as char) as u32;
        assert(v == b as u32);
        assert((b as u8) == ((v & 0x7F) as u8)) by (bit_vector)
            requires
                b < 0x80,
                v == b as u32,
        ;
        assert(encode_scalar(v) =~= seq![b]);
        assert(bytes =~= init + seq![b]);
    } else {
        assert(byte_chars(bytes) =~= Seq::<char>::empty());
    }
}

/// Bytes below 0x80 form valid UTF-8 that decodes to one character per
/// byte: a single-byte string of ASCII text reads back as that text.
pub proof fn lemma_ascii_round_trip(bytes: Seq<u8>)
    requires
        forall|i: int| 0 <= i < bytes.len() ==> #[trigger] bytes[i] < 0x80,
    ensures
        valid_utf8(bytes),
        decode_utf8(bytes) == byte_chars(bytes),
{
    lemma_ascii_is_encoding(bytes);
    encode_utf8_valid_utf8(byte_chars(bytes));
    encode_utf8_decode_utf8(byte_chars(bytes));
}

} // verus!
