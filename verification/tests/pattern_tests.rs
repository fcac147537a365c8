use foundry::metadata::{PatternMetadata, MATRIX_HEADER_SIZE, MATRIX_MAGIC, MATRIX_VERSION};
use foundry::mold_runtime::Endianness;
use foundry::pattern::{fnv1a_64, name_hash, pattern_item_names, pattern_type_hash, return_type_text, type_hash, FNV_OFFSET_BASIS};
use foundry::runtime::{forged_payload, DefaultRouter, FoundryFallbackRouter};

#[test]
fn fnv1a_known_values() {
    assert_eq!(fnv1a_64(b""), 0xcbf29ce484222325);
    assert_eq!(fnv1a_64(b""), FNV_OFFSET_BASIS);
    assert_eq!(fnv1a_64(b"a"), 0xaf63dc4c8601ec8c);
    assert_eq!(fnv1a_64(b"foobar"), 0x85944171f73967e8);
}

#[test]
fn name_hash_hashes_the_name_bytes() {
    assert_eq!(name_hash("foobar"), 0x85944171f73967e8);
    assert_eq!(name_hash("cargar_tabla"), fnv1a_64("cargar_tabla".as_bytes()));
}

#[test]
fn type_hash_ignores_spaces() {
    assert_eq!(type_hash("Vec < u8 >"), fnv1a_64(b"Vec<u8>"));
    assert_eq!(type_hash("Vec < u8 >"), type_hash("Vec<u8>"));
    assert_eq!(type_hash("   "), FNV_OFFSET_BASIS);
    assert_ne!(type_hash("u8"), type_hash("u16"));
}

#[test]
fn generated_item_names() {
    let names = pattern_item_names("cargar");
    assert_eq!(names.capture_test, "__foundry_capture_for_cargar");
    assert_eq!(names.wrapper, "__FoundryWrapper_cargar");
    assert_eq!(names.discovery_trait, "__FoundryLocalDiscovery_cargar");
}

#[test]
fn pattern_metadata_fields() {
    let m = PatternMetadata::for_pattern(1, 2, 3);
    assert_eq!(m.name_hash, 1);
    assert_eq!(m.type_hash, 2);
    assert_eq!(m.payload_len, 3);
    assert_eq!(m.reserved_1, 0);
    assert_eq!(m.magic, MATRIX_MAGIC);
    assert_eq!(&m.magic, b"MATR");
    assert_eq!(m.schema_ver, 1);
    assert_eq!(m.version, MATRIX_VERSION);
    assert_eq!(m.version, 2);
    assert_eq!(m.padding, 0);
    let d = PatternMetadata::default();
    assert_eq!(d.name_hash, 0);
    assert_eq!(d.magic, [0, 0, 0, 0]);
    assert_eq!(d.version, 0);
}

#[test]
fn header_bytes_follow_the_record_layout() {
    let m = PatternMetadata::for_pattern(0x1122334455667788, 0xAB, 5);
    let le = m.to_header_bytes(Endianness::Little);
    assert_eq!(le.len(), MATRIX_HEADER_SIZE);
    assert_eq!(&le[0..8], &0x1122334455667788u64.to_le_bytes());
    assert_eq!(&le[8..16], &0xABu64.to_le_bytes());
    assert_eq!(&le[16..24], &5u64.to_le_bytes());
    assert_eq!(&le[24..32], &[0u8; 8]);
    assert_eq!(&le[32..36], b"MATR");
    assert_eq!(&le[36..38], &1u16.to_le_bytes());
    assert_eq!(le[38], 2);
    assert_eq!(le[39], 0);
    let be = m.to_header_bytes(Endianness::Big);
    assert_eq!(&be[0..8], &0x1122334455667788u64.to_be_bytes());
    assert_eq!(&be[36..38], &1u16.to_be_bytes());
}

#[test]
fn forged_payload_skips_the_header() {
    let m = PatternMetadata::for_pattern(7, 8, 3);
    let mut artifact = m.to_header_bytes(Endianness::Little);
    artifact.extend_from_slice(&[10, 20, 30]);
    assert_eq!(forged_payload(&artifact), &[10, 20, 30]);
    let only_header = m.to_header_bytes(Endianness::Big);
    assert!(forged_payload(&only_header).is_empty());
}

#[test]
fn default_router_finds_nothing() {
    assert!(DefaultRouter.__foundry_get_matrix(0).is_none());
    assert!(DefaultRouter.__foundry_get_matrix(0xdead_beef).is_none());
}

#[test]
fn missing_return_type_hashes_as_unit() {
    assert_eq!(return_type_text(None), "()");
    assert_eq!(return_type_text(Some("Vec < u8 >")), "Vec < u8 >");
    assert_eq!(pattern_type_hash(None), fnv1a_64(b"()"));
    assert_eq!(pattern_type_hash(None), pattern_type_hash(Some("( )")));
    assert_eq!(pattern_type_hash(Some("Vec < u8 >")), fnv1a_64(b"Vec<u8>"));
}
