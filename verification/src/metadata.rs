//! The 40-byte header that precedes a captured pattern's payload, laid out as
//! the `repr(C)` record `PatternMetadata`.
//!
//! | Offset | Size | Field        |
//! |--------|------|--------------|
//! | 0..8   | 8    | name_hash    |
//! | 8..16  | 8    | type_hash    |
//! | 16..24 | 8    | payload_len  |
//! | 24..32 | 8    | reserved_1   |
//! | 32..36 | 4    | magic        |
//! | 36..38 | 2    | schema_ver   |
//! | 38     | 1    | version      |
//! | 39     | 1    | padding      |
use vstd::prelude::*;
use crate::byte_order::{lemma_u16_roundtrip, lemma_u64_roundtrip, push_u16, push_u64, u16_bytes, u16_value, u64_bytes, u64_value};
use crate::mold_runtime::{matrix_magic, Endianness};

verus! {

/// The magic bytes `MATR`.
pub const MATRIX_MAGIC: [u8; 4] = [0x4D, 0x41, 0x54, 0x52];

/// Version of the pattern header format.
pub const MATRIX_VERSION: u8 = 0x02;

/// Size of the pattern header in bytes.
pub const MATRIX_HEADER_SIZE: usize = 40;

/// Header record of a captured pattern.
#[derive(Copy, Clone, PartialEq, Eq, Debug)]
pub struct PatternMetadata {
    pub name_hash: u64,
    pub type_hash: u64,
    pub payload_len: u64,
    pub reserved_1: u64,
    pub magic: [u8; 4],
    pub schema_ver: u16,
    pub version: u8,
    pub padding: u8,
}

impl Default for PatternMetadata {
    /// The all-zero record.
    fn default() -> (meta: Self)
        ensures
            meta.name_hash == 0,
            meta.type_hash == 0,
            meta.payload_len == 0,
            meta.reserved_1 == 0,
            meta.magic@ == seq![0u8, 0u8, 0u8, 0u8],
            meta.schema_ver == 0,
            meta.version == 0,
            meta.padding == 0,
    {
        let meta = PatternMetadata {
            name_hash: 0,
            type_hash: 0,
            payload_len: 0,
            reserved_1: 0,
            magic: [0, 0, 0, 0],
            schema_ver: 0,
            version: 0,
            padding: 0,
        };
        assert(meta.magic@ =~= seq![0u8, 0u8, 0u8, 0u8]);
        meta
    }
}

/// The bytes of `meta` as its `repr(C)` layout, integers in the given order.
pub open spec fn header_bytes(meta: PatternMetadata, order: Endianness) -> Seq<u8> {
    u64_bytes(meta.name_hash, order) + u64_bytes(meta.type_hash, order) + u64_bytes(
        meta.payload_len,
        order,
    ) + u64_bytes(meta.reserved_1, order) + meta.magic@ + u16_bytes(meta.schema_ver, order)
        + seq![meta.version, meta.padding]
}

impl PatternMetadata {
    /// The header that a pattern with these hashes stamps on its payload:
    /// magic `MATR`, schema 1, format `MATRIX_VERSION`, nothing reserved.
    pub fn for_pattern(name_hash: u64, type_hash: u64, payload_len: u64) -> (meta: Self)
        ensures
            meta.name_hash == name_hash,
            meta.type_hash == type_hash,
            meta.payload_len == payload_len,
            meta.reserved_1 == 0,
            meta.magic@ == matrix_magic(),
            meta.schema_ver == 1,
            meta.version == MATRIX_VERSION,
            meta.padding == 0,
    {
        let meta = PatternMetadata {
            name_hash,
            type_hash,
            payload_len,
            reserved_1: 0,
            magic: MATRIX_MAGIC,
            schema_ver: 1,
            version: MATRIX_VERSION,
            padding: 0,
        };
        assert(meta.magic@ =~= matrix_magic());
        meta
    }

    /// The record's memory image, integers in byte order `order`.
    pub fn to_header_bytes(&self, order: Endianness) -> (bytes: Vec<u8>)
        ensures
            bytes@ == header_bytes(*self, order),
    {
        let mut bytes: Vec<u8> = Vec::new();
        push_u64(&mut bytes, self.name_hash, order);
        push_u64(&mut bytes, self.type_hash, order);
        push_u64(&mut bytes, self.payload_len, order);
        push_u64(&mut bytes, self.reserved_1, order);
        bytes.push(self.magic[0]);
        bytes.push(self.magic[1]);
        bytes.push(self.magic[2]);
        bytes.push(self.magic[3]);
        push_u16(&mut bytes, self.schema_ver, order);
        bytes.push(self.version);
        bytes.push(self.padding);
        assert(bytes@ =~= header_bytes(*self, order));
        bytes
    }
}

/// The header image is `MATRIX_HEADER_SIZE` bytes long and every field can be
/// read back at its offset.
pub proof fn lemma_header_fields(meta: PatternMetadata, order: Endianness)
    ensures
        ({
            let b = header_bytes(meta, order);
            &&& b.len() == MATRIX_HEADER_SIZE
            &&& u64_value(b.subrange(0, 8), order) == meta.name_hash
            &&& u64_value(b.subrange(8, 16), order) == meta.type_hash
            &&& u64_value(b.subrange(16, 24), order) == meta.payload_len
            &&& u64_value(b.subrange(24, 32), order) == meta.reserved_1
            &&& b.subrange(32, 36) == meta.magic@
            &&& u16_value(b.subrange(36, 38), order) == meta.schema_ver
            &&& b[38] == meta.version
            &&& b[39] == meta.padding
        }),
{
    lemma_u64_roundtrip(meta.name_hash, order);
    lemma_u64_roundtrip(meta.type_hash, order);
    lemma_u64_roundtrip(meta.payload_len, order);
    lemma_u64_roundtrip(meta.reserved_1, order);
    lemma_u16_roundtrip(meta.schema_ver, order);
    let b = header_bytes(meta, order);
    assert(meta.magic@.len() == 4);
    assert(b.subrange(0, 8) =~= u64_bytes(meta.name_hash, order));
    assert(b.subrange(8, 16) =~= u64_bytes(meta.type_hash, order));
    assert(b.subrange(16, 24) =~= u64_bytes(meta.payload_len, order));
    assert(b.subrange(24, 32) =~= u64_bytes(meta.reserved_1, order));
    assert(b.subrange(32, 36) =~= meta.magic@);
    assert(b.subrange(36, 38) =~= u16_bytes(meta.schema_ver, order));
}

} // verus!
