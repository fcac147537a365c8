//! Acceptance of a runtime `.matrix` artifact: a 39-byte header followed by a
//! serialized payload.
//!
//! | Offset | Size | Field                         |
//! |--------|------|-------------------------------|
//! | 0..4   | 4    | magic `MATR`                  |
//! | 4      | 1    | byte-order mark (1 LE, 2 BE)  |
//! | 5..7   | 2    | format version (u16)          |
//! | 7..15  | 8    | source hash (u64)             |
//! | 15..23 | 8    | dependency hash (u64)         |
//! | 23..31 | 8    | type hash (u64)               |
//! | 31..39 | 8    | payload length (u64)          |
use vstd::prelude::*;
use vstd::endian::{endianness, Endian};
use vstd::slice::slice_subrange;
use crate::byte_order::{lemma_u16_roundtrip, lemma_u64_roundtrip, read_u16, read_u64, u16_bytes, u16_value, u64_bytes, u64_value};

verus! {

/// Why an artifact was refused.
#[derive(Debug)]
pub enum MatrixError {
    CorruptedHeader,
    InvalidMagic,
    UnsupportedVersion(u16),
    EndiannessConflict,
    TruncatedPayload,
    DeserializationFailed,
}

/// Byte order an artifact was written in.
#[derive(Debug, Copy, Clone, PartialEq, Eq, Structural)]
pub enum Endianness {
    Little,
    Big,
}

/// Size of the runtime header in bytes.
pub const HEADER_SIZE: usize = 39;

/// The magic bytes `MATR` that open every artifact.
pub open spec fn matrix_magic() -> Seq<u8> {
    seq![0x4Du8, 0x41u8, 0x54u8, 0x52u8]
}

/// The byte order that a header mark announces, if it is one of the two marks.
pub open spec fn order_of_mark(mark: u8) -> Option<Endianness> {
    if mark == 1 {
        Some(Endianness::Little)
    } else if mark == 2 {
        Some(Endianness::Big)
    } else {
        None
    }
}

/// The payload range that a runtime artifact declares, or why it is refused,
/// on a machine whose native byte order is `native`.
pub open spec fn spec_payload_range(bytes: Seq<u8>, native: Endianness) -> Result<(int, int), MatrixError> {
    if bytes.len() < 39 {
        Err(MatrixError::CorruptedHeader)
    } else if bytes.subrange(0, 4) != matrix_magic() {
        Err(MatrixError::InvalidMagic)
    } else if order_of_mark(bytes[4]) is None {
        Err(MatrixError::CorruptedHeader)
    } else if order_of_mark(bytes[4]) != Some(native) {
        Err(MatrixError::EndiannessConflict)
    } else if u16_value(bytes.subrange(5, 7), native) != 1 {
        Err(MatrixError::UnsupportedVersion(u16_value(bytes.subrange(5, 7), native)))
    } else if bytes.len() < 39 + u64_value(bytes.subrange(31, 39), native) {
        Err(MatrixError::TruncatedPayload)
    } else {
        Ok((39, 39 + u64_value(bytes.subrange(31, 39), native)))
    }
}

/// The byte order of the executing hardware, as vstd abstracts it
/// (`vstd::endian::endianness`).
pub open spec fn native_order() -> Endianness {
    match endianness() {
        Endian::Little => Endianness::Little,
        Endian::Big => Endianness::Big,
    }
}

/// An accepted artifact's payload starts right after the 39-byte header and
/// is as long as the full 64-bit length field says: when the field holds the
/// encoding of `len` in the machine's order, the payload is `bytes[39..39 + len]`.
pub proof fn lemma_payload_has_declared_length(bytes: Seq<u8>, native: Endianness, len: u64)
    requires
        bytes.len() >= 39 ==> bytes.subrange(31, 39) == u64_bytes(len, native),
    ensures
        spec_payload_range(bytes, native) matches Ok((start, end)) ==> {
            &&& start == 39
            &&& end == 39 + len
            &&& end <= bytes.len()
        },
{
    lemma_u64_roundtrip(len, native);
}

/// A well-formed header for the machine's order with a length field that
/// fits is accepted, and whatever follows the declared payload does not
/// change the verdict.
pub proof fn lemma_payload_accepted(bytes: Seq<u8>, native: Endianness, len: u64, extra: Seq<u8>)
    requires
        bytes.len() >= 39,
        bytes.subrange(0, 4) == matrix_magic(),
        order_of_mark(bytes[4]) == Some(native),
        bytes.subrange(5, 7) == u16_bytes(1, native),
        bytes.subrange(31, 39) == u64_bytes(len, native),
        39 + len <= bytes.len(),
    ensures
        spec_payload_range(bytes, native) == Ok::<(int, int), MatrixError>((39, 39 + len)),
        spec_payload_range(bytes + extra, native) == Ok::<(int, int), MatrixError>((39, 39 + len)),
{
    lemma_u64_roundtrip(len, native);
    lemma_u16_roundtrip(1, native);
    let longer = bytes + extra;
    assert(longer.subrange(0, 4) =~= bytes.subrange(0, 4));
    assert(longer.subrange(5, 7) =~= bytes.subrange(5, 7));
    assert(longer.subrange(31, 39) =~= bytes.subrange(31, 39));
    assert(longer[4] == bytes[4]);
}

/// `u16::to_ne_bytes`: the memory representation of `value` in the machine's
/// native byte order: low byte first on a little-endian machine, high byte
/// first on a big-endian one.
#[verifier::external_body]
fn u16_to_ne_bytes(value: u16) -> (bytes: [u8; 2])
    ensures
        native_order() is Little ==> bytes@ == seq![(value % 256) as u8, (value / 256) as u8],
        native_order() is Big ==> bytes@ == seq![(value / 256) as u8, (value % 256) as u8],
{
    value.to_ne_bytes()
}

impl Endianness {
    /// The byte order of the machine running the code, found by looking at
    /// the native bytes of the number 1.
    pub fn current() -> (order: Endianness)
        ensures
            order == native_order(),
    {
        let probe = u16_to_ne_bytes(1);
        if probe[0] == 1 {
            Endianness::Little
        } else {
            Endianness::Big
        }
    }
}

/// Checks the header of a runtime artifact for a machine of byte order
/// `native` and returns the payload that it frames.
pub fn payload_for(matrix_bytes: &[u8], native: Endianness) -> (payload: Result<&[u8], MatrixError>)
    ensures
        match spec_payload_range(matrix_bytes@, native) {
            Ok((start, end)) => payload matches Ok(p) && p@ == matrix_bytes@.subrange(start, end),
            Err(e) => payload matches Err(found) && found == e,
        },
{
    if matrix_bytes.len() < HEADER_SIZE {
        return Err(MatrixError::CorruptedHeader);
    }
    if !(matrix_bytes[0] == 0x4D && matrix_bytes[1] == 0x41 && matrix_bytes[2] == 0x54
        && matrix_bytes[3] == 0x52) {
        proof {
            if matrix_bytes@.subrange(0, 4) == matrix_magic() {
                assert(matrix_bytes@.subrange(0, 4)[0] == matrix_bytes@[0]);
                assert(matrix_bytes@.subrange(0, 4)[1] == matrix_bytes@[1]);
                assert(matrix_bytes@.subrange(0, 4)[2] == matrix_bytes@[2]);
                assert(matrix_bytes@.subrange(0, 4)[3] == matrix_bytes@[3]);
            }
        }
        return Err(MatrixError::InvalidMagic);
    }
    assert(matrix_bytes@.subrange(0, 4) =~= matrix_magic());
    let matrix_order = if matrix_bytes[4] == 1 {
        Endianness::Little
    } else if matrix_bytes[4] == 2 {
        Endianness::Big
    } else {
        return Err(MatrixError::CorruptedHeader);
    };
    if matrix_order != native {
        return Err(MatrixError::EndiannessConflict);
    }
    let version = read_u16(matrix_bytes, 5, native);
    if version != 1 {
        return Err(MatrixError::UnsupportedVersion(version));
    }
    let payload_len = read_u64(matrix_bytes, 31, native);
    let available = (matrix_bytes.len() - HEADER_SIZE) as u64;
    if payload_len > available {
        return Err(MatrixError::TruncatedPayload);
    }
    let payload_end = HEADER_SIZE + payload_len as usize;
    Ok(slice_subrange(matrix_bytes, HEADER_SIZE, payload_end))
}

/// The payload of a runtime artifact, checked against the byte order of the
/// machine running the code.
pub fn matrix_payload(matrix_bytes: &[u8]) -> (payload: Result<&[u8], MatrixError>)
    ensures
        match spec_payload_range(matrix_bytes@, native_order()) {
            Ok((start, end)) => payload matches Ok(p) && p@ == matrix_bytes@.subrange(start, end),
            Err(e) => payload matches Err(found) && found == e,
        },
{
    let native = Endianness::current();
    payload_for(matrix_bytes, native)
}

/// Decodes the value that a runtime artifact holds: the header is checked
/// against the machine's byte order, then `decode` is handed the payload; a
/// payload that it cannot decode gives `DeserializationFailed`.
pub fn cast_from_matrix<T, F>(matrix_bytes: &[u8], decode: F) -> (result: Result<T, MatrixError>)
    where
        F: FnOnce(&[u8]) -> Option<T>,
    requires
        forall|p: &[u8]| decode.requires((p,)),
    ensures
        match spec_payload_range(matrix_bytes@, native_order()) {
            Ok((start, end)) => match result {
                Ok(value) => exists|p: &[u8]|
                    p@ == matrix_bytes@.subrange(start, end) && decode.ensures((p,), Some(value)),
                Err(e) => e is DeserializationFailed && exists|p: &[u8]|
                    p@ == matrix_bytes@.subrange(start, end) && decode.ensures((p,), None),
            },
            Err(e) => result matches Err(found) && found == e,
        },
{
    let native = Endianness::current();
    match payload_for(matrix_bytes, native) {
        Ok(payload) => match decode(payload) {
            Some(value) => Ok(value),
            None => Err(MatrixError::DeserializationFailed),
        },
        Err(e) => Err(e),
    }
}

} // verus!
