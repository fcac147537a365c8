//! Build-time `.matrix` artifacts: a 31-byte header that carries the hashes of
//! the code that produced the payload, followed by the payload.
//!
//! | Offset | Size | Field                        |
//! |--------|------|------------------------------|
//! | 0..4   | 4    | magic `MATR`                 |
//! | 4      | 1    | byte-order mark (1 LE, 2 BE) |
//! | 5..7   | 2    | format version (u16)         |
//! | 7..15  | 8    | source hash (u64)            |
//! | 15..23 | 8    | dependency hash (u64)        |
//! | 23..31 | 8    | payload length (u64)         |
use vstd::prelude::*;
use vstd::string::StringExecFns;
use crate::byte_order::{
    lemma_u16_roundtrip, lemma_u64_roundtrip, push_all, push_u16, push_u64, read_u64, u16_bytes,
    u16_value, u64_bytes, u64_value,
};
use crate::mold_runtime::{matrix_magic, Endianness};
use crate::text::same_text;

verus! {

/// Standing of a build-time artifact with respect to the current code.
#[derive(Debug)]
pub enum MatrixStatus {
    /// The artifact matches the current code.
    Valid,
    /// There is no artifact.
    Missing,
    /// The artifact was produced by other code or other dependencies.
    Obsolete(String),
    /// The artifact's header is damaged.
    Corrupted,
}

/// Size of the build-time header in bytes.
pub const CAPTURE_HEADER_SIZE: usize = 31;

/// Note given when the source hash differs.
pub open spec fn source_changed_note() -> Seq<char> {
    "Código fuente modificado."@
}

/// Note given when the dependency hash differs.
pub open spec fn dependencies_changed_note() -> Seq<char> {
    "Dependencias o Arquitectura alteradas."@
}

/// The byte order that the header is read in: little endian when the target
/// is named `little`, big endian otherwise.
pub open spec fn read_order(target_endian: Seq<char>) -> Endianness {
    if target_endian == "little"@ {
        Endianness::Little
    } else {
        Endianness::Big
    }
}

/// What examining an artifact gives: `artifact` is what could be read of the
/// artifact from its start (`None` when there is nothing to read).
pub open spec fn examination(
    status: MatrixStatus,
    artifact: Option<Seq<u8>>,
    order: Endianness,
    expected_ast: u64,
    expected_dep: u64,
) -> bool {
    match artifact {
        None => status is Missing,
        Some(h) => if h.len() < 31 || h.subrange(0, 4) != matrix_magic() {
            status is Corrupted
        } else if u64_value(h.subrange(7, 15), order) != expected_ast {
            status matches MatrixStatus::Obsolete(note) && note@ == source_changed_note()
        } else if u64_value(h.subrange(15, 23), order) != expected_dep {
            status matches MatrixStatus::Obsolete(note) && note@ == dependencies_changed_note()
        } else {
            status is Valid
        },
    }
}

/// Certifies that an artifact corresponds to the current code, by comparing
/// the hashes in its header with the expected ones. `artifact` holds the
/// bytes read from the start of the artifact, `None` when it could not be
/// found; `target_endian` names the byte order of the target.
pub fn examinar_estado_matriz(
    artifact: Option<&[u8]>,
    target_endian: &str,
    expected_ast: u64,
    expected_dep: u64,
) -> (status: MatrixStatus)
    ensures
        examination(
            status,
            match artifact {
                Some(a) => Some(a@),
                None => None,
            },
            read_order(target_endian@),
            expected_ast,
            expected_dep,
        ),
{
    let header = match artifact {
        Some(h) => h,
        None => return MatrixStatus::Missing,
    };
    if header.len() < CAPTURE_HEADER_SIZE {
        return MatrixStatus::Corrupted;
    }
    if !(header[0] == 0x4D && header[1] == 0x41 && header[2] == 0x54 && header[3] == 0x52) {
        proof {
            if header@.subrange(0, 4) == matrix_magic() {
                assert(header@.subrange(0, 4)[0] == header@[0]);
                assert(header@.subrange(0, 4)[1] == header@[1]);
                assert(header@.subrange(0, 4)[2] == header@[2]);
                assert(header@.subrange(0, 4)[3] == header@[3]);
            }
        }
        return MatrixStatus::Corrupted;
    }
    assert(header@.subrange(0, 4) =~= matrix_magic());
    let order = if same_text(target_endian, "little") {
        Endianness::Little
    } else {
        Endianness::Big
    };
    let found_ast = read_u64(header, 7, order);
    let found_dep = read_u64(header, 15, order);
    if found_ast != expected_ast {
        return MatrixStatus::Obsolete(String::from_str("Código fuente modificado."));
    }
    if found_dep != expected_dep {
        return MatrixStatus::Obsolete(String::from_str("Dependencias o Arquitectura alteradas."));
    }
    MatrixStatus::Valid
}

/// The artifact that capturing `payload` writes: the header in the chosen
/// byte order, then the payload.
pub open spec fn capture_artifact(big_endian: bool, ast_hash: u64, dep_hash: u64, payload: Seq<u8>) -> Seq<u8> {
    let order = if big_endian {
        Endianness::Big
    } else {
        Endianness::Little
    };
    matrix_magic() + seq![if big_endian { 2u8 } else { 1u8 }] + u16_bytes(1, order) + u64_bytes(
        ast_hash,
        order,
    ) + u64_bytes(dep_hash, order) + u64_bytes(payload.len() as u64, order) + payload
}

/// Frames a serialized payload as a build-time artifact, stamping it with the
/// hashes of the code and dependencies that produced it.
pub fn build_capture_artifact(big_endian: bool, ast_hash: u64, dep_hash: u64, payload: &[u8]) -> (artifact: Vec<u8>)
    ensures
        artifact@ == capture_artifact(big_endian, ast_hash, dep_hash, payload@),
{
    let order = if big_endian {
        Endianness::Big
    } else {
        Endianness::Little
    };
    let mut artifact: Vec<u8> = Vec::new();
    artifact.push(0x4D);
    artifact.push(0x41);
    artifact.push(0x54);
    artifact.push(0x52);
    assert(artifact@ =~= matrix_magic());
    artifact.push(if big_endian { 2u8 } else { 1u8 });
    push_u16(&mut artifact, 1, order);
    push_u64(&mut artifact, ast_hash, order);
    push_u64(&mut artifact, dep_hash, order);
    push_u64(&mut artifact, payload.len() as u64, order);
    push_all(&mut artifact, payload);
    artifact
}

/// Whether the artifact is written big endian: the target's byte order, as
/// Cargo names it (`little` or `big`), is read exactly as the examination
/// reads it, so anything but `little` is big endian.
pub fn is_big_endian_target(target_endian: &str) -> (big: bool)
    ensures
        big == (target_endian@ != "little"@),
        big == (read_order(target_endian@) is Big),
{
    !same_text(target_endian, "little")
}

/// What a captured artifact declares can be read back: the header of the
/// artifact captured with some hashes and byte order carries those hashes,
/// read in that byte order, and examining it against the same hashes finds it
/// valid.
pub proof fn lemma_capture_then_examine(big_endian: bool, ast_hash: u64, dep_hash: u64, payload: Seq<u8>)
    requires
        payload.len() <= u64::MAX,
    ensures
        ({
            let order = if big_endian {
                Endianness::Big
            } else {
                Endianness::Little
            };
            let artifact = capture_artifact(big_endian, ast_hash, dep_hash, payload);
            &&& artifact.len() == 31 + payload.len()
            &&& artifact.subrange(0, 4) == matrix_magic()
            &&& artifact[4] == (if big_endian { 2u8 } else { 1u8 })
            &&& u16_value(artifact.subrange(5, 7), order) == 1
            &&& u64_value(artifact.subrange(7, 15), order) == ast_hash
            &&& u64_value(artifact.subrange(15, 23), order) == dep_hash
            &&& u64_value(artifact.subrange(23, 31), order) == payload.len()
            &&& artifact.subrange(31, artifact.len() as int) == payload
            &&& examination(MatrixStatus::Valid, Some(artifact), order, ast_hash, dep_hash)
        }),
{
    let order = if big_endian {
        Endianness::Big
    } else {
        Endianness::Little
    };
    lemma_u16_roundtrip(1, order);
    lemma_u64_roundtrip(ast_hash, order);
    lemma_u64_roundtrip(dep_hash, order);
    lemma_u64_roundtrip(payload.len() as u64, order);
    let mark: Seq<u8> = seq![if big_endian { 2u8 } else { 1u8 }];
    let a = matrix_magic() + mark;
    let b = a + u16_bytes(1, order);
    let c = b + u64_bytes(ast_hash, order);
    let d = c + u64_bytes(dep_hash, order);
    let e = d + u64_bytes(payload.len() as u64, order);
    let artifact = e + payload;
    assert(artifact == capture_artifact(big_endian, ast_hash, dep_hash, payload));
    assert(artifact.subrange(0, 4) =~= matrix_magic());
    assert(artifact.subrange(5, 7) =~= u16_bytes(1, order));
    assert(artifact.subrange(7, 15) =~= u64_bytes(ast_hash, order));
    assert(artifact.subrange(15, 23) =~= u64_bytes(dep_hash, order));
    assert(artifact.subrange(23, 31) =~= u64_bytes(payload.len() as u64, order));
    assert(artifact.subrange(31, artifact.len() as int) =~= payload);
}

/// An artifact captured for a target is found valid when examined for that
/// same target with the hashes it was stamped with.
pub proof fn lemma_capture_for_target_is_valid(
    target_endian: Seq<char>,
    ast_hash: u64,
    dep_hash: u64,
    payload: Seq<u8>,
)
    requires
        payload.len() <= u64::MAX,
    ensures
        examination(
            MatrixStatus::Valid,
            Some(capture_artifact(read_order(target_endian) is Big, ast_hash, dep_hash, payload)),
            read_order(target_endian),
            ast_hash,
            dep_hash,
        ),
{
    lemma_capture_then_examine(read_order(target_endian) is Big, ast_hash, dep_hash, payload);
}

} // verus!
