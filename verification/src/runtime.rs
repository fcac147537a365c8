//! Access to a forged artifact's payload, and the routing hook that finds a
//! pattern's artifact.
use vstd::prelude::*;
use vstd::slice::slice_subrange;
use crate::metadata::{header_bytes, lemma_header_fields, PatternMetadata, MATRIX_HEADER_SIZE};
use crate::mold_runtime::Endianness;

verus! {

/// The payload of a forged artifact: everything after its pattern header.
pub fn forged_payload(bytes: &[u8]) -> (payload: &[u8])
    requires
        bytes@.len() >= MATRIX_HEADER_SIZE,
    ensures
        payload@ == bytes@.subrange(MATRIX_HEADER_SIZE as int, bytes@.len() as int),
{
    slice_subrange(bytes, MATRIX_HEADER_SIZE, bytes.len())
}

/// What follows a pattern header is what `forged_payload` hands out: the
/// payload that a capture wrote after the header comes back unchanged.
pub proof fn lemma_forged_payload_after_header(meta: PatternMetadata, order: Endianness, payload: Seq<u8>)
    ensures
        ({
            let artifact = header_bytes(meta, order) + payload;
            &&& artifact.len() >= MATRIX_HEADER_SIZE
            &&& artifact.subrange(MATRIX_HEADER_SIZE as int, artifact.len() as int) == payload
        }),
{
    lemma_header_fields(meta, order);
    let artifact = header_bytes(meta, order) + payload;
    assert(artifact.subrange(MATRIX_HEADER_SIZE as int, artifact.len() as int) =~= payload);
}

/// Hook through which a pattern's artifact is looked up by the address of
/// its function; by default nothing is found.
pub trait FoundryFallbackRouter {
    fn __foundry_get_matrix(&self, _target_ptr: usize) -> (matrix: Option<&'static [u8]>)
        default_ensures
            matrix is None,
    {
        None
    }
}

/// The router used when no artifact has been forged.
pub struct DefaultRouter;

impl FoundryFallbackRouter for DefaultRouter {
    fn __foundry_get_matrix(&self, _target_ptr: usize) -> (matrix: Option<&'static [u8]>)
        ensures
            matrix is None,
    {
        None
    }
}

} // verus!
