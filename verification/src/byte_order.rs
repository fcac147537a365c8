//! Fixed-width integers read from and written to byte buffers in an explicit
//! byte order.
use vstd::prelude::*;
use vstd::bytes::{
    spec_u16_from_le_bytes, spec_u16_to_le_bytes, spec_u64_from_le_bytes, spec_u64_to_le_bytes,
    u16_from_le_bytes, u16_to_le_bytes, u64_from_le_bytes, u64_to_le_bytes,
};
use vstd::slice::slice_subrange;
use crate::mold_runtime::Endianness;

verus! {

/// The two bytes of `value` in the given order.
pub open spec fn u16_bytes(value: u16, order: Endianness) -> Seq<u8> {
    match order {
        Endianness::Little => spec_u16_to_le_bytes(value),
        Endianness::Big => spec_u16_to_le_bytes(value).reverse(),
    }
}

/// The eight bytes of `value` in the given order.
pub open spec fn u64_bytes(value: u64, order: Endianness) -> Seq<u8> {
    match order {
        Endianness::Little => spec_u64_to_le_bytes(value),
        Endianness::Big => spec_u64_to_le_bytes(value).reverse(),
    }
}

/// The `u16` that two bytes encode in the given order.
pub open spec fn u16_value(bytes: Seq<u8>, order: Endianness) -> u16 {
    match order {
        Endianness::Little => spec_u16_from_le_bytes(bytes),
        Endianness::Big => spec_u16_from_le_bytes(bytes.reverse()),
    }
}

/// The `u64` that eight bytes encode in the given order.
pub open spec fn u64_value(bytes: Seq<u8>, order: Endianness) -> u64 {
    match order {
        Endianness::Little => spec_u64_from_le_bytes(bytes),
        Endianness::Big => spec_u64_from_le_bytes(bytes.reverse()),
    }
}

/// Reading back what was written gives the written value, in either order.
pub proof fn lemma_u16_roundtrip(value: u16, order: Endianness)
    ensures
        u16_bytes(value, order).len() == 2,
        u16_value(u16_bytes(value, order), order) == value,
{
    vstd::bytes::lemma_auto_spec_u16_to_from_le_bytes();
    let le = spec_u16_to_le_bytes(value);
    assert(le.reverse().reverse() =~= le);
}

/// Reading back what was written gives the written value, in either order.
pub proof fn lemma_u64_roundtrip(value: u64, order: Endianness)
    ensures
        u64_bytes(value, order).len() == 8,
        u64_value(u64_bytes(value, order), order) == value,
{
    vstd::bytes::lemma_auto_spec_u64_to_from_le_bytes();
    let le = spec_u64_to_le_bytes(value);
    assert(le.len() == 8);
    assert(le.reverse().reverse() =~= le);
}

fn reversed(bytes: &[u8]) -> (out: Vec<u8>)
    ensures
        out@ == bytes@.reverse(),
{
    let mut out: Vec<u8> = Vec::new();
    let mut i: usize = bytes.len();
    while i > 0
        invariant
            i <= bytes@.len(),
            out@ == bytes@.subrange(i as int, bytes@.len() as int).reverse(),
        decreases i,
    {
        i = i - 1;
        out.push(bytes[i]);
        assert(bytes@.subrange(i as int, bytes@.len() as int).reverse() =~= bytes@.subrange(
            (i + 1) as int,
            bytes@.len() as int,
        ).reverse().push(bytes@[i as int]));
    }
    assert(bytes@.subrange(0, bytes@.len() as int) =~= bytes@);
    out
}

/// The `u16` stored at `offset` in the given order.
pub fn read_u16(bytes: &[u8], offset: usize, order: Endianness) -> (value: u16)
    requires
        offset + 2 <= bytes.len(),
    ensures
        value == u16_value(bytes@.subrange(offset as int, offset + 2), order),
{
    let raw = slice_subrange(bytes, offset, offset + 2);
    match order {
        Endianness::Little => u16_from_le_bytes(raw),
        Endianness::Big => {
            let flipped = reversed(raw);
            u16_from_le_bytes(flipped.as_slice())
        },
    }
}

/// The `u64` stored at `offset` in the given order.
pub fn read_u64(bytes: &[u8], offset: usize, order: Endianness) -> (value: u64)
    requires
        offset + 8 <= bytes.len(),
    ensures
        value == u64_value(bytes@.subrange(offset as int, offset + 8), order),
{
    let raw = slice_subrange(bytes, offset, offset + 8);
    match order {
        Endianness::Little => u64_from_le_bytes(raw),
        Endianness::Big => {
            let flipped = reversed(raw);
            u64_from_le_bytes(flipped.as_slice())
        },
    }
}

/// Appends the two bytes of `value` in the given order.
pub fn push_u16(out: &mut Vec<u8>, value: u16, order: Endianness)
    ensures
        final(out)@ == old(out)@ + u16_bytes(value, order),
{
    let le = u16_to_le_bytes(value);
    let mut encoded = match order {
        Endianness::Little => le,
        Endianness::Big => reversed(le.as_slice()),
    };
    out.append(&mut encoded);
}

/// Appends the eight bytes of `value` in the given order.
pub fn push_u64(out: &mut Vec<u8>, value: u64, order: Endianness)
    ensures
        final(out)@ == old(out)@ + u64_bytes(value, order),
{
    let le = u64_to_le_bytes(value);
    let mut encoded = match order {
        Endianness::Little => le,
        Endianness::Big => reversed(le.as_slice()),
    };
    out.append(&mut encoded);
}

/// Appends all of `bytes`.
pub fn push_all(out: &mut Vec<u8>, bytes: &[u8])
    ensures
        final(out)@ == old(out)@ + bytes@,
{
    let mut i: usize = 0;
    while i < bytes.len()
        invariant
            i <= bytes@.len(),
            out@ == old(out)@ + bytes@.subrange(0, i as int),
        decreases bytes@.len() - i,
    {
        out.push(bytes[i]);
        i = i + 1;
        assert(bytes@.subrange(0, i as int) =~= bytes@.subrange(0, i - 1).push(bytes@[i - 1]));
    }
    assert(bytes@.subrange(0, bytes@.len() as int) =~= bytes@);
}

} // verus!
