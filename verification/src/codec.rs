//! Little-endian fields inside byte strings.
use vstd::prelude::*;
use vstd::bytes::{
    spec_u16_from_le_bytes, spec_u16_to_le_bytes, spec_u64_from_le_bytes, spec_u64_to_le_bytes,
    u16_from_le_bytes, u16_to_le_bytes, u64_from_le_bytes, u64_to_le_bytes,
    lemma_auto_spec_u16_to_from_le_bytes, lemma_auto_spec_u64_to_from_le_bytes,
};
use vstd::slice::slice_subrange;

verus! {

/// The 64-bit number whose little-endian bytes start at `at`.
pub open spec fn spec_read_u64(data: Seq<u8>, at: int) -> u64 {
    spec_u64_from_le_bytes(data.subrange(at, at + 8))
}

/// The 16-bit number whose little-endian bytes start at `at`.
pub open spec fn spec_read_u16(data: Seq<u8>, at: int) -> u16 {
    spec_u16_from_le_bytes(data.subrange(at, at + 2))
}

/// Reads the 64-bit number whose little-endian bytes start at `at`.
pub fn read_u64(data: &[u8], at: usize) -> (v: u64)
    requires
        at + 8 <= data.len(),
    ensures
        v == spec_read_u64(data@, at as int),
{
    u64_from_le_bytes(slice_subrange(data, at, at + 8))
}

/// Reads the 16-bit number whose little-endian bytes start at `at`.
pub fn read_u16(data: &[u8], at: usize) -> (v: u16)
    requires
        at + 2 <= data.len(),
    ensures
        v == spec_read_u16(data@, at as int),
{
    u16_from_le_bytes(slice_subrange(data, at, at + 2))
}

/// Appends the eight little-endian bytes of `v`.
pub fn write_u64(out: &mut Vec<u8>, v: u64)
    ensures
        final(out)@ == old(out)@ + spec_u64_to_le_bytes(v),
        spec_u64_to_le_bytes(v).len() == 8,
{
    let mut bytes = u64_to_le_bytes(v);
    out.append(&mut bytes);
}

/// Appends the two little-endian bytes of `v`.
pub fn write_u16(out: &mut Vec<u8>, v: u16)
    ensures
        final(out)@ == old(out)@ + spec_u16_to_le_bytes(v),
        spec_u16_to_le_bytes(v).len() == 2,
{
    let mut bytes = u16_to_le_bytes(v);
    out.append(&mut bytes);
}

/// A 64-bit number is read back from where its bytes were written.
pub proof fn read_back_u64(before: Seq<u8>, v: u64, after: Seq<u8>)
    ensures
        spec_u64_to_le_bytes(v).len() == 8,
        spec_read_u64(before + spec_u64_to_le_bytes(v) + after, before.len() as int) == v,
{
    lemma_auto_spec_u64_to_from_le_bytes();
    let all = before + spec_u64_to_le_bytes(v) + after;
    assert(all.subrange(before.len() as int, before.len() as int + 8) =~= spec_u64_to_le_bytes(v));
}

/// A 16-bit number is read back from where its bytes were written.
pub proof fn read_back_u16(before: Seq<u8>, v: u16, after: Seq<u8>)
    ensures
        spec_u16_to_le_bytes(v).len() == 2,
        spec_read_u16(before + spec_u16_to_le_bytes(v) + after, before.len() as int) == v,
{
    lemma_auto_spec_u16_to_from_le_bytes();
    let all = before + spec_u16_to_le_bytes(v) + after;
    assert(all.subrange(before.len() as int, before.len() as int + 2) =~= spec_u16_to_le_bytes(v));
}

/// Writing what was read gives the bytes that were read.
pub proof fn write_back_u64(data: Seq<u8>, at: int)
    requires
        0 <= at,
        at + 8 <= data.len(),
    ensures
        spec_u64_to_le_bytes(spec_read_u64(data, at)) == data.subrange(at, at + 8),
{
    lemma_auto_spec_u64_to_from_le_bytes();
}

/// Writing what was read gives the bytes that were read.
pub proof fn write_back_u16(data: Seq<u8>, at: int)
    requires
        0 <= at,
        at + 2 <= data.len(),
    ensures
        spec_u16_to_le_bytes(spec_read_u16(data, at)) == data.subrange(at, at + 2),
{
    lemma_auto_spec_u16_to_from_le_bytes();
}

} // verus!
