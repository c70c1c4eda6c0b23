//! Little-endian field access on byte buffers.
//!
//! Every multi-byte field of the FUSE wire format is read and written in
//! little-endian order through the helpers in this module.

use vstd::bytes::*;
use vstd::prelude::*;
use vstd::slice::slice_subrange;

verus! {

broadcast use vstd::seq_lib::group_seq_properties;

/// The `u32` stored little-endian at byte offset `off` of `s`.
pub open spec fn le32(s: Seq<u8>, off: int) -> u32 {
    spec_u32_from_le_bytes(s.subrange(off, off + 4))
}

/// The `u64` stored little-endian at byte offset `off` of `s`.
pub open spec fn le64(s: Seq<u8>, off: int) -> u64 {
    spec_u64_from_le_bytes(s.subrange(off, off + 8))
}

/// The little-endian encoding of a `u32`.
pub open spec fn enc32(v: u32) -> Seq<u8> {
    spec_u32_to_le_bytes(v)
}

/// The little-endian encoding of a `u64`.
pub open spec fn enc64(v: u64) -> Seq<u8> {
    spec_u64_to_le_bytes(v)
}

/// Reads the `u32` at byte offset `off`.
pub fn read_u32(s: &[u8], off: usize) -> (r: u32)
    requires
        off + 4 <= s.len(),
    ensures
        r == le32(s@, off as int),
{
    u32_from_le_bytes(slice_subrange(s, off, off + 4))
}

/// Reads the `u64` at byte offset `off`.
pub fn read_u64(s: &[u8], off: usize) -> (r: u64)
    requires
        off + 8 <= s.len(),
    ensures
        r == le64(s@, off as int),
{
    u64_from_le_bytes(slice_subrange(s, off, off + 8))
}

/// Appends the little-endian encoding of `v` to `out`.
pub fn push_u32(out: &mut Vec<u8>, v: u32)
    ensures
        final(out)@ == old(out)@ + enc32(v),
{
    proof {
        lemma_auto_spec_u32_to_from_le_bytes();
    }
    let mut b = u32_to_le_bytes(v);
    out.append(&mut b);
}

/// Appends the little-endian encoding of `v` to `out`.
pub fn push_u64(out: &mut Vec<u8>, v: u64)
    ensures
        final(out)@ == old(out)@ + enc64(v),
{
    proof {
        lemma_auto_spec_u64_to_from_le_bytes();
    }
    let mut b = u64_to_le_bytes(v);
    out.append(&mut b);
}

/// Appends a copy of `src` to `out`.
pub fn push_bytes(out: &mut Vec<u8>, src: &[u8])
    ensures
        final(out)@ == old(out)@ + src@,
{
    let ghost start = out@;
    let mut i: usize = 0;
    while i < src.len()
        invariant
            i <= src@.len(),
            out@ == start + src@.subrange(0, i as int),
        decreases src@.len() - i,
    {
        out.push(src[i]);
        i = i + 1;
        assert(src@.subrange(0, i as int) == src@.subrange(0, i - 1 as int).push(src@[i - 1]));
    }
    assert(src@.subrange(0, i as int) == src@);
}

/// Appends `n` zero bytes to `out`.
pub fn push_zeros(out: &mut Vec<u8>, n: usize)
    ensures
        final(out)@ == old(out)@ + Seq::new(n as nat, |_i: int| 0u8),
{
    let ghost start = out@;
    let mut i: usize = 0;
    while i < n
        invariant
            i <= n,
            out@ == start + Seq::new(i as nat, |_j: int| 0u8),
        decreases n - i,
    {
        out.push(0u8);
        i = i + 1;
        assert(Seq::new(i as nat, |_j: int| 0u8) == Seq::new((i - 1) as nat, |_j: int| 0u8).push(0u8));
    }
}

/// The encoding of a `u32` has four bytes, and reading it back gives the value.
pub proof fn lemma_u32_roundtrip(v: u32)
    ensures
        enc32(v).len() == 4,
        spec_u32_from_le_bytes(enc32(v)) == v,
{
    lemma_auto_spec_u32_to_from_le_bytes();
    assert(spec_u32_to_le_bytes(v).len() == 4);
}

/// The encoding of a `u64` has eight bytes, and reading it back gives the value.
pub proof fn lemma_u64_roundtrip(v: u64)
    ensures
        enc64(v).len() == 8,
        spec_u64_from_le_bytes(enc64(v)) == v,
{
    lemma_auto_spec_u64_to_from_le_bytes();
    assert(spec_u64_to_le_bytes(v).len() == 8);
}

} // verus!
