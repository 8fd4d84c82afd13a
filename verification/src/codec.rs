//! Little-endian fixed-width integer fields inside a byte buffer.
//!
//! The descriptor table stores its header fields and its descriptor slots at
//! fixed byte offsets of one contiguous buffer. These helpers read and write
//! such fields and are specified against the spec-level decodings below, so
//! the table's contracts can speak of the buffer's contents exactly.

use vstd::prelude::*;

verus! {

/// The 32-bit value stored little-endian in `b` at byte offset `off`.
pub open spec fn u32_le_at(b: Seq<u8>, off: int) -> u32
    recommends
        0 <= off,
        off + 4 <= b.len(),
{
    (b[off] as u32) | ((b[off + 1] as u32) << 8) | ((b[off + 2] as u32) << 16) | ((b[off + 3]
        as u32) << 24)
}

/// The 64-bit value stored little-endian in `b` at byte offset `off`.
pub open spec fn u64_le_at(b: Seq<u8>, off: int) -> u64
    recommends
        0 <= off,
        off + 8 <= b.len(),
{
    (b[off] as u64) | ((b[off + 1] as u64) << 8) | ((b[off + 2] as u64) << 16) | ((b[off + 3]
        as u64) << 24) | ((b[off + 4] as u64) << 32) | ((b[off + 5] as u64) << 40) | ((b[off + 6]
        as u64) << 48) | ((b[off + 7] as u64) << 56)
}

/// An all-zero field decodes to zero.
pub proof fn lemma_u32_le_at_zero(b: Seq<u8>, off: int)
    requires
        0 <= off,
        off + 4 <= b.len(),
        forall|j: int| off <= j < off + 4 ==> b[j] == 0,
    ensures
        u32_le_at(b, off) == 0,
{
    assert(b[off] == 0 && b[off + 1] == 0 && b[off + 2] == 0 && b[off + 3] == 0);
    assert((0u8 as u32) | ((0u8 as u32) << 8) | ((0u8 as u32) << 16) | ((0u8 as u32) << 24)
        == 0u32) by (bit_vector);
}

/// An all-zero field decodes to zero.
pub proof fn lemma_u64_le_at_zero(b: Seq<u8>, off: int)
    requires
        0 <= off,
        off + 8 <= b.len(),
        forall|j: int| off <= j < off + 8 ==> b[j] == 0,
    ensures
        u64_le_at(b, off) == 0,
{
    assert(b[off] == 0 && b[off + 1] == 0 && b[off + 2] == 0 && b[off + 3] == 0 && b[off + 4] == 0
        && b[off + 5] == 0 && b[off + 6] == 0 && b[off + 7] == 0);
    assert((0u8 as u64) | ((0u8 as u64) << 8) | ((0u8 as u64) << 16) | ((0u8 as u64) << 24) | ((0u8
        as u64) << 32) | ((0u8 as u64) << 40) | ((0u8 as u64) << 48) | ((0u8 as u64) << 56)
        == 0u64) by (bit_vector);
}

/// Reads the little-endian `u32` at byte offset `off` of `b`.
pub fn read_u32_le(b: &Vec<u8>, off: usize) -> (v: u32)
    requires
        off + 4 <= b.len(),
    ensures
        v == u32_le_at(b@, off as int),
{
    (b[off] as u32) | ((b[off + 1] as u32) << 8) | ((b[off + 2] as u32) << 16) | ((b[off + 3]
        as u32) << 24)
}

/// Reads the little-endian `u64` at byte offset `off` of `b`.
pub fn read_u64_le(b: &Vec<u8>, off: usize) -> (v: u64)
    requires
        off + 8 <= b.len(),
    ensures
        v == u64_le_at(b@, off as int),
{
    (b[off] as u64) | ((b[off + 1] as u64) << 8) | ((b[off + 2] as u64) << 16) | ((b[off + 3]
        as u64) << 24) | ((b[off + 4] as u64) << 32) | ((b[off + 5] as u64) << 40) | ((b[off + 6]
        as u64) << 48) | ((b[off + 7] as u64) << 56)
}

/// Overwrites the 4 bytes at offset `off` of `b` with `v`, little-endian.
/// Every byte outside that window keeps its value.
pub fn write_u32_le(b: &mut Vec<u8>, off: usize, v: u32)
    requires
        off + 4 <= old(b).len(),
    ensures
        final(b).len() == old(b).len(),
        u32_le_at(final(b)@, off as int) == v,
        forall|j: int|
            0 <= j < old(b).len() && !(off <= j < off + 4) ==> final(b)@[j] == old(b)@[j],
{
    proof {
        assert((v & 0xff) < 256 && ((v >> 8) & 0xff) < 256 && ((v >> 16) & 0xff) < 256 && ((v
            >> 24) & 0xff) < 256) by (bit_vector);
        assert(v == (v & 0xff) | (((v >> 8) & 0xff) << 8) | (((v >> 16) & 0xff) << 16) | (((v
            >> 24) & 0xff) << 24)) by (bit_vector);
    }
    b[off] = (v & 0xff) as u8;
    b[off + 1] = ((v >> 8) & 0xff) as u8;
    b[off + 2] = ((v >> 16) & 0xff) as u8;
    b[off + 3] = ((v >> 24) & 0xff) as u8;
}

/// Overwrites the 8 bytes at offset `off` of `b` with `v`, little-endian.
/// Every byte outside that window keeps its value.
pub fn write_u64_le(b: &mut Vec<u8>, off: usize, v: u64)
    requires
        off + 8 <= old(b).len(),
    ensures
        final(b).len() == old(b).len(),
        u64_le_at(final(b)@, off as int) == v,
        forall|j: int|
            0 <= j < old(b).len() && !(off <= j < off + 8) ==> final(b)@[j] == old(b)@[j],
{
    proof {
        assert((v & 0xff) < 256 && ((v >> 8) & 0xff) < 256 && ((v >> 16) & 0xff) < 256 && ((v
            >> 24) & 0xff) < 256 && ((v >> 32) & 0xff) < 256 && ((v >> 40) & 0xff) < 256 && ((v
            >> 48) & 0xff) < 256 && ((v >> 56) & 0xff) < 256) by (bit_vector);
        assert(v == (v & 0xff) | (((v >> 8) & 0xff) << 8) | (((v >> 16) & 0xff) << 16) | (((v
            >> 24) & 0xff) << 24) | (((v >> 32) & 0xff) << 32) | (((v >> 40) & 0xff) << 40) | (((v
            >> 48) & 0xff) << 48) | (((v >> 56) & 0xff) << 56)) by (bit_vector);
    }
    b[off] = (v & 0xff) as u8;
    b[off + 1] = ((v >> 8) & 0xff) as u8;
    b[off + 2] = ((v >> 16) & 0xff) as u8;
    b[off + 3] = ((v >> 24) & 0xff) as u8;
    b[off + 4] = ((v >> 32) & 0xff) as u8;
    b[off + 5] = ((v >> 40) & 0xff) as u8;
    b[off + 6] = ((v >> 48) & 0xff) as u8;
    b[off + 7] = ((v >> 56) & 0xff) as u8;
}

} // verus!
