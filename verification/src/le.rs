//! Little-endian assembly of multi-byte integers from their pieces.
//!
//! Every multi-byte field of an SRAT record is stored least-significant byte
//! first. These functions are the single place where bytes are combined into
//! wider integers, so the byte order is fixed here once.

use vstd::prelude::*;

verus! {

/// The 32-bit value whose little-endian bytes are `b0, b1, b2, b3`
/// (`b0` least significant).
pub open spec fn le32(b0: u8, b1: u8, b2: u8, b3: u8) -> u32 {
    (b0 as u32) | ((b1 as u32) << 8) | ((b2 as u32) << 16) | ((b3 as u32) << 24)
}

/// The 64-bit value with `low` in its lower 32 bits and `high` in its
/// upper 32 bits.
pub open spec fn le64(low: u32, high: u32) -> u64 {
    (low as u64) | ((high as u64) << 32)
}

/// Assemble a `u32` from four bytes, least significant first.
pub fn read_le32(b0: u8, b1: u8, b2: u8, b3: u8) -> (r: u32)
    ensures
        r == le32(b0, b1, b2, b3),
{
    (b0 as u32) | ((b1 as u32) << 8) | ((b2 as u32) << 16) | ((b3 as u32) << 24)
}

/// Assemble a `u64` from its two 32-bit halves.
pub fn join64(low: u32, high: u32) -> (r: u64)
    ensures
        r == le64(low, high),
{
    (low as u64) | ((high as u64) << 32)
}

/// `le32` inverts the byte decomposition of a 32-bit value.
pub proof fn lemma_le32_of_bytes(x: u32)
    ensures
        le32((x & 0xff) as u8, ((x >> 8) & 0xff) as u8, ((x >> 16) & 0xff) as u8, (
        (x >> 24) & 0xff) as u8) == x,
{
    assert((((x & 0xff) as u8) as u32) | ((((x >> 8) & 0xff) as u8) as u32) << 8 | ((((x >> 16)
        & 0xff) as u8) as u32) << 16 | ((((x >> 24) & 0xff) as u8) as u32) << 24 == x)
        by (bit_vector);
}

/// `le64` inverts the split of a 64-bit value into its 32-bit halves.
pub proof fn lemma_le64_of_halves(x: u64)
    ensures
        le64((x & 0xffff_ffff) as u32, (x >> 32) as u32) == x,
{
    assert((((x & 0xffff_ffff) as u32) as u64) | (((x >> 32) as u32) as u64) << 32 == x)
        by (bit_vector);
}

} // verus!
