//! The few places where a number changes its width on the way to the engine.

use vstd::prelude::*;

verus! {

/// The low 32 bits of a number.
pub open spec fn low_u32(n: int) -> u32 {
    (n % 0x1_0000_0000) as u32
}

/// The size that the engine reports in two halves.
pub open spec fn joined(low: u32, high: u32) -> u64 {
    (high * 0x1_0000_0000 + low) as u64
}

/// Keeps the low 32 bits of a length.
pub fn low_u32_of_usize(n: usize) -> (r: u32)
    ensures
        r == low_u32(n as int),
        n <= u32::MAX ==> r == n,
{
    low_u32_of_u64(n as u64)
}

/// Keeps the low 32 bits of a size.
pub fn low_u32_of_u64(n: u64) -> (r: u32)
    ensures
        r == low_u32(n as int),
        n <= u32::MAX ==> r == n,
{
    let r: u32 = n as u32;
    assert(r == n % 0x1_0000_0000) by (bit_vector)
        requires
            r == n as u32,
    ;
    r
}

/// Joins the two halves of a size, the high half above the low.
pub fn join(low: u32, high: u32) -> (r: u64)
    ensures
        r == joined(low, high),
        r == high * 0x1_0000_0000 + low,
{
    let r: u64 = ((high as u64) << 32) | (low as u64);
    assert(r == high * 0x1_0000_0000 + low) by (bit_vector)
        requires
            r == ((high as u64) << 32) | (low as u64),
    ;
    r
}

/// A size is the join of its own halves.
pub proof fn lemma_join_of_halves(size: u64)
    ensures
        joined(low_u32(size as int), (size / 0x1_0000_0000) as u32) == size,
{
}

} // verus!
