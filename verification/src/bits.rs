//! Bit-level lemmas shared by the device bitmask types.
//!
//! Every bitmask type keeps the invariant that no bit outside its valid mask
//! `m` is set, written `bits & !m == 0`.  These lemmas show that each flag
//! operation preserves that invariant.

use vstd::prelude::*;

verus! {

/// The empty bit pattern is within every valid mask.
pub proof fn lemma_u64_empty_in_mask(m: u64)
    by (bit_vector)
    ensures
        0u64 & !m == 0,
{
}

/// The mask itself is within the mask.
pub proof fn lemma_u64_mask_in_mask(m: u64)
    by (bit_vector)
    ensures
        m & !m == 0,
{
}

/// Truncating an arbitrary pattern to the mask lands within the mask.
pub proof fn lemma_u64_truncate_in_mask(b: u64, m: u64)
    by (bit_vector)
    ensures
        (b & m) & !m == 0,
{
}

/// A union of two patterns within the mask stays within the mask.
pub proof fn lemma_u64_or_in_mask(a: u64, b: u64, m: u64)
    by (bit_vector)
    requires
        a & !m == 0,
        b & !m == 0,
    ensures
        (a | b) & !m == 0,
{
}

/// An intersection with any pattern stays within the mask.
pub proof fn lemma_u64_and_in_mask(a: u64, b: u64, m: u64)
    by (bit_vector)
    requires
        a & !m == 0,
    ensures
        (a & b) & !m == 0,
{
}

/// Clearing any bits of a pattern within the mask stays within the mask.
pub proof fn lemma_u64_diff_in_mask(a: u64, b: u64, m: u64)
    by (bit_vector)
    requires
        a & !m == 0,
    ensures
        (a & !b) & !m == 0,
{
}

/// A symmetric difference of two patterns within the mask stays within the
/// mask.
pub proof fn lemma_u64_xor_in_mask(a: u64, b: u64, m: u64)
    by (bit_vector)
    requires
        a & !m == 0,
        b & !m == 0,
    ensures
        (a ^ b) & !m == 0,
{
}

} // verus!
