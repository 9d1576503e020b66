//! Mask algebra shared by every register model.

use vstd::prelude::*;

verus! {

/// Keep only the bits of `raw` that lie inside `mask`.
pub fn mask_select(raw: u64, mask: u64) -> (r: u64)
    ensures
        r == (raw & mask),
{
    raw & mask
}

/// Pack an address payload and a flag payload into one raw register value.
pub fn combine(address_bits: u64, flag_bits: u64) -> (r: u64)
    ensures
        r == (address_bits | flag_bits),
{
    address_bits | flag_bits
}

/// Selecting by a mask lands inside the mask, and a second selection changes
/// nothing.
pub proof fn lemma_mask_select_in_mask(x: u64, m: u64)
    ensures
        ((x & m) & !m) == 0,
        ((x & m) & m) == (x & m),
{
    assert(((x & m) & !m) == 0 && ((x & m) & m) == (x & m)) by (bit_vector);
}

/// A value with no bit outside the mask is unchanged by selecting with it.
pub proof fn lemma_mask_select_identity(x: u64, m: u64)
    requires
        (x & !m) == 0,
    ensures
        (x & m) == x,
{
    assert((x & m) == x) by (bit_vector)
        requires
            (x & !m) == 0,
    ;
}

/// The empty pattern and the mask itself both lie inside the mask.
pub proof fn lemma_mask_extremes(m: u64)
    ensures
        (0u64 & !m) == 0,
        (m & !m) == 0,
{
    assert((0u64 & !m) == 0 && (m & !m) == 0) by (bit_vector);
}

} // verus!
