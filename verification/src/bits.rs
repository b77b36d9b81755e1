//! Facts about sets of flags kept in the bits of an integer.

use vstd::prelude::*;

verus! {

/// Union, intersection and difference stay within `all`; truncation lands
/// within it and leaves what was within it unchanged.
pub proof fn lemma_flags_i64(a: i64, b: i64, all: i64)
    by (bit_vector)
    ensures
        (a & all) & !all == 0,
        a & !all == 0 ==> a & all == a,
        a & !all == 0 && b & !all == 0 ==> (a | b) & !all == 0,
        a & !all == 0 ==> (a & b) & !all == 0,
        a & !all == 0 ==> (a & !b) & !all == 0,
        0i64 & !all == 0,
        all & !all == 0,
{
}

/// As `lemma_flags_i64`, for 64 unsigned bits.
pub proof fn lemma_flags_u64(a: u64, b: u64, all: u64)
    by (bit_vector)
    ensures
        (a & all) & !all == 0,
        a & !all == 0 ==> a & all == a,
        a & !all == 0 && b & !all == 0 ==> (a | b) & !all == 0,
        a & !all == 0 ==> (a & b) & !all == 0,
        a & !all == 0 ==> (a & !b) & !all == 0,
        0u64 & !all == 0,
        all & !all == 0,
{
}

/// As `lemma_flags_i64`, for 32 unsigned bits.
pub proof fn lemma_flags_u32(a: u32, b: u32, all: u32)
    by (bit_vector)
    ensures
        (a & all) & !all == 0,
        a & !all == 0 ==> a & all == a,
        a & !all == 0 && b & !all == 0 ==> (a | b) & !all == 0,
        a & !all == 0 ==> (a & b) & !all == 0,
        a & !all == 0 ==> (a & !b) & !all == 0,
        0u32 & !all == 0,
        all & !all == 0,
{
}

/// A union contains both of its parts, and a difference nothing of what
/// was taken away.
pub proof fn lemma_flag_sets_i64(a: i64, b: i64)
    by (bit_vector)
    ensures
        (a | b) & a == a,
        (a | b) & b == b,
        (a & !b) & b == 0,
{
}

} // verus!
