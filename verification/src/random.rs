//! Trusted access to the process-wide random number generator.
//!
//! Nothing can be promised about which value comes back from a draw, so
//! every contract here states only what holds of every outcome.

use vstd::prelude::*;

verus! {

/// Relies on rand::random_range: sampling an inclusive, non-empty range
/// returns a value within the range.
#[verifier::external_body]
pub(crate) fn random_in_range_u8(lo: u8, hi: u8) -> (r: u8)
    requires
        lo <= hi,
    ensures
        lo <= r <= hi,
{
    rand::random_range(lo..=hi)
}

/// Relies on rand::random_range: sampling an inclusive, non-empty range
/// returns a value within the range.
#[verifier::external_body]
pub(crate) fn random_in_range_u16(lo: u16, hi: u16) -> (r: u16)
    requires
        lo <= hi,
    ensures
        lo <= r <= hi,
{
    rand::random_range(lo..=hi)
}

/// Relies on rand::random_range: sampling below a positive bound
/// returns a value smaller than the bound.
#[verifier::external_body]
pub(crate) fn random_below(n: usize) -> (r: usize)
    requires
        n > 0,
    ensures
        r < n,
{
    rand::random_range(0..n)
}

/// Relies on rand::seq::SliceRandom::shuffle: the shuffled vector holds
/// exactly the elements of the original, in some order.
#[verifier::external_body]
pub fn shuffle<T>(vec: Vec<T>) -> (r: Vec<T>)
    ensures
        r@.to_multiset() == vec@.to_multiset(),
        r@.len() == vec@.len(),
{
    let mut vec = vec;
    rand::seq::SliceRandom::shuffle(vec.as_mut_slice(), &mut rand::rng());
    vec
}

} // verus!
