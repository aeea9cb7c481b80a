//! Random draws. Every value that the library takes from chance comes from
//! one of these two functions, whose contracts state what holds of every
//! outcome. Draws from a normal distribution take floating point and are
//! handed in by the caller, as fixed-point integers.
use rand::Rng;
use vstd::prelude::*;

verus! {

/// Relies on `rand::Rng::random_range` over `lo..=hi` on the thread-local
/// generator: the value lies in the inclusive range (the range is not empty,
/// so the call does not panic).
#[verifier::external_body]
pub(crate) fn uniform_in(lo: u128, hi: u128) -> (r: u128)
    requires
        lo <= hi,
    ensures
        lo <= r <= hi,
{
    rand::rng().random_range(lo..=hi)
}

/// Relies on `rand::Rng::random_ratio`: a coin that comes up true with
/// probability `numerator / denominator`. It panics only when the denominator
/// is zero or below the numerator, which `requires` leaves out. Nothing is
/// promised of the outcome.
#[verifier::external_body]
pub(crate) fn coin(numerator: u32, denominator: u32) -> (r: bool)
    requires
        0 < denominator,
        numerator <= denominator,
{
    rand::rng().random_ratio(numerator, denominator)
}

} // verus!
