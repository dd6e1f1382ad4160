//! Trusted boundary to the `rand` crate: the seedable generator type and a
//! single bounded-sampling wrapper. Everything the rest of the crate knows
//! about randomness is that a sample lies below its bound.

use vstd::prelude::*;

verus! {

/// Declares `rand::rngs::StdRng` so that it can appear in signatures; values
/// of it are opaque to the verifier.
#[verifier::external_type_specification]
#[verifier::external_body]
pub struct ExStdRng(rand::rngs::StdRng);

/// Relies on `rand::RngExt::random_range` over `0..n`: it returns a value of
/// the (non-empty) range, so the result is strictly below `n`. Nothing more is
/// assumed: which value comes back is chance, so callers must hold for every
/// outcome below the bound.
#[verifier::external_body]
pub(crate) fn rand_below(rng: &mut rand::rngs::StdRng, n: usize) -> (r: usize)
    requires
        1 <= n,
    ensures
        r < n,
{
    rand::RngExt::random_range(rng, 0..n)
}

} // verus!
