//! The source of randomness: a seedable generator of the `rand` crate.
use rand::Rng;
use rand::rngs::StdRng;
use vstd::prelude::*;

verus! {

#[verifier::external_type_specification]
#[verifier::external_body]
pub struct ExStdRng(StdRng);

/// Relies on rand's `Rng::gen_range` over `0..n`: a value of the half-open
/// range, which must not be empty.
#[verifier::external_body]
pub(crate) fn rand_below(rng: &mut StdRng, n: usize) -> (r: usize)
    requires
        n > 0,
    ensures
        r < n,
{
    rng.gen_range(0..n)
}

/// Relies on rand's `Rng::gen_ratio`: `true` with probability
/// `numerator / denominator`; always `false` for a zero numerator and always
/// `true` when numerator and denominator are equal.
#[verifier::external_body]
pub(crate) fn rand_ratio(rng: &mut StdRng, numerator: u32, denominator: u32) -> (r: bool)
    requires
        0 < denominator,
        numerator <= denominator,
    ensures
        numerator == 0 ==> !r,
        numerator == denominator ==> r,
{
    rng.gen_ratio(numerator, denominator)
}

} // verus!
