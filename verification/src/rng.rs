//! Trusted boundary to the `rand` crate: the seeded pseudo-random source the
//! spawner draws from. Nothing is promised of which value a draw yields, only
//! the range it falls in.

use vstd::prelude::*;
use rand::Rng;

verus! {

#[verifier::external_type_specification]
#[verifier::external_body]
pub struct ExStdRng(rand::rngs::StdRng);

/// Relies on rand's `Rng::gen_ratio`: returns true with probability
/// `numerator / denominator`; a single draw promises nothing. It panics on a
/// zero denominator or a numerator above it, which the precondition rules out.
#[verifier::external_body]
pub(crate) fn gen_ratio(rng: &mut rand::rngs::StdRng, numerator: u32, denominator: u32) -> bool
    requires
        1 <= denominator,
        numerator <= denominator,
{
    rng.gen_ratio(numerator, denominator)
}

/// Relies on rand's `Rng::gen_range` on an `i64` range: returns a value in
/// `[lo, hi)`. It panics on an empty range, which the precondition rules out.
#[verifier::external_body]
pub(crate) fn gen_range_i64(rng: &mut rand::rngs::StdRng, lo: i64, hi: i64) -> (r: i64)
    requires
        lo < hi,
    ensures
        lo <= r < hi,
{
    rng.gen_range(lo..hi)
}

} // verus!
