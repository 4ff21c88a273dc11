//! Random draws, through the thread-local generator of `rand`, which gives
//! up where the system cannot seed it.

use rand::Rng;
use vstd::prelude::*;

verus! {

/// Draws a number with `rand::Rng::gen_range` on the half-open range from
/// `low` to `high`. The draw lies in the range; an empty range, on which
/// `gen_range` panics, is left out.
#[verifier::external_body]
pub(crate) fn random_in(low: u64, high: u64) -> (n: u64)
    requires
        low < high,
    ensures
        low <= n < high,
{
    rand::thread_rng().gen_range(low..high)
}

/// Draws a truth value with `rand::Rng::gen_ratio`, true with the chance
/// `numerator` in `denominator`. The outcome is certain only at the two ends;
/// a zero denominator and a numerator above it, on which `gen_ratio` panics,
/// are left out.
#[verifier::external_body]
pub(crate) fn random_chance(numerator: u32, denominator: u32) -> (hit: bool)
    requires
        0 < denominator,
        numerator <= denominator,
    ensures
        numerator == denominator ==> hit,
        numerator == 0 ==> !hit,
{
    rand::thread_rng().gen_ratio(numerator, denominator)
}

} // verus!
