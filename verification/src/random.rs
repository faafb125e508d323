//! The source of chance: the thread's random number generator of the
//! `rand` crate.

use vstd::prelude::*;
use rand::rngs::ThreadRng;
use rand::Rng;

verus! {

/// `rand::rngs::ThreadRng`, the handle to the generator of the current
/// thread. Nothing of what it holds is visible here.
#[verifier::external_type_specification]
#[verifier::external_body]
pub struct ExThreadRng(rand::rngs::ThreadRng);

/// `rand::rng` hands out the generator of the current thread. Nothing is
/// claimed of it.
pub assume_specification[ rand::rng ]() -> (generator: ThreadRng)
;

/// `Rng::random_range` on the half-open range from `low` to `high`. The
/// call samples a value of the range and panics when the range is empty, so
/// the range must hold something, and all that is claimed is that the value
/// lies in it.
#[verifier::external_body]
pub(crate) fn random_range(generator: &mut ThreadRng, low: i64, high: i64) -> (value: i64)
    requires
        low < high,
    ensures
        low <= value < high,
{
    generator.random_range(low..high)
}

/// `Rng::random_ratio`: true with a chance of `numerator` in `denominator`.
/// The call panics on a zero denominator and on a ratio above one. Nothing
/// is claimed of the outcome.
#[verifier::external_body]
pub(crate) fn random_ratio(generator: &mut ThreadRng, numerator: u32, denominator: u32) -> (hit:
    bool)
    requires
        0 < denominator,
        numerator <= denominator,
{
    generator.random_ratio(numerator, denominator)
}

} // verus!
