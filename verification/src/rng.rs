//! Trusted boundary to bracket_lib's random number generator, the one source
//! of randomness in the game: it picks each obstacle's gap center.

use vstd::prelude::*;

verus! {

#[verifier::external_type_specification]
#[verifier::external_body]
pub struct ExRandomNumberGenerator(bracket_lib::random::RandomNumberGenerator);

/// Relies on bracket_lib's `RandomNumberGenerator::range`, which draws a value
/// inclusive of `min` and exclusive of `max` (and panics on an empty range,
/// which the precondition rules out). Nothing more is assumed of the draw.
#[verifier::external_body]
pub(crate) fn random_range(
    rng: &mut bracket_lib::random::RandomNumberGenerator,
    min: i32,
    max: i32,
) -> (r: i32)
    requires
        min < max,
    ensures
        min <= r < max,
{
    rng.range(min, max)
}

} // verus!
