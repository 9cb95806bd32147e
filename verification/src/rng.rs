//! The one random draw the simulation makes: the vertical placement of a
//! new pipe pair's gap.

use vstd::prelude::*;
use crate::game::GAP_DRAW_RANGE;

verus! {

/// Draws a uniform value in `0 .. GAP_DRAW_RANGE`, the fixed-point
/// counterpart of a uniform draw from the unit interval.
///
/// Relies on `rand::Rng::gen_range` on `rand::thread_rng()`: for a
/// non-empty integer range it samples a value within that range. Nothing
/// more is assumed of the outcome.
#[verifier::external_body]
pub(crate) fn random_milli() -> (r: u64)
    ensures
        r < GAP_DRAW_RANGE,
{
    rand::Rng::gen_range(&mut rand::thread_rng(), 0..GAP_DRAW_RANGE)
}

} // verus!
