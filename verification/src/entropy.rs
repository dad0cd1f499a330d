//! Randomized placement: the one point where the compositor draws entropy.

use vstd::prelude::*;

use rand::Rng;

use crate::geometry::{Point, Size};

verus! {

/// Relies on rand's thread-local generator and `Rng::gen_range`, which
/// returns a value uniformly drawn from the given range and panics only on
/// an empty range. Nothing more is assumed than that the result lies in
/// the range: two calls on equal arguments may differ.
#[verifier::external_body]
fn random_below(bound: i32) -> (r: i32)
    requires
        bound > 0,
    ensures
        0 <= r < bound,
{
    rand::thread_rng().gen_range(0..bound)
}

/// Draw a floating position inside `region`, as the randomized placement
/// policy asks. Whatever the draw, the position lies within the region.
pub fn random_position(region: Size) -> (p: Point)
    requires
        region.w > 0,
        region.h > 0,
    ensures
        0 <= p.x < region.w,
        0 <= p.y < region.h,
{
    Point { x: random_below(region.w), y: random_below(region.h) }
}

} // verus!
