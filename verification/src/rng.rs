//! Randomness for spawn placement. The one trusted item wraps the thread
//! local generator of the `fastrand` crate; everything built on it is
//! verified against the bound that holds of every outcome.

use vstd::prelude::*;

use crate::math::{clamp_i64, Vec2I, COORD_LIMIT_MILLI};

verus! {

/// Relies on `fastrand::i64`: a draw from the inclusive range `lo..=hi`,
/// which panics only when the range is empty. Nothing more than the bound
/// can be promised of a random value.
#[verifier::external_body]
fn rand_in_range(lo: i64, hi: i64) -> (r: i64)
    requires
        lo <= hi,
    ensures
        lo <= r <= hi,
{
    fastrand::i64(lo..=hi)
}

/// A uniform random point of the axis-aligned box around `center` with the
/// given half-extents, clipped to the coordinate bounds. The result stays
/// within the half-extents of the center on each axis.
pub(crate) fn random_point_near(center: Vec2I, half_x: i64, half_y: i64) -> (r: Vec2I)
    requires
        center.spec_in_bounds(),
        0 <= half_x <= COORD_LIMIT_MILLI,
        0 <= half_y <= COORD_LIMIT_MILLI,
    ensures
        r.spec_in_bounds(),
        center.x - half_x <= r.x <= center.x + half_x,
        center.y - half_y <= r.y <= center.y + half_y,
{
    let raw_x: i64 = rand_in_range(center.x - half_x, center.x + half_x);
    let raw_y: i64 = rand_in_range(center.y - half_y, center.y + half_y);
    let x: i64 = clamp_i64(raw_x, -COORD_LIMIT_MILLI, COORD_LIMIT_MILLI);
    let y: i64 = clamp_i64(raw_y, -COORD_LIMIT_MILLI, COORD_LIMIT_MILLI);
    Vec2I { x, y }
}

} // verus!
