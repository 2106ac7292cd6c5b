//! Random draws and uniform sampling of points on an annulus.

use vstd::prelude::*;
use crate::geometry::{dist_sq, in_box, Point};
use wyrand::WyRand;

verus! {

#[verifier::external_type_specification]
#[verifier::external_body]
pub struct ExWyRand(WyRand);

/// Largest magnitude of a centre coordinate, and largest radius, that the
/// sampler accepts; together they keep every sample within `COORD_LIMIT`.
pub const SAMPLE_LIMIT: i64 = 549_755_813_888;

/// Draws of candidate points before the sampler settles for a fixed point.
pub const SAMPLE_ATTEMPTS: u32 = 32;

/// Relies on `wyrand::WyRand::new`: a generator started from `seed`.
#[verifier::external_body]
pub(crate) fn rng_from_seed(seed: u64) -> WyRand {
    WyRand::new(seed)
}

/// Relies on `wyrand::WyRand::rand`: the next pseudo-random `u64`; nothing is
/// promised of its value.
#[verifier::external_body]
pub(crate) fn next_draw(rng: &mut WyRand) -> u64 {
    rng.rand()
}

/// The offset, in `[-r, r]`, that a draw gives on one axis.
pub open spec fn offset_for(draw: int, r: int) -> int {
    draw % (2 * r + 1) - r
}

/// The candidate point that two draws give: uniform over the square of
/// half-side `r_max` around `center`.
pub open spec fn candidate_for(center: Point, r_max: int, draw_x: int, draw_y: int) -> Point {
    Point {
        x: (center.x + offset_for(draw_x, r_max)) as i64,
        y: (center.y + offset_for(draw_y, r_max)) as i64,
    }
}

/// `p` lies on the closed annulus of radii `r_min` and `r_max` around `center`.
pub open spec fn on_annulus(center: Point, p: Point, r_min: int, r_max: int) -> bool {
    r_min * r_min <= dist_sq(center, p) <= r_max * r_max
}

/// The candidate point that two draws give around `center`.
pub fn annulus_candidate(center: Point, r_max: u64, draw_x: u64, draw_y: u64) -> (r: Point)
    requires
        in_box(center, -SAMPLE_LIMIT, SAMPLE_LIMIT as int),
        r_max <= SAMPLE_LIMIT,
    ensures
        r == candidate_for(center, r_max as int, draw_x as int, draw_y as int),
        r.wf(),
{
    let side: u64 = 2 * r_max + 1;
    let ox: i64 = (draw_x % side) as i64 - r_max as i64;
    let oy: i64 = (draw_y % side) as i64 - r_max as i64;
    Point { x: center.x + ox, y: center.y + oy }
}

/// Whether `p` lies on the annulus of radii `r_min` and `r_max` around `center`.
pub fn in_annulus(center: Point, p: Point, r_min: u64, r_max: u64) -> (r: bool)
    requires
        center.wf(),
        p.wf(),
    ensures
        r == on_annulus(center, p, r_min as int, r_max as int),
{
    assert(r_max * r_max <= u64::MAX * u64::MAX && r_min * r_min <= u64::MAX * u64::MAX) by (nonlinear_arith)
        requires
            r_max <= u64::MAX,
            r_min <= u64::MAX,
    ;
    let d: u128 = crate::geometry::distance_sq(center, p);
    r_min as u128 * r_min as u128 <= d && d <= r_max as u128 * r_max as u128
}

/// A random point on the annulus of radii `r_min` and `r_max` around
/// `center`, uniform over its area: candidates uniform over the enclosing
/// square are drawn until one falls on the annulus. Should every attempt miss,
/// the point at distance `r_min` due east of the centre is used.
pub fn sample_in_annulus(center: Point, rng: &mut WyRand, r_min: u64, r_max: u64) -> (r: Point)
    requires
        in_box(center, -SAMPLE_LIMIT, SAMPLE_LIMIT as int),
        r_min <= r_max <= SAMPLE_LIMIT,
    ensures
        r.wf(),
        on_annulus(center, r, r_min as int, r_max as int),
{
    let mut attempt: u32 = 0;
    while attempt < SAMPLE_ATTEMPTS
        invariant
            in_box(center, -SAMPLE_LIMIT, SAMPLE_LIMIT as int),
            r_min <= r_max <= SAMPLE_LIMIT,
        decreases SAMPLE_ATTEMPTS - attempt,
    {
        let draw_x = next_draw(rng);
        let draw_y = next_draw(rng);
        let p = annulus_candidate(center, r_max, draw_x, draw_y);
        if in_annulus(center, p, r_min, r_max) {
            return p;
        }
        attempt = attempt + 1;
    }
    let p = Point { x: center.x + r_min as i64, y: center.y };
    assert(r_min * r_min <= r_max * r_max) by (nonlinear_arith)
        requires
            r_min <= r_max,
    ;
    p
}

} // verus!
