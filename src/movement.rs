//! Motion: steering toward a target, per-tick displacement and level bounds.

use vstd::prelude::*;
use crate::geometry::{
    ceil_sqrt, ceil_sqrt_of, difference, dist_sq, in_box, norm_sq, scale_to_length, scaled,
    translate, Point, COORD_LIMIT,
};

verus! {

/// Length of a unit direction: directions are kept in thousandths.
pub const UNIT: u64 = 1000;

/// Below this distance to its target (64 world units) a hostile stops.
pub const ARRIVAL_THRESHOLD: u64 = 64_000;

/// Largest magnitude of a direction component (a thousand unit lengths).
pub const DIRECTION_LIMIT: i64 = 1_000_000;

/// Largest speed, in sub-units per second (a million world units per second).
pub const SPEED_LIMIT: u64 = 1_000_000_000;

/// Longest tick, in milliseconds.
pub const MAX_DT_MS: u64 = 60_000;

/// Level bounds, in sub-units.
pub const LEVEL_MIN_X: i64 = -1_640_000;
pub const LEVEL_MAX_X: i64 = 1_560_000;
pub const LEVEL_MIN_Y: i64 = -1_660_500;
pub const LEVEL_MAX_Y: i64 = 1_693_000;

/// Direction (in thousandths of a unit length) and speed (sub-units per
/// second) of a moving entity.
#[derive(Clone, Copy, Debug, PartialEq, Eq, Structural)]
pub struct Velocity {
    pub direction: Point,
    pub speed: u64,
}

/// `p` lies within the level's rectangle.
pub open spec fn inside_level(p: Point) -> bool {
    LEVEL_MIN_X <= p.x <= LEVEL_MAX_X && LEVEL_MIN_Y <= p.y <= LEVEL_MAX_Y
}

/// Distance covered in `dt` milliseconds by an entity moving at `speed` along
/// a direction of length `len` (thousandths): `min(speed, len * speed) * dt`,
/// so a direction shorter than a unit slows it down.
pub open spec fn travel_length(speed: int, len: int, dt: int) -> int {
    let rate = if speed <= len * speed / (UNIT as int) {
        speed
    } else {
        len * speed / (UNIT as int)
    };
    rate * dt / 1000
}

/// The displacement of a velocity over `dt` milliseconds.
pub open spec fn displacement_for(v: Velocity, dt: int) -> (int, int) {
    let s = ceil_sqrt_of(norm_sq(v.direction));
    scaled(v.direction, travel_length(v.speed as int, s, dt), s)
}

/// `v` clamped into `[-COORD_LIMIT, COORD_LIMIT]`.
pub open spec fn clamped(v: int) -> int {
    if v < -COORD_LIMIT {
        -COORD_LIMIT as int
    } else if v > COORD_LIMIT {
        COORD_LIMIT as int
    } else {
        v
    }
}

/// `p` moved by `d`, clamped into the coordinate limits.
pub open spec fn moved(p: Point, d: (int, int)) -> Point {
    Point { x: clamped(p.x + d.0) as i64, y: clamped(p.y + d.1) as i64 }
}

/// The unit direction (in thousandths) from `position` toward `target`, or
/// zero once within the arrival threshold.
pub open spec fn steering_for(position: Point, target: Point) -> (int, int) {
    if dist_sq(position, target) >= ARRIVAL_THRESHOLD * ARRIVAL_THRESHOLD {
        let d = Point { x: (target.x - position.x) as i64, y: (target.y - position.y) as i64 };
        scaled(d, UNIT as int, ceil_sqrt_of(norm_sq(d)))
    } else {
        (0, 0)
    }
}

impl Velocity {
    pub open spec fn wf(self) -> bool {
        in_box(self.direction, -DIRECTION_LIMIT, DIRECTION_LIMIT as int) && self.speed <= SPEED_LIMIT
    }

    /// Whether the entity is moving at all.
    pub open spec fn is_moving(self) -> bool {
        !(self.direction.x == 0 && self.direction.y == 0)
    }

    pub fn from_vec2(direction: Point, speed: u64) -> (r: Velocity)
        ensures
            r.direction == direction,
            r.speed == speed,
    {
        Velocity { direction, speed }
    }

    /// Whether the direction is non-zero.
    pub fn moving(&self) -> (r: bool)
        ensures
            r == self.is_moving(),
    {
        !self.direction.is_zero()
    }
}

/// Whether `p` lies within the level's rectangle.
pub fn pos_inside_level(p: &Point) -> (r: bool)
    ensures
        r == inside_level(*p),
{
    p.x >= LEVEL_MIN_X && p.x <= LEVEL_MAX_X && p.y >= LEVEL_MIN_Y && p.y <= LEVEL_MAX_Y
}

/// How far a velocity carries an entity in `dt` milliseconds; never farther
/// than `speed * dt`.
pub fn displacement(v: Velocity, dt: u64) -> (r: Point)
    requires
        v.wf(),
        dt <= MAX_DT_MS,
    ensures
        (r.x as int, r.y as int) == displacement_for(v, dt as int),
        norm_sq(r) <= (v.speed * dt / 1000) * (v.speed * dt / 1000),
        r.wf(),
{
    let n: u128 = crate::geometry::distance_sq(Point { x: 0, y: 0 }, v.direction);
    assert(n == norm_sq(v.direction));
    let len: u64 = ceil_sqrt(n);
    assert(len <= 4 * COORD_LIMIT) by (nonlinear_arith)
        requires
            len == 0 || (len - 1) * (len - 1) < n,
            n <= 8 * COORD_LIMIT * COORD_LIMIT,
            0 <= len,
    ;
    assert(len * v.speed <= 4 * COORD_LIMIT * SPEED_LIMIT) by (nonlinear_arith)
        requires
            len <= 4 * COORD_LIMIT,
            v.speed <= SPEED_LIMIT,
    ;
    let scaled_speed: u128 = len as u128 * v.speed as u128 / UNIT as u128;
    let rate: u64 = if (v.speed as u128) <= scaled_speed { v.speed } else { scaled_speed as u64 };
    assert(rate * dt <= SPEED_LIMIT * MAX_DT_MS) by (nonlinear_arith)
        requires
            rate <= SPEED_LIMIT,
            dt <= MAX_DT_MS,
    ;
    assert(rate * dt / 1000 <= v.speed * dt / 1000) by (nonlinear_arith)
        requires
            rate <= v.speed,
            0 <= dt,
    ;
    let travel: u64 = rate * dt / 1000;
    let r = scale_to_length(v.direction, travel);
    assert(norm_sq(r) <= (v.speed * dt / 1000) * (v.speed * dt / 1000)) by (nonlinear_arith)
        requires
            norm_sq(r) <= travel * travel,
            0 <= travel <= v.speed * dt / 1000,
    ;
    r
}

/// The position after moving with `v` for `dt` milliseconds (clamped into the
/// coordinate limits).
pub fn advance(p: Point, v: Velocity, dt: u64) -> (r: Point)
    requires
        v.wf(),
        dt <= MAX_DT_MS,
    ensures
        r == moved(p, displacement_for(v, dt as int)),
        r.wf(),
{
    let d = displacement(v, dt);
    translate(p, d)
}

/// `v` clamped into `[lo, hi]`.
pub open spec fn clamp_between(v: int, lo: int, hi: int) -> int {
    if v < lo {
        lo
    } else if v > hi {
        hi
    } else {
        v
    }
}

/// `q` clamped into the level's rectangle.
pub open spec fn clamp_to_level(q: Point) -> Point {
    Point {
        x: clamp_between(q.x as int, LEVEL_MIN_X as int, LEVEL_MAX_X as int) as i64,
        y: clamp_between(q.y as int, LEVEL_MIN_Y as int, LEVEL_MAX_Y as int) as i64,
    }
}

/// The protagonist's move: the position reached, clamped into the level.
pub fn advance_within_level(p: Point, v: Velocity, dt: u64) -> (r: Point)
    requires
        v.wf(),
        dt <= MAX_DT_MS,
    ensures
        r == clamp_to_level(moved(p, displacement_for(v, dt as int))),
        inside_level(r),
{
    let next = advance(p, v, dt);
    let x = if next.x < LEVEL_MIN_X {
        LEVEL_MIN_X
    } else if next.x > LEVEL_MAX_X {
        LEVEL_MAX_X
    } else {
        next.x
    };
    let y = if next.y < LEVEL_MIN_Y {
        LEVEL_MIN_Y
    } else if next.y > LEVEL_MAX_Y {
        LEVEL_MAX_Y
    } else {
        next.y
    };
    Point { x, y }
}

/// The direction a hostile at `position` takes toward `target`: the unit
/// vector (in thousandths) while at least the arrival threshold away, zero
/// closer in.
pub fn steer(position: Point, target: Point) -> (r: Point)
    requires
        position.wf(),
        target.wf(),
    ensures
        (r.x as int, r.y as int) == steering_for(position, target),
        norm_sq(r) <= UNIT * UNIT,
        in_box(r, -(UNIT as int), UNIT as int),
{
    let threshold_sq: u128 = ARRIVAL_THRESHOLD as u128 * ARRIVAL_THRESHOLD as u128;
    if crate::geometry::distance_sq(position, target) < threshold_sq {
        Point { x: 0, y: 0 }
    } else {
        let d = difference(position, target);
        let r = scale_to_length(d, UNIT);
        proof {
            lemma_component_bound(r);
        }
        r
    }
}

/// A vector no longer than a unit has components within a unit.
pub(crate) proof fn lemma_component_bound(r: Point)
    requires
        norm_sq(r) <= UNIT * UNIT,
    ensures
        in_box(r, -(UNIT as int), UNIT as int),
{
    assert(in_box(r, -(UNIT as int), UNIT as int)) by (nonlinear_arith)
        requires
            r.x * r.x + r.y * r.y <= 1000 * 1000,
    ;
}

} // verus!
