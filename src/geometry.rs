//! Integer plane geometry: points, squared distances and vector scaling.

use vstd::prelude::*;

verus! {

/// Largest magnitude a coordinate may take; keeps every product in range.
pub const COORD_LIMIT: i64 = 1_099_511_627_776;

/// Largest length that `scale_to_length` accepts.
pub const LENGTH_LIMIT: u64 = 1_099_511_627_776;

/// A point, or a vector, in the plane, in sub-units.
#[derive(Clone, Copy, Debug, PartialEq, Eq, Structural)]
pub struct Point {
    pub x: i64,
    pub y: i64,
}

/// Squared euclidean length of a vector.
pub open spec fn norm_sq(d: Point) -> int {
    d.x * d.x + d.y * d.y
}

/// Squared euclidean distance between two points.
pub open spec fn dist_sq(a: Point, b: Point) -> int {
    (b.x - a.x) * (b.x - a.x) + (b.y - a.y) * (b.y - a.y)
}

/// The point lies within the rectangle `[lo, hi]` on both axes.
pub open spec fn in_box(p: Point, lo: int, hi: int) -> bool {
    lo <= p.x <= hi && lo <= p.y <= hi
}

/// Smallest integer whose square reaches `n`.
pub open spec fn is_ceil_sqrt(n: int, r: int) -> bool {
    0 <= r && n <= r * r && (r == 0 || (r - 1) * (r - 1) < n)
}

/// The rounded-up square root of `n`.
pub open spec fn ceil_sqrt_of(n: int) -> int {
    choose|r: int| is_ceil_sqrt(n, r)
}

/// `|v| * len / s` rounded toward zero, carrying the sign of `v`.
pub open spec fn scaled_component(v: int, len: int, s: int) -> int {
    if v >= 0 {
        (v * len) / s
    } else {
        -(((-v) * len) / s)
    }
}

/// The vector `d` rescaled to length `len` (rounded toward zero per axis),
/// where `s` is the rounded-up length of `d`; the zero vector stays zero.
pub open spec fn scaled(d: Point, len: int, s: int) -> (int, int) {
    if s == 0 {
        (0, 0)
    } else {
        (scaled_component(d.x as int, len, s), scaled_component(d.y as int, len, s))
    }
}

impl Point {
    /// Both coordinates lie within `COORD_LIMIT`.
    pub open spec fn wf(self) -> bool {
        in_box(self, -COORD_LIMIT, COORD_LIMIT as int)
    }

    pub fn new(x: i64, y: i64) -> (r: Point)
        ensures
            r.x == x,
            r.y == y,
    {
        Point { x, y }
    }

    pub fn zero() -> (r: Point)
        ensures
            r.x == 0,
            r.y == 0,
    {
        Point { x: 0, y: 0 }
    }

    pub fn is_zero(&self) -> (r: bool)
        ensures
            r == (self.x == 0 && self.y == 0),
    {
        self.x == 0 && self.y == 0
    }
}

/// Drawing depth of an entity: the lower it stands on screen, the nearer it
/// is drawn.
pub fn draw_depth(p: &Point) -> (r: i64)
    requires
        p.wf(),
    ensures
        r == -p.y,
{
    -p.y
}

/// Clamps a coordinate into `[-COORD_LIMIT, COORD_LIMIT]`.
pub fn clamp_coord(v: i128) -> (r: i64)
    ensures
        r == (if v < -COORD_LIMIT {
            -COORD_LIMIT as int
        } else if v > COORD_LIMIT {
            COORD_LIMIT as int
        } else {
            v as int
        }),
{
    if v < -(COORD_LIMIT as i128) {
        -COORD_LIMIT
    } else if v > COORD_LIMIT as i128 {
        COORD_LIMIT
    } else {
        v as i64
    }
}

/// `p + d`, each coordinate clamped into the coordinate limits.
pub fn translate(p: Point, d: Point) -> (r: Point)
    ensures
        r.wf(),
        r.x == (if p.x + d.x < -COORD_LIMIT {
            -COORD_LIMIT as int
        } else if p.x + d.x > COORD_LIMIT {
            COORD_LIMIT as int
        } else {
            p.x + d.x
        }),
        r.y == (if p.y + d.y < -COORD_LIMIT {
            -COORD_LIMIT as int
        } else if p.y + d.y > COORD_LIMIT {
            COORD_LIMIT as int
        } else {
            p.y + d.y
        }),
{
    Point {
        x: clamp_coord(p.x as i128 + d.x as i128),
        y: clamp_coord(p.y as i128 + d.y as i128),
    }
}

/// Squared distance between two points.
pub fn distance_sq(a: Point, b: Point) -> (r: u128)
    requires
        a.wf(),
        b.wf(),
    ensures
        r == dist_sq(a, b),
        r <= 8 * COORD_LIMIT * COORD_LIMIT,
{
    let dx: i128 = b.x as i128 - a.x as i128;
    let dy: i128 = b.y as i128 - a.y as i128;
    assert(dx * dx <= 4 * COORD_LIMIT * COORD_LIMIT) by (nonlinear_arith)
        requires
            -2 * COORD_LIMIT <= dx <= 2 * COORD_LIMIT,
    ;
    assert(dy * dy <= 4 * COORD_LIMIT * COORD_LIMIT) by (nonlinear_arith)
        requires
            -2 * COORD_LIMIT <= dy <= 2 * COORD_LIMIT,
    ;
    assert(0 <= dx * dx && 0 <= dy * dy) by (nonlinear_arith);
    ((dx * dx) + (dy * dy)) as u128
}

/// Whether `b` lies within distance `radius` of `a` (boundary included).
pub fn within(a: Point, b: Point, radius: u64) -> (r: bool)
    requires
        a.wf(),
        b.wf(),
    ensures
        r == (dist_sq(a, b) <= radius * radius),
{
    assert(radius * radius <= u64::MAX * u64::MAX) by (nonlinear_arith)
        requires
            radius <= u64::MAX,
    ;
    let r2: u128 = radius as u128 * radius as u128;
    distance_sq(a, b) <= r2
}

/// Rounded-up square root: the smallest `r` with `n <= r * r`.
pub fn ceil_sqrt(n: u128) -> (r: u64)
    requires
        n <= 16 * COORD_LIMIT * COORD_LIMIT,
    ensures
        is_ceil_sqrt(n as int, r as int),
        r == ceil_sqrt_of(n as int),
{
    let mut lo: u64 = 0;
    let mut hi: u64 = 4 * COORD_LIMIT as u64;
    assert(n <= hi * hi) by (nonlinear_arith)
        requires
            n <= 16 * COORD_LIMIT * COORD_LIMIT,
            hi == 4 * COORD_LIMIT,
    ;
    while lo < hi
        invariant
            lo <= hi <= 4 * COORD_LIMIT,
            n <= hi * hi,
            lo == 0 || (lo - 1) * (lo - 1) < n,
        decreases hi - lo,
    {
        let mid: u64 = lo + (hi - lo) / 2;
        assert(mid * mid <= 16 * COORD_LIMIT * COORD_LIMIT) by (nonlinear_arith)
            requires
                mid <= 4 * COORD_LIMIT,
        ;
        let sq: u128 = mid as u128 * mid as u128;
        if sq >= n {
            hi = mid;
        } else {
            lo = mid + 1;
        }
    }
    proof {
        lemma_ceil_sqrt_unique(n as int, lo as int, ceil_sqrt_of(n as int));
    }
    lo
}

/// The rounded-up square root is unique, so `ceil_sqrt_of` names it.
proof fn lemma_ceil_sqrt_unique(n: int, r: int, c: int)
    requires
        is_ceil_sqrt(n, r),
        c == ceil_sqrt_of(n),
    ensures
        is_ceil_sqrt(n, c),
        c == r,
{
    assert(is_ceil_sqrt(n, ceil_sqrt_of(n)));
    if c < r {
        assert(c * c <= (r - 1) * (r - 1)) by (nonlinear_arith)
            requires
                0 <= c <= r - 1,
        ;
    } else if r < c {
        assert(r * r <= (c - 1) * (c - 1)) by (nonlinear_arith)
            requires
                0 <= r <= c - 1,
        ;
    }
}

/// `b - a`.
pub fn difference(a: Point, b: Point) -> (r: Point)
    requires
        a.wf(),
        b.wf(),
    ensures
        r.x == b.x - a.x,
        r.y == b.y - a.y,
        in_box(r, -2 * COORD_LIMIT, 2 * COORD_LIMIT),
{
    Point { x: b.x - a.x, y: b.y - a.y }
}

/// Rescales the vector `d` to length `len`, rounding each component toward
/// zero so that the result is never longer than `len`; the zero vector stays
/// zero.
pub fn scale_to_length(d: Point, len: u64) -> (r: Point)
    requires
        in_box(d, -2 * COORD_LIMIT, 2 * COORD_LIMIT),
        len <= LENGTH_LIMIT,
    ensures
        r.wf(),
        (r.x as int, r.y as int) == scaled(d, len as int, ceil_sqrt_of(norm_sq(d))),
        norm_sq(r) <= len * len,
        d.x == 0 && d.y == 0 ==> r.x == 0 && r.y == 0,
{
    let ax: u128 = if d.x >= 0 { d.x as u128 } else { (-(d.x as i128)) as u128 };
    let ay: u128 = if d.y >= 0 { d.y as u128 } else { (-(d.y as i128)) as u128 };
    assert(ax * ax <= 4 * COORD_LIMIT * COORD_LIMIT && ay * ay <= 4 * COORD_LIMIT * COORD_LIMIT) by (nonlinear_arith)
        requires
            ax <= 2 * COORD_LIMIT,
            ay <= 2 * COORD_LIMIT,
    ;
    let n: u128 = ax * ax + ay * ay;
    assert(n == norm_sq(d)) by (nonlinear_arith)
        requires
            n == ax * ax + ay * ay,
            ax == d.x || ax == -d.x,
            ay == d.y || ay == -d.y,
    ;
    let s: u64 = ceil_sqrt(n);
    if s == 0 {
        assert(n == 0) by (nonlinear_arith)
            requires
                n <= s * s,
                s == 0,
        ;
        assert(d.x == 0 && d.y == 0) by (nonlinear_arith)
            requires
                d.x * d.x + d.y * d.y == 0,
        ;
        return Point { x: 0, y: 0 };
    }
    assert(ax * len <= 2 * COORD_LIMIT * LENGTH_LIMIT && ay * len <= 2 * COORD_LIMIT * LENGTH_LIMIT) by (nonlinear_arith)
        requires
            ax <= 2 * COORD_LIMIT,
            ay <= 2 * COORD_LIMIT,
            len <= LENGTH_LIMIT,
    ;
    let qx: u128 = (ax * len as u128) / s as u128;
    let qy: u128 = (ay * len as u128) / s as u128;
    proof {
        lemma_scaled_bound(ax as int, ay as int, len as int, s as int, qx as int, qy as int);
    }
    let x: i64 = if d.x >= 0 { qx as i64 } else { -(qx as i64) };
    let y: i64 = if d.y >= 0 { qy as i64 } else { -(qy as i64) };
    let r = Point { x, y };
    assert(norm_sq(r) == qx * qx + qy * qy) by (nonlinear_arith)
        requires
            r.x == qx || r.x == -qx,
            r.y == qy || r.y == -qy,
    ;
    r
}

/// Each rounded-down scaled component stays within `len`, and together they
/// are no longer than `len`.
proof fn lemma_scaled_bound(ax: int, ay: int, len: int, s: int, qx: int, qy: int)
    requires
        0 <= ax,
        0 <= ay,
        0 <= len,
        0 < s,
        ax * ax + ay * ay <= s * s,
        qx == (ax * len) / s,
        qy == (ay * len) / s,
    ensures
        0 <= qx <= len,
        0 <= qy <= len,
        qx * qx + qy * qy <= len * len,
{
    assert(0 <= ax * len) by (nonlinear_arith)
        requires
            0 <= ax,
            0 <= len,
    ;
    assert(0 <= ay * len) by (nonlinear_arith)
        requires
            0 <= ay,
            0 <= len,
    ;
    assert(qx * s <= ax * len) by (nonlinear_arith)
        requires
            qx == (ax * len) / s,
            0 < s,
            0 <= ax * len,
    ;
    assert(qy * s <= ay * len) by (nonlinear_arith)
        requires
            qy == (ay * len) / s,
            0 < s,
            0 <= ay * len,
    ;
    assert(0 <= qx && 0 <= qy) by (nonlinear_arith)
        requires
            qx == (ax * len) / s,
            qy == (ay * len) / s,
            0 < s,
            0 <= ax * len,
            0 <= ay * len,
    ;
    assert(ax <= s) by (nonlinear_arith)
        requires
            ax * ax + ay * ay <= s * s,
            0 <= ax,
            0 < s,
    ;
    assert(ay <= s) by (nonlinear_arith)
        requires
            ax * ax + ay * ay <= s * s,
            0 <= ay,
            0 < s,
    ;
    assert(qx <= len) by (nonlinear_arith)
        requires
            qx * s <= ax * len,
            ax <= s,
            0 < s,
            0 <= len,
            0 <= qx,
    ;
    assert(qy <= len) by (nonlinear_arith)
        requires
            qy * s <= ay * len,
            ay <= s,
            0 < s,
            0 <= len,
            0 <= qy,
    ;
    assert((qx * s) * (qx * s) <= (ax * len) * (ax * len)) by (nonlinear_arith)
        requires
            0 <= qx * s <= ax * len,
    ;
    assert((qy * s) * (qy * s) <= (ay * len) * (ay * len)) by (nonlinear_arith)
        requires
            0 <= qy * s <= ay * len,
    ;
    assert((qx * s) * (qx * s) == (qx * qx) * (s * s)) by (nonlinear_arith);
    assert((qy * s) * (qy * s) == (qy * qy) * (s * s)) by (nonlinear_arith);
    assert((ax * len) * (ax * len) == (ax * ax) * (len * len)) by (nonlinear_arith);
    assert((ay * len) * (ay * len) == (ay * ay) * (len * len)) by (nonlinear_arith);
    assert((qx * qx + qy * qy) * (s * s) == (qx * qx) * (s * s) + (qy * qy) * (s * s)) by (nonlinear_arith);
    assert((ax * ax + ay * ay) * (len * len) == (ax * ax) * (len * len) + (ay * ay) * (len * len)) by (nonlinear_arith);
    assert((ax * ax + ay * ay) * (len * len) <= (s * s) * (len * len)) by (nonlinear_arith)
        requires
            ax * ax + ay * ay <= s * s,
            0 <= len * len,
    ;
    assert(qx * qx + qy * qy <= len * len) by (nonlinear_arith)
        requires
            (qx * qx + qy * qy) * (s * s) <= (s * s) * (len * len),
            0 < s,
    ;
}

} // verus!
