//! Fixed-point plane geometry.
//!
//! Lengths are whole numbers of position units, `UNITS_PER_PIXEL` to the
//! pixel, so that the simulation is exact and repeatable on every machine.

use vstd::prelude::*;

verus! {

/// Position units in one pixel.
pub const UNITS_PER_PIXEL: i64 = 1000;

/// Largest magnitude of a coordinate of a player or an enemy.
pub const COORD_LIMIT: i64 = 0x100_0000_0000;

/// A point of the playfield, or a displacement, in position units.
#[derive(Clone, Copy, Debug, PartialEq, Eq, Structural)]
pub struct Point {
    pub x: i64,
    pub y: i64,
}

/// Width and height of an axis-aligned box, in position units.
#[derive(Clone, Copy, Debug, PartialEq, Eq, Structural)]
pub struct Size {
    pub w: i64,
    pub h: i64,
}

impl Point {
    /// Both coordinates lie within `COORD_LIMIT` of the origin.
    pub open spec fn in_bounds(self) -> bool {
        &&& -COORD_LIMIT <= self.x <= COORD_LIMIT
        &&& -COORD_LIMIT <= self.y <= COORD_LIMIT
    }

    pub fn new(x: i64, y: i64) -> (p: Point)
        ensures
            p == (Point { x, y }),
    {
        Point { x, y }
    }

    /// Decides `in_bounds`.
    pub fn is_in_bounds(&self) -> (ok: bool)
        ensures
            ok == self.in_bounds(),
    {
        -COORD_LIMIT <= self.x && self.x <= COORD_LIMIT && -COORD_LIMIT <= self.y && self.y
            <= COORD_LIMIT
    }
}

impl Size {
    /// The box scaled by one half along both axes, rounding toward zero.
    pub open spec fn spec_halved(self) -> Size {
        Size { w: trunc_div(self.w as int, 2) as i64, h: trunc_div(self.h as int, 2) as i64 }
    }

    pub fn new(w: i64, h: i64) -> (s: Size)
        ensures
            s == (Size { w, h }),
    {
        Size { w, h }
    }

    /// Sprites are drawn at half their pixel size; this is the box of such a sprite.
    pub fn halved(&self) -> (s: Size)
        ensures
            s == self.spec_halved(),
    {
        Size { w: self.w / 2, h: self.h / 2 }
    }
}

/// Quotient rounded toward zero, as machine division rounds.
pub open spec fn trunc_div(a: int, b: int) -> int
    recommends
        b > 0,
{
    if a >= 0 {
        a / b
    } else {
        -((-a) / b)
    }
}

/// Remainder that goes with `trunc_div`: it has the sign of `a`.
pub open spec fn trunc_rem(a: int, b: int) -> int
    recommends
        b > 0,
{
    if a >= 0 {
        a % b
    } else {
        -((-a) % b)
    }
}

/// Two axis-aligned boxes, each centred on its position, share interior points.
///
/// Boxes that merely touch along an edge do not overlap. The inequalities
/// compare doubled coordinates so that half extents need no rounding.
pub open spec fn boxes_overlap(a_pos: Point, a_size: Size, b_pos: Point, b_size: Size) -> bool {
    &&& 2 * a_pos.x - a_size.w < 2 * b_pos.x + b_size.w
    &&& 2 * a_pos.x + a_size.w > 2 * b_pos.x - b_size.w
    &&& 2 * a_pos.y - a_size.h < 2 * b_pos.y + b_size.h
    &&& 2 * a_pos.y + a_size.h > 2 * b_pos.y - b_size.h
}

/// Axis-aligned bounding-box overlap test.
pub fn overlaps(a_pos: Point, a_size: Size, b_pos: Point, b_size: Size) -> (hit: bool)
    ensures
        hit == boxes_overlap(a_pos, a_size, b_pos, b_size),
{
    let ax: i128 = 2 * (a_pos.x as i128);
    let ay: i128 = 2 * (a_pos.y as i128);
    let bx: i128 = 2 * (b_pos.x as i128);
    let by: i128 = 2 * (b_pos.y as i128);
    let aw: i128 = a_size.w as i128;
    let ah: i128 = a_size.h as i128;
    let bw: i128 = b_size.w as i128;
    let bh: i128 = b_size.h as i128;
    ax - aw < bx + bw && ax + aw > bx - bw && ay - ah < by + bh && ay + ah > by - bh
}

/// `r` is the integer square root of `n`: the largest whole number whose square is at most `n`.
pub open spec fn is_floor_sqrt(n: int, r: int) -> bool {
    &&& 0 <= r
    &&& r * r <= n
    &&& n < (r + 1) * (r + 1)
}

/// The integer square root of `n`.
pub closed spec fn floor_sqrt(n: int) -> int {
    choose|r: int| is_floor_sqrt(n, r)
}

/// Squaring is monotone on the naturals.
proof fn lemma_square_monotone(a: int, b: int)
    requires
        0 <= a <= b,
    ensures
        a * a <= b * b,
{
    assert(a * a <= b * b) by (nonlinear_arith)
        requires
            0 <= a <= b,
    ;
}

/// At most one number is the integer square root of `n`.
pub proof fn lemma_floor_sqrt_unique(n: int, r: int, s: int)
    requires
        is_floor_sqrt(n, r),
        is_floor_sqrt(n, s),
    ensures
        r == s,
{
    if r < s {
        lemma_square_monotone(r + 1, s);
    } else if s < r {
        lemma_square_monotone(s + 1, r);
    }
}

/// Whatever meets `is_floor_sqrt` is `floor_sqrt`.
pub proof fn lemma_floor_sqrt_is(n: int, r: int)
    requires
        is_floor_sqrt(n, r),
    ensures
        floor_sqrt(n) == r,
{
    lemma_floor_sqrt_unique(n, r, floor_sqrt(n));
}

/// The integer square root of zero is zero, and of nothing else.
pub proof fn lemma_floor_sqrt_zero(n: int)
    requires
        0 <= n,
    ensures
        (floor_sqrt(n) == 0) <==> (n == 0),
        0 <= floor_sqrt(n),
        is_floor_sqrt(n, floor_sqrt(n)),
{
    lemma_floor_sqrt_exists(n);
    let r = floor_sqrt(n);
    if n == 0 {
        assert(is_floor_sqrt(0, 0));
        lemma_floor_sqrt_unique(n, r, 0);
    }
}

/// Every natural number has an integer square root.
pub proof fn lemma_floor_sqrt_exists(n: int)
    requires
        0 <= n,
    ensures
        is_floor_sqrt(n, floor_sqrt(n)),
    decreases n,
{
    if n == 0 {
        assert(is_floor_sqrt(0, 0));
    } else {
        lemma_floor_sqrt_exists(n - 1);
        let r = floor_sqrt(n - 1);
        if n < (r + 1) * (r + 1) {
            assert(is_floor_sqrt(n, r));
        } else {
            assert((r + 1) * (r + 1) == n);
            assert(n < (r + 2) * (r + 2)) by (nonlinear_arith)
                requires
                    (r + 1) * (r + 1) == n,
                    0 <= r,
            ;
            assert(is_floor_sqrt(n, r + 1));
        }
    }
}

/// Computes the integer square root by bisection.
pub fn isqrt(n: u128) -> (r: u128)
    ensures
        r == floor_sqrt(n as int),
        is_floor_sqrt(n as int, r as int),
        r < 0x1_0000_0000_0000_0000,
{
    let mut lo: u128 = 0;
    let mut hi: u128 = 0x1_0000_0000_0000_0000;
    assert(hi * hi > n) by (nonlinear_arith)
        requires
            hi == 0x1_0000_0000_0000_0000,
            n <= u128::MAX,
    ;
    while hi - lo > 1
        invariant
            lo < hi <= 0x1_0000_0000_0000_0000,
            lo * lo <= n,
            n < hi * hi,
        decreases hi - lo,
    {
        let mid: u128 = lo + (hi - lo) / 2;
        assert(mid * mid <= u128::MAX) by (nonlinear_arith)
            requires
                mid < 0x1_0000_0000_0000_0000,
        ;
        if mid * mid <= n {
            lo = mid;
        } else {
            hi = mid;
        }
    }
    proof {
        assert(hi == lo + 1);
        lemma_floor_sqrt_is(n as int, lo as int);
    }
    lo
}

/// The square of the straight-line distance between two points.
pub open spec fn distance_squared(a: Point, b: Point) -> int {
    (a.x - b.x) * (a.x - b.x) + (a.y - b.y) * (a.y - b.y)
}

/// The straight-line distance between two points, rounded down to a whole unit.
pub open spec fn spec_distance(a: Point, b: Point) -> int {
    floor_sqrt(distance_squared(a, b))
}

/// Euclidean distance between two points within bounds, rounded down.
pub fn distance(a: Point, b: Point) -> (d: u128)
    requires
        a.in_bounds(),
        b.in_bounds(),
    ensures
        d == spec_distance(a, b),
        d < 0x1_0000_0000_0000_0000,
        (d == 0) <==> (a == b),
        d >= a.x - b.x,
        d >= b.x - a.x,
        d >= a.y - b.y,
        d >= b.y - a.y,
{
    let dx: i128 = (a.x as i128) - (b.x as i128);
    let dy: i128 = (a.y as i128) - (b.y as i128);
    let ax: u128 = if dx >= 0 {
        dx as u128
    } else {
        (-dx) as u128
    };
    let ay: u128 = if dy >= 0 {
        dy as u128
    } else {
        (-dy) as u128
    };
    assert(ax * ax <= 0x200_0000_0000 * 0x200_0000_0000 && ax * ax == dx * dx) by (nonlinear_arith)
        requires
            ax <= 0x200_0000_0000,
            ax == dx || ax == -dx,
    ;
    assert(ay * ay <= 0x200_0000_0000 * 0x200_0000_0000 && ay * ay == dy * dy) by (nonlinear_arith)
        requires
            ay <= 0x200_0000_0000,
            ay == dy || ay == -dy,
    ;
    let sum: u128 = ax * ax + ay * ay;
    let d: u128 = isqrt(sum);
    proof {
        assert(sum == distance_squared(a, b));
        if d < ax {
            lemma_square_monotone(d as int + 1, ax as int);
        }
        if d < ay {
            lemma_square_monotone(d as int + 1, ay as int);
        }
        if d == 0 {
            assert((d + 1) * (d + 1) == 1) by (nonlinear_arith)
                requires
                    d == 0,
            ;
            assert(ax == 0 && ay == 0) by (nonlinear_arith)
                requires
                    ax * ax + ay * ay < 1,
                    ax >= 0,
                    ay >= 0,
            ;
        }
        if a == b {
            assert(ax * ax + ay * ay == 0) by (nonlinear_arith)
                requires
                    ax == 0,
                    ay == 0,
            ;
            assert(d == 0) by (nonlinear_arith)
                requires
                    d * d <= 0,
                    d >= 0,
            ;
        }
    }
    d
}

} // verus!
