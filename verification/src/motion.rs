//! The motion law of an enemy: convergence onto, then travel along, the
//! elliptical orbit of its formation.
//!
//! Sines and cosines are not computed here. The caller supplies them for the
//! candidate angle, as whole millionths.

use vstd::prelude::*;
use crate::clock::{MAX_STEP, MICROS_PER_SECOND};
use crate::formation::{normalized_angle, Formation, FULL_TURN};
use crate::geometry::{
    distance,
    distance_squared,
    lemma_floor_sqrt_zero,
    spec_distance,
    trunc_div,
    Point,
    COORD_LIMIT,
    UNITS_PER_PIXEL,
};

verus! {

/// Largest speed of an entity, in position units per second.
pub const SPEED_LIMIT: i64 = 0x1_0000_0000;

/// The value that stands for 1 in a sine or cosine.
pub const TRIG_ONE: i64 = 1_000_000;

/// Pi, in microradians.
pub const HALF_TURN: i64 = 3_141_593;

/// Divisor of the tolerance within which an enemy counts as having reached its destination.
pub const TOLERANCE_DIVISOR: i64 = 20;

/// A speed that the motion law accepts.
pub open spec fn speed_ok(speed: i64) -> bool {
    0 <= speed <= SPEED_LIMIT
}

/// A length of step, in microseconds, that the motion law accepts.
pub open spec fn step_ok(step: u64) -> bool {
    step <= MAX_STEP
}

/// The distance covered at `speed` in a step of `step` microseconds.
pub open spec fn step_length(speed: i64, step: u64) -> int {
    (speed * step) / (MICROS_PER_SECOND as int)
}

/// +1 for a formation that entered from the right, -1 for one from the left.
pub open spec fn direction(f: Formation) -> int {
    if f.start.x > 0 {
        1
    } else {
        -1
    }
}

/// The smaller semi-axis of the orbit.
pub open spec fn minor_radius(f: Formation) -> int {
    if f.radius.x <= f.radius.y {
        f.radius.x as int
    } else {
        f.radius.y as int
    }
}

/// The advance of the phase in one step, in microradians: the step length
/// over `r * pi / 2`, where `r` is the minor radius.
pub open spec fn angle_step(f: Formation, speed: i64, step: u64) -> int {
    (step_length(speed, step) * 2 * TRIG_ONE * TRIG_ONE) / (minor_radius(f) * HALF_TURN)
}

/// The phase that the formation would have after one more step.
pub open spec fn candidate_angle(f: Formation, speed: i64, step: u64) -> int {
    normalized_angle(f.angle + direction(f) * angle_step(f, speed, step))
}

/// A sine or cosine forced into [-1, 1].
pub open spec fn clamp_unit(v: i64) -> int {
    if v < -TRIG_ONE {
        -TRIG_ONE as int
    } else if v > TRIG_ONE {
        TRIG_ONE as int
    } else {
        v as int
    }
}

/// The point of the orbit at the phase whose cosine and sine are `cos` and `sin`.
pub open spec fn destination(f: Formation, cos: i64, sin: i64) -> Point {
    Point {
        x: (trunc_div(f.radius.x * clamp_unit(cos), TRIG_ONE as int) + f.offset.x) as i64,
        y: (trunc_div(f.radius.y * clamp_unit(sin), TRIG_ONE as int) + f.offset.y) as i64,
    }
}

/// The distance below which an enemy counts as having reached its
/// destination: the step length times the speed in pixels, over `TOLERANCE_DIVISOR`.
pub open spec fn tolerance(speed: i64, step: u64) -> int {
    (step_length(speed, step) * speed) / (TOLERANCE_DIVISOR * UNITS_PER_PIXEL) as int
}

/// One coordinate after a step from `from` toward `to`, when the points are
/// `dist` apart and `travel` may be covered: the coordinate moves by its
/// share `travel / dist` of the way and does not pass `to`. At distance zero
/// the share is zero.
pub open spec fn approach(from: int, to: int, travel: int, dist: int) -> int {
    let delta = from - to;
    let moved = if dist == 0 {
        from
    } else {
        from - trunc_div(delta * travel, dist)
    };
    if delta > 0 {
        if moved >= to {
            moved
        } else {
            to
        }
    } else {
        if moved <= to {
            moved
        } else {
            to
        }
    }
}

/// The position after one step from `from` toward `to` at `speed`.
pub open spec fn stepped(from: Point, to: Point, speed: i64, step: u64) -> Point {
    let dist = spec_distance(from, to);
    Point {
        x: approach(from.x as int, to.x as int, step_length(speed, step), dist) as i64,
        y: approach(from.y as int, to.y as int, step_length(speed, step), dist) as i64,
    }
}

/// Whether a step from `from` toward `to` at `speed` commits the candidate angle.
pub open spec fn arrives(from: Point, to: Point, speed: i64, step: u64) -> bool {
    spec_distance(from, to) < tolerance(speed, step)
}

/// The distance covered at `speed` in a step of `step` microseconds.
pub fn travel(speed: i64, step: u64) -> (t: i64)
    requires
        speed_ok(speed),
        step_ok(step),
    ensures
        t == step_length(speed, step),
        0 <= t <= speed,
{
    proof {
        assert(0 <= speed * step <= speed * 1_000_000) by (nonlinear_arith)
            requires
                0 <= speed,
                0 <= step <= 1_000_000,
        ;
    }
    let product: i128 = (speed as i128) * (step as i128);
    let t: i128 = product / (MICROS_PER_SECOND as i128);
    t as i64
}

/// The phase that the formation `f` would have after one more step at `speed`.
pub fn next_angle(f: &Formation, speed: i64, step: u64) -> (angle: i64)
    requires
        f.valid(),
        speed_ok(speed),
        step_ok(step),
    ensures
        angle == candidate_angle(*f, speed, step),
        -FULL_TURN < angle < FULL_TURN,
{
    let length: i128 = travel(speed, step) as i128;
    let minor: i128 = if f.radius.x <= f.radius.y {
        f.radius.x as i128
    } else {
        f.radius.y as i128
    };
    let scaled: i128 = length * 2 * (TRIG_ONE as i128) * (TRIG_ONE as i128);
    let turn: i128 = scaled / (minor * (HALF_TURN as i128));
    proof {
        assert(0 <= turn <= scaled) by (nonlinear_arith)
            requires
                turn == (scaled as int) / (minor * HALF_TURN),
                0 <= scaled,
                1 <= minor * HALF_TURN,
        ;
    }
    let raw: i128 = if f.start.x > 0 {
        (f.angle as i128) + turn
    } else {
        (f.angle as i128) - turn
    };
    let angle: i128 = raw % (FULL_TURN as i128);
    angle as i64
}

/// The point of the orbit of `f` at the phase with the given cosine and sine.
pub fn orbit_point(f: &Formation, cos: i64, sin: i64) -> (p: Point)
    requires
        f.valid(),
    ensures
        p == destination(*f, cos, sin),
        p.in_bounds(),
{
    let c: i64 = if cos < -TRIG_ONE {
        -TRIG_ONE
    } else if cos > TRIG_ONE {
        TRIG_ONE
    } else {
        cos
    };
    let s: i64 = if sin < -TRIG_ONE {
        -TRIG_ONE
    } else if sin > TRIG_ONE {
        TRIG_ONE
    } else {
        sin
    };
    let x: i64 = scale_by(f.radius.x, c) + f.offset.x;
    let y: i64 = scale_by(f.radius.y, s) + f.offset.y;
    Point { x, y }
}

/// `radius` times the fraction `part / TRIG_ONE`, rounded toward zero.
fn scale_by(radius: i64, part: i64) -> (r: i64)
    requires
        1 <= radius <= COORD_LIMIT,
        -TRIG_ONE <= part <= TRIG_ONE,
    ensures
        r == trunc_div(radius * part, TRIG_ONE as int),
        -radius <= r <= radius,
{
    proof {
        assert(-radius * TRIG_ONE <= radius * part <= radius * TRIG_ONE) by (nonlinear_arith)
            requires
                1 <= radius,
                -TRIG_ONE <= part <= TRIG_ONE,
        ;
    }
    let product: i64 = radius * part;
    product / TRIG_ONE
}

/// The distance below which an enemy at `speed` counts as having reached its destination.
pub fn arrival_tolerance(speed: i64, step: u64) -> (t: i64)
    requires
        speed_ok(speed),
        step_ok(step),
    ensures
        t == tolerance(speed, step),
        0 <= t,
{
    let length: i64 = travel(speed, step);
    proof {
        assert(0 <= length * speed <= 0x1_0000_0000 * 0x1_0000_0000) by (nonlinear_arith)
            requires
                0 <= length <= speed,
                speed <= 0x1_0000_0000,
        ;
    }
    let product: i128 = (length as i128) * (speed as i128);
    let t: i128 = product / ((TOLERANCE_DIVISOR * UNITS_PER_PIXEL) as i128);
    t as i64
}

/// One coordinate of a step; see `approach`.
fn approach_axis(from: i64, to: i64, travel: i64, dist: u128) -> (r: i64)
    requires
        -COORD_LIMIT <= from <= COORD_LIMIT,
        -COORD_LIMIT <= to <= COORD_LIMIT,
        0 <= travel <= SPEED_LIMIT,
        dist < 0x1_0000_0000_0000_0000,
        dist >= from - to,
        dist >= to - from,
    ensures
        r == approach(from as int, to as int, travel as int, dist as int),
        from <= to ==> from <= r <= to,
        to <= from ==> to <= r <= from,
        from == to ==> r == from,
{
    let delta: i128 = (from as i128) - (to as i128);
    proof {
        assert(-0x200_0000_0000 * 0x1_0000_0000 <= delta * travel <= 0x200_0000_0000
            * 0x1_0000_0000) by (nonlinear_arith)
            requires
                -0x200_0000_0000 <= delta <= 0x200_0000_0000,
                0 <= travel <= 0x1_0000_0000,
        ;
        assert(delta > 0 ==> delta * travel >= 0) by (nonlinear_arith)
            requires
                0 <= travel,
        ;
        assert(delta <= 0 ==> delta * travel <= 0) by (nonlinear_arith)
            requires
                0 <= travel,
        ;
    }
    let moved: i128 = if dist == 0 {
        from as i128
    } else {
        let shift: i128 = (delta * (travel as i128)) / (dist as i128);
        proof {
            let product = delta * travel;
            let d = dist as int;
            if product >= 0 {
                assert(0 <= product / d <= product) by (nonlinear_arith)
                    requires
                        0 <= product,
                        1 <= d,
                ;
            } else {
                assert(0 <= (-product) / d <= -product) by (nonlinear_arith)
                    requires
                        0 <= -product,
                        1 <= d,
                ;
            }
        }
        (from as i128) - shift
    };
    let r: i128 = if delta > 0 {
        if moved >= to as i128 {
            moved
        } else {
            to as i128
        }
    } else {
        if moved <= to as i128 {
            moved
        } else {
            to as i128
        }
    };
    r as i64
}

/// One step of `step` microseconds from `from` toward `to` at `speed`: the
/// new position, and whether the destination counts as reached.
pub fn step_toward(from: Point, to: Point, speed: i64, step: u64) -> (out: (Point, bool))
    requires
        from.in_bounds(),
        to.in_bounds(),
        speed_ok(speed),
        step_ok(step),
    ensures
        out.0 == stepped(from, to, speed, step),
        out.1 == arrives(from, to, speed, step),
        out.0.in_bounds(),
        from == to ==> out.0 == from,
{
    let dist: u128 = distance(from, to);
    let length: i64 = travel(speed, step);
    let x: i64 = approach_axis(from.x, to.x, length, dist);
    let y: i64 = approach_axis(from.y, to.y, length, dist);
    let limit: i64 = arrival_tolerance(speed, step);
    (Point { x, y }, dist < limit as u128)
}

/// A step taken at the destination leaves the position where it is: the
/// distance is zero, so no share of the way is covered.
pub proof fn lemma_step_at_destination(at: Point, speed: i64, step: u64)
    ensures
        spec_distance(at, at) == 0,
        stepped(at, at, speed, step) == at,
{
    assert(distance_squared(at, at) == 0) by (nonlinear_arith)
        requires
            distance_squared(at, at) == (at.x - at.x) * (at.x - at.x) + (at.y - at.y) * (at.y
                - at.y),
    ;
    lemma_floor_sqrt_zero(0);
}

} // verus!
