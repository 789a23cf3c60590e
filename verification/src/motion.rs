//! Targeting and motion: rounding, square roots, velocities aimed at a
//! target, and the distance covered in a tick.

use vstd::prelude::*;
use crate::wall::Point;
use crate::wall::COORD_LIMIT;

verus! {

/// Nanoseconds in one second.
pub const NANOS_PER_SEC: u64 = 1_000_000_000;

/// Denominator of a random fraction: a fraction has 24 bits.
pub const FRACTION_SCALE: u32 = 16_777_216;

/// A velocity, in steps per second along each axis.
#[derive(Clone, Copy, Debug, PartialEq, Eq, Structural)]
pub struct Velocity {
    pub x: i64,
    pub y: i64,
}

impl View for Velocity {
    type V = (int, int);

    /// The components as integers.
    open spec fn view(&self) -> (int, int) {
        (self.x as int, self.y as int)
    }
}

/// The quotient `a / b` rounded towards zero, for a positive `b`.
pub open spec fn trunc_div(a: int, b: int) -> int {
    if a >= 0 {
        a / b
    } else {
        -((-a) / b)
    }
}

/// The nearest value to `a` that an `i64` can hold.
pub open spec fn saturate(a: int) -> int {
    if a < i64::MIN {
        i64::MIN as int
    } else if a > i64::MAX {
        i64::MAX as int
    } else {
        a
    }
}

/// The magnitude of `a`.
pub open spec fn magnitude(a: int) -> int {
    if a < 0 {
        -a
    } else {
        a
    }
}

/// `r` is the square root of `n`, rounded down.
pub open spec fn is_root(n: int, r: int) -> bool {
    0 <= r && r * r <= n < (r + 1) * (r + 1)
}

/// The square root of `n`, rounded down.
pub open spec fn root(n: int) -> int {
    choose|r: int| is_root(n, r)
}

/// A number has at most one rounded-down square root.
pub proof fn lemma_root_unique(n: int, a: int, b: int)
    requires
        is_root(n, a),
        is_root(n, b),
    ensures
        a == b,
{
    if a < b {
        assert((a + 1) * (a + 1) <= b * b) by (nonlinear_arith)
            requires
                0 <= a,
                a + 1 <= b,
        ;
    }
    if b < a {
        assert((b + 1) * (b + 1) <= a * a) by (nonlinear_arith)
            requires
                0 <= b,
                b + 1 <= a,
        ;
    }
}

/// Whatever passes for the rounded-down square root is `root`.
pub proof fn lemma_root_is(n: int, r: int)
    requires
        is_root(n, r),
    ensures
        root(n) == r,
{
    lemma_root_unique(n, r, root(n));
}

/// The square root of `n`, rounded down.
pub fn isqrt(n: u128) -> (r: u64)
    ensures
        is_root(n as int, r as int),
        r == root(n as int),
{
    let mut lo: u128 = 0;
    let mut hi: u128 = 18_446_744_073_709_551_616;
    assert(n < hi * hi) by (nonlinear_arith)
        requires
            hi == 18_446_744_073_709_551_616,
            n <= u128::MAX,
    ;
    while hi - lo > 1
        invariant
            lo < hi <= 18_446_744_073_709_551_616,
            lo * lo <= n < hi * hi,
        decreases hi - lo,
    {
        let mid: u128 = lo + (hi - lo) / 2;
        assert(mid * mid <= 18_446_744_073_709_551_615 * 18_446_744_073_709_551_615)
            by (nonlinear_arith)
            requires
                0 <= mid <= 18_446_744_073_709_551_615,
        ;
        if mid * mid <= n {
            lo = mid;
        } else {
            hi = mid;
        }
    }
    proof {
        assert(hi == lo + 1);
        lemma_root_is(n as int, lo as int);
    }
    lo as u64
}

/// The steps covered in `elapsed` nanoseconds at `speed` steps per second,
/// rounded towards zero.
pub open spec fn travel(speed: int, elapsed: int) -> int {
    trunc_div(speed * elapsed, NANOS_PER_SEC as int)
}

/// The steps covered in `elapsed` nanoseconds at `speed` steps per second.
pub fn travelled(speed: i64, elapsed: u64) -> (steps: i128)
    ensures
        steps == travel(speed as int, elapsed as int),
        speed >= 0 ==> 0 <= steps,
        speed <= 0 ==> steps <= 0,
        -0x4_0000_0000_0000_0000_0000_0000 <= steps <= 0x4_0000_0000_0000_0000_0000_0000,
{
    let product: i128 = product_of(speed, elapsed);
    let steps: i128 = product / (NANOS_PER_SEC as i128);
    steps
}

/// The product of a speed and a time, which fits in 128 bits.
fn product_of(speed: i64, elapsed: u64) -> (product: i128)
    ensures
        product == speed * elapsed,
        speed >= 0 ==> product >= 0,
        speed <= 0 ==> product <= 0,
        -0x8000_0000_0000_0000_0000_0000_0000_0000 < product
            < 0x8000_0000_0000_0000_0000_0000_0000_0000,
{
    assert(-0x8000_0000_0000_0000_0000_0000_0000_0000 < speed * elapsed
        < 0x8000_0000_0000_0000_0000_0000_0000_0000 && (speed >= 0 ==> speed * elapsed >= 0) && (
    speed <= 0 ==> speed * elapsed <= 0)) by (nonlinear_arith)
        requires
            -0x8000_0000_0000_0000 <= speed <= 0x7fff_ffff_ffff_ffff,
            0 <= elapsed <= 0xffff_ffff_ffff_ffff,
    ;
    (speed as i128) * (elapsed as i128)
}

/// The position reached from `pos` after `elapsed` nanoseconds at the given
/// velocity, each axis on its own.
pub open spec fn moved(pos: Point, velocity: Velocity, elapsed: u64) -> (int, int) {
    (
        pos.x + travel(velocity.x as int, elapsed as int),
        pos.y + travel(velocity.y as int, elapsed as int),
    )
}

/// Advances a position by a velocity for the elapsed time. A coordinate that
/// would leave the range of `i64` stops at the range's end.
pub fn integrate(pos: Point, velocity: Velocity, elapsed: u64) -> (next: Point)
    ensures
        next.x == saturate(moved(pos, velocity, elapsed).0),
        next.y == saturate(moved(pos, velocity, elapsed).1),
{
    Point {
        x: narrow((pos.x as i128) + travelled(velocity.x, elapsed)),
        y: narrow((pos.y as i128) + travelled(velocity.y, elapsed)),
    }
}

/// The nearest `i64` to `a`.
pub fn narrow(a: i128) -> (r: i64)
    ensures
        r == saturate(a as int),
{
    if a < i64::MIN as i128 {
        i64::MIN
    } else if a > i64::MAX as i128 {
        i64::MAX
    } else {
        a as i64
    }
}

/// The numerator of the fraction that a random word carries: its upper 24
/// bits.
pub open spec fn fraction(word: u32) -> int {
    word as int / 256
}

/// The speed along one axis: the base speed moved by the fluctuation range
/// times `1/2 - f`, where `f` is the word's fraction, rounded towards zero.
pub open spec fn axis_speed_of(base: int, range: int, word: u32) -> int {
    base + trunc_div((FRACTION_SCALE / 2 - fraction(word)) * range, FRACTION_SCALE as int)
}

/// The speed along one axis for a random word. It lies within half the
/// fluctuation range of the base speed.
pub fn axis_speed(base: i32, range: u32, word: u32) -> (speed: i64)
    ensures
        speed == axis_speed_of(base as int, range as int, word),
        2 * base - range <= 2 * speed <= 2 * base + range,
{
    let numerator: i64 = (FRACTION_SCALE / 2) as i64 - (word / 256) as i64;
    assert(-8_388_608 < numerator <= 8_388_608);
    assert(-8_388_608 * 0x1_0000_0000 <= numerator * range <= 8_388_608 * 0x1_0000_0000
        && (numerator >= 0 ==> 0 <= numerator * range <= 8_388_608 * range) && (numerator <= 0
        ==> 0 >= numerator * range >= -8_388_608 * range)) by (nonlinear_arith)
        requires
            -8_388_608 < numerator <= 8_388_608,
            0 <= range < 0x1_0000_0000,
    ;
    let offset: i64 = (numerator * (range as i64)) / (FRACTION_SCALE as i64);
    (base as i64) + offset
}

/// The squared distance between two points.
pub open spec fn distance_sq(a: (int, int), b: (int, int)) -> int {
    (b.0 - a.0) * (b.0 - a.0) + (b.1 - a.1) * (b.1 - a.1)
}

/// The distance between two points, rounded down, and 1 where they are
/// closer than that.
pub open spec fn reach(a: (int, int), b: (int, int)) -> int {
    if root(distance_sq(a, b)) < 1 {
        1
    } else {
        root(distance_sq(a, b))
    }
}

/// The velocity from `origin` towards `target`: along each axis the
/// direction's component, which is the axis' share of the distance, times
/// that axis' own speed.
pub open spec fn aimed(origin: (int, int), target: (int, int), speed_x: int, speed_y: int) -> (
    int,
    int,
) {
    (
        trunc_div((target.0 - origin.0) * speed_x, reach(origin, target)),
        trunc_div((target.1 - origin.1) * speed_y, reach(origin, target)),
    )
}

/// Both coordinates are within the coordinate limit.
pub open spec fn in_range(p: Point) -> bool {
    -COORD_LIMIT <= p.x <= COORD_LIMIT && -COORD_LIMIT <= p.y <= COORD_LIMIT
}

/// Tests whether both coordinates are within the coordinate limit.
pub fn is_in_range(p: Point) -> (ok: bool)
    ensures
        ok == in_range(p),
{
    -COORD_LIMIT <= p.x && p.x <= COORD_LIMIT && -COORD_LIMIT <= p.y && p.y <= COORD_LIMIT
}

/// One component of an aimed velocity is no faster than its axis' speed and
/// points the way of the target, or against it for a negative speed.
pub proof fn lemma_aimed_axis(delta: int, speed: int, dist: int)
    requires
        0 < dist,
        magnitude(delta) <= dist,
    ensures
        magnitude(trunc_div(delta * speed, dist)) <= magnitude(speed),
        delta == 0 ==> trunc_div(delta * speed, dist) == 0,
        (delta >= 0 && speed >= 0) || (delta <= 0 && speed <= 0) ==> trunc_div(
            delta * speed,
            dist,
        ) >= 0,
        (delta >= 0 && speed <= 0) || (delta <= 0 && speed >= 0) ==> trunc_div(
            delta * speed,
            dist,
        ) <= 0,
{
    let a = magnitude(delta);
    let s = magnitude(speed);
    assert(magnitude(delta * speed) == a * s) by (nonlinear_arith)
        requires
            a == magnitude(delta),
            s == magnitude(speed),
    ;
    assert(0 <= (a * s) / dist <= s) by (nonlinear_arith)
        requires
            0 <= a <= dist,
            0 < dist,
            0 <= s,
    ;
    assert((delta >= 0 && speed >= 0) || (delta <= 0 && speed <= 0) ==> delta * speed >= 0)
        by (nonlinear_arith);
    assert((delta >= 0 && speed <= 0) || (delta <= 0 && speed >= 0) ==> delta * speed <= 0)
        by (nonlinear_arith);
    assert(delta == 0 ==> delta * speed == 0) by (nonlinear_arith);
    assert(0int / dist == 0) by (nonlinear_arith)
        requires
            0 < dist,
    ;
}

/// Neither leg of the way to the target is longer than the distance.
pub proof fn lemma_leg_within_reach(origin: (int, int), target: (int, int))
    ensures
        0 < reach(origin, target),
        magnitude(target.0 - origin.0) <= reach(origin, target),
        magnitude(target.1 - origin.1) <= reach(origin, target),
{
    let dx = target.0 - origin.0;
    let dy = target.1 - origin.1;
    let n = distance_sq(origin, target);
    assert(0 <= dx * dx && 0 <= dy * dy) by (nonlinear_arith);
    lemma_root_exists(n);
    let r = root(n);
    assert(magnitude(dx) <= r) by (nonlinear_arith)
        requires
            dx * dx <= n,
            n < (r + 1) * (r + 1),
            0 <= r,
    ;
    assert(magnitude(dy) <= r) by (nonlinear_arith)
        requires
            dy * dy <= n,
            n < (r + 1) * (r + 1),
            0 <= r,
    ;
}

/// Every number from 0 on has a rounded-down square root.
pub proof fn lemma_root_exists(n: int)
    requires
        0 <= n,
    ensures
        is_root(n, root(n)),
    decreases n,
{
    if n == 0 {
        assert(is_root(0, 0));
    } else {
        lemma_root_exists(n - 1);
        let r = root(n - 1);
        if (r + 1) * (r + 1) <= n {
            assert(n == (r + 1) * (r + 1));
            assert(n < (r + 2) * (r + 2)) by (nonlinear_arith)
                requires
                    n == (r + 1) * (r + 1),
                    0 <= r,
            ;
            assert(is_root(n, r + 1));
        } else {
            assert(is_root(n, r));
        }
    }
}

/// For every pair of points and every pair of axis speeds, each component of
/// the aimed velocity is at most as fast as its axis' speed, is zero where
/// the target lies straight along the other axis, and for a speed that is
/// not negative has the sign of the way to the target.
pub proof fn lemma_aimed_within_speed(
    origin: (int, int),
    target: (int, int),
    speed_x: int,
    speed_y: int,
)
    ensures
        magnitude(aimed(origin, target, speed_x, speed_y).0) <= magnitude(speed_x),
        magnitude(aimed(origin, target, speed_x, speed_y).1) <= magnitude(speed_y),
        target.0 == origin.0 ==> aimed(origin, target, speed_x, speed_y).0 == 0,
        target.1 == origin.1 ==> aimed(origin, target, speed_x, speed_y).1 == 0,
        speed_x >= 0 && target.0 >= origin.0 ==> aimed(origin, target, speed_x, speed_y).0 >= 0,
        speed_x >= 0 && target.0 <= origin.0 ==> aimed(origin, target, speed_x, speed_y).0 <= 0,
        speed_y >= 0 && target.1 >= origin.1 ==> aimed(origin, target, speed_x, speed_y).1 >= 0,
        speed_y >= 0 && target.1 <= origin.1 ==> aimed(origin, target, speed_x, speed_y).1 <= 0,
{
    lemma_leg_within_reach(origin, target);
    lemma_aimed_axis(target.0 - origin.0, speed_x, reach(origin, target));
    lemma_aimed_axis(target.1 - origin.1, speed_y, reach(origin, target));
}

/// The velocity from `origin` towards `target` with the given speed along
/// each axis. Where the two points coincide the velocity is zero.
pub fn aim(origin: Point, target: Point, speed_x: i64, speed_y: i64) -> (velocity: Velocity)
    requires
        in_range(origin),
        in_range(target),
        speed_x > i64::MIN,
        speed_y > i64::MIN,
    ensures
        velocity@ == aimed(origin@, target@, speed_x as int, speed_y as int),
        magnitude(velocity.x as int) <= magnitude(speed_x as int),
        magnitude(velocity.y as int) <= magnitude(speed_y as int),
{
    let dx: i128 = (target.x as i128) - (origin.x as i128);
    let dy: i128 = (target.y as i128) - (origin.y as i128);
    assert(0 <= dx * dx <= 4 * COORD_LIMIT * COORD_LIMIT) by (nonlinear_arith)
        requires
            -2 * COORD_LIMIT <= dx <= 2 * COORD_LIMIT,
    ;
    assert(0 <= dy * dy <= 4 * COORD_LIMIT * COORD_LIMIT) by (nonlinear_arith)
        requires
            -2 * COORD_LIMIT <= dy <= 2 * COORD_LIMIT,
    ;
    let square: u128 = (dx * dx + dy * dy) as u128;
    let rooted: u64 = isqrt(square);
    let dist: i128 = if rooted < 1 {
        1
    } else {
        rooted as i128
    };
    proof {
        assert(square == distance_sq(origin@, target@));
        assert(dist == reach(origin@, target@));
        lemma_leg_within_reach(origin@, target@);
        lemma_aimed_axis(dx as int, speed_x as int, dist as int);
        lemma_aimed_axis(dy as int, speed_y as int, dist as int);
        assert(-0x4000_0000_0000_0000_0000_0000_0000_0000 < dx * speed_x
            < 0x4000_0000_0000_0000_0000_0000_0000_0000) by (nonlinear_arith)
            requires
                -2 * COORD_LIMIT <= dx <= 2 * COORD_LIMIT,
                -0x8000_0000_0000_0000 <= speed_x <= 0x8000_0000_0000_0000,
        ;
        assert(-0x4000_0000_0000_0000_0000_0000_0000_0000 < dy * speed_y
            < 0x4000_0000_0000_0000_0000_0000_0000_0000) by (nonlinear_arith)
            requires
                -2 * COORD_LIMIT <= dy <= 2 * COORD_LIMIT,
                -0x8000_0000_0000_0000 <= speed_y <= 0x8000_0000_0000_0000,
        ;
    }
    let vx: i128 = (dx * (speed_x as i128)) / dist;
    let vy: i128 = (dy * (speed_y as i128)) / dist;
    Velocity { x: vx as i64, y: vy as i64 }
}

} // verus!
