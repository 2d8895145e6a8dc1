//! Fixed-point plane geometry: milli-unit vectors, an exact integer square
//! root, and the truncating scaled division that steering and clamping use.

use vstd::prelude::*;

verus! {

/// Every coordinate and velocity component the simulation stores stays within
/// this bound (one hundred thousand world units), so products of two such
/// quantities never overflow an `i64`.
pub const COORD_LIMIT_MILLI: i64 = 100_000_000;

/// A point or vector of the arena plane, in milli-units.
#[derive(Clone, Copy, PartialEq, Eq, Structural, Debug)]
pub struct Vec2I {
    pub x: i64,
    pub y: i64,
}

impl Vec2I {
    pub open spec fn spec_in_bounds(self) -> bool {
        -COORD_LIMIT_MILLI <= self.x <= COORD_LIMIT_MILLI
            && -COORD_LIMIT_MILLI <= self.y <= COORD_LIMIT_MILLI
    }

    /// Squared Euclidean length, exact in the integers.
    pub open spec fn spec_len2(self) -> int {
        self.x * self.x + self.y * self.y
    }

    /// Componentwise difference.
    pub fn sub(self, other: Vec2I) -> (r: Vec2I)
        requires
            self.spec_in_bounds(),
            other.spec_in_bounds(),
        ensures
            r.x == self.x - other.x,
            r.y == self.y - other.y,
    {
        Vec2I { x: self.x - other.x, y: self.y - other.y }
    }

    /// Squared length as an exec value; the relaxed bound admits differences
    /// and sums of in-bounds vectors.
    pub fn len2(self) -> (r: u64)
        requires
            -500_000_000 <= self.x <= 500_000_000,
            -500_000_000 <= self.y <= 500_000_000,
        ensures
            r == self.spec_len2(),
    {
        proof {
            lemma_square_bound(self.x as int, 500_000_000);
            lemma_square_bound(self.y as int, 500_000_000);
        }
        let xx: i64 = self.x * self.x;
        let yy: i64 = self.y * self.y;
        (xx + yy) as u64
    }
}

/// Squared distance between two points, exact in the integers.
pub open spec fn spec_dist2(a: Vec2I, b: Vec2I) -> int {
    (a.x - b.x) * (a.x - b.x) + (a.y - b.y) * (a.y - b.y)
}

/// Squared distance between two in-bounds points.
pub fn dist2(a: Vec2I, b: Vec2I) -> (r: u64)
    requires
        a.spec_in_bounds(),
        b.spec_in_bounds(),
    ensures
        r == spec_dist2(a, b),
{
    let d: Vec2I = a.sub(b);
    d.len2()
}

/// `|a| <= b` bounds the square of `a` by the square of `b`.
pub proof fn lemma_square_bound(a: int, b: int) by (nonlinear_arith)
    requires
        -b <= a <= b,
    ensures
        0 <= a * a <= b * b,
{
}

/// The integer square root: the unique `r` with `r * r <= n < (r + 1) * (r + 1)`.
pub open spec fn sqrt_floor(n: int) -> int {
    choose|r: int| 0 <= r && #[trigger] (r * r) <= n < (r + 1) * (r + 1)
}

/// A square root floor exists for every natural number.
pub proof fn lemma_sqrt_floor_exists(n: int)
    requires
        0 <= n,
    ensures
        0 <= sqrt_floor(n),
        sqrt_floor(n) * sqrt_floor(n) <= n,
        n < (sqrt_floor(n) + 1) * (sqrt_floor(n) + 1),
    decreases n,
{
    if n == 0 {
        assert(0 * 0 <= 0 < (0 + 1) * (0 + 1)) by (nonlinear_arith);
        assert(0 <= 0 && 0 * 0 <= n < (0 + 1) * (0 + 1));
    } else {
        lemma_sqrt_floor_exists(n - 1);
        let r = sqrt_floor(n - 1);
        if (r + 1) * (r + 1) == n {
            assert((r + 1) * (r + 1) <= n < (r + 2) * (r + 2)) by (nonlinear_arith)
                requires
                    0 <= r,
                    (r + 1) * (r + 1) == n,
            ;
            assert(0 <= r + 1 && (r + 1) * (r + 1) <= n < (r + 1 + 1) * (r + 1 + 1));
        } else {
            assert(r * r <= n < (r + 1) * (r + 1));
        }
    }
}

/// Any two candidates for the square root floor agree.
pub proof fn lemma_sqrt_floor_unique(n: int, r: int)
    requires
        0 <= r,
        r * r <= n,
        n < (r + 1) * (r + 1),
    ensures
        r == sqrt_floor(n),
{
    lemma_sqrt_floor_exists(n);
    let s = sqrt_floor(n);
    assert(r == s) by (nonlinear_arith)
        requires
            0 <= r,
            0 <= s,
            r * r <= n < (r + 1) * (r + 1),
            s * s <= n < (s + 1) * (s + 1),
    ;
}

/// Binary search for the integer square root of a `u64`.
pub fn isqrt(n: u64) -> (r: u64)
    ensures
        r == sqrt_floor(n as int),
        r * r <= n,
        n < (r + 1) * (r + 1),
{
    let mut lo: u64 = 0;
    let mut hi: u64 = 4_294_967_295;
    proof {
        assert((4_294_967_295u64 + 1) * (4_294_967_295u64 + 1) > u64::MAX) by (nonlinear_arith);
    }
    while lo < hi
        invariant
            lo <= hi <= 4_294_967_295,
            lo * lo <= n,
            n < (hi + 1) * (hi + 1),
        decreases hi - lo,
    {
        let mid: u64 = lo + (hi - lo + 1) / 2;
        proof {
            assert((mid as int) * (mid as int) <= 4_294_967_295 * 4_294_967_295)
                by (nonlinear_arith)
                requires
                    0 <= mid <= 4_294_967_295,
            ;
        }
        let sq: u128 = (mid as u128) * (mid as u128);
        if sq <= n as u128 {
            lo = mid;
        } else {
            hi = mid - 1;
        }
    }
    proof {
        lemma_sqrt_floor_unique(n as int, lo as int);
    }
    lo
}

/// The exact value of a truncating scaled division `a * num / den`, computed
/// on the magnitude of `a` so that the sign never reaches the division.
pub open spec fn spec_div_scale(a: int, num: int, den: int) -> int {
    if a >= 0 {
        (a * num) / den
    } else {
        -(((-a) * num) / den)
    }
}

/// Division of naturals cannot grow the dividend.
proof fn lemma_div_le_dividend(x: int, d: int) by (nonlinear_arith)
    requires
        0 <= x,
        1 <= d,
    ensures
        0 <= x / d <= x,
{
}

/// Scaling by `num / den` on magnitudes: `|result| <= |a| * num / den` holds
/// exactly, and when `num <= den` the result is no larger than `|a|`.
pub fn div_scale(a: i64, num: u64, den: u64) -> (r: i64)
    requires
        1 <= den,
        a != i64::MIN,
        (if a >= 0 { a as int } else { -(a as int) }) * num <= i64::MAX,
    ensures
        r == spec_div_scale(a as int, num as int, den as int),
        a >= 0 ==> 0 <= r <= (a as int) * (num as int) / (den as int),
        a < 0 ==> 0 >= r >= -((-(a as int)) * (num as int) / (den as int)),
{
    let mag: u64 = if a >= 0 { a as u64 } else { (-a) as u64 };
    proof {
        lemma_div_le_dividend(mag as int * num as int, den as int);
    }
    let scaled: u64 = mag * num / den;
    if a >= 0 {
        scaled as i64
    } else {
        -(scaled as i64)
    }
}

/// Clamp `v` into `[lo, hi]`.
pub open spec fn spec_clamp(v: int, lo: int, hi: int) -> int {
    if v < lo {
        lo
    } else if v > hi {
        hi
    } else {
        v
    }
}

pub fn clamp_i64(v: i64, lo: i64, hi: i64) -> (r: i64)
    requires
        lo <= hi,
    ensures
        r == spec_clamp(v as int, lo as int, hi as int),
        lo <= r <= hi,
{
    if v < lo {
        lo
    } else if v > hi {
        hi
    } else {
        v
    }
}

/// A component is bounded by the floor square root of any bound on its
/// square.
pub proof fn lemma_abs_le_sqrt(x: int, n: int, l: int) by (nonlinear_arith)
    requires
        0 <= l,
        x * x <= n,
        n < (l + 1) * (l + 1),
    ensures
        -l <= x <= l,
{
}

/// Scaling a magnitude no larger than the divisor cannot exceed the factor.
pub proof fn lemma_scale_within(a: int, num: int, den: int) by (nonlinear_arith)
    requires
        0 <= a <= den,
        1 <= den,
        0 <= num,
    ensures
        0 <= (a * num) / den <= num,
{
}

/// Both components of `d` are bounded by the floor square root of its
/// squared length, and a scaled division by that root stays within the
/// factor.
pub proof fn lemma_aim_component_bound(d: Vec2I, speed: int, len: int)
    requires
        1 <= len,
        d.spec_len2() < (len + 1) * (len + 1),
        0 <= speed <= 400_000_000,
        -500_000_000 <= d.x <= 500_000_000,
        -500_000_000 <= d.y <= 500_000_000,
    ensures
        -len <= d.x <= len,
        -len <= d.y <= len,
        (if d.x >= 0 { d.x as int } else { -(d.x as int) }) * speed <= i64::MAX,
        (if d.y >= 0 { d.y as int } else { -(d.y as int) }) * speed <= i64::MAX,
        -speed <= spec_div_scale(d.x as int, speed, len) <= speed,
        -speed <= spec_div_scale(d.y as int, speed, len) <= speed,
{
    assert(d.x * d.x <= d.spec_len2() && d.y * d.y <= d.spec_len2()) by (nonlinear_arith);
    lemma_abs_le_sqrt(d.x as int, d.spec_len2(), len);
    lemma_abs_le_sqrt(d.y as int, d.spec_len2(), len);
    assert((if d.x >= 0 { d.x as int } else { -(d.x as int) }) * speed
        <= 200_000_000_000_000_000) by (nonlinear_arith)
        requires
            -500_000_000 <= d.x <= 500_000_000,
            0 <= speed <= 400_000_000,
    ;
    assert((if d.y >= 0 { d.y as int } else { -(d.y as int) }) * speed
        <= 200_000_000_000_000_000) by (nonlinear_arith)
        requires
            -500_000_000 <= d.y <= 500_000_000,
            0 <= speed <= 400_000_000,
    ;
    lemma_scale_within(if d.x >= 0 { d.x as int } else { -(d.x as int) }, speed, len);
    lemma_scale_within(if d.y >= 0 { d.y as int } else { -(d.y as int) }, speed, len);
}

/// The direction of `d`, scaled to (at most) the given magnitude: each
/// component is `d * speed / len` for `len` the floor length of `d`. The
/// zero vector aims nowhere and yields the zero velocity.
pub open spec fn spec_aim(d: Vec2I, speed: int) -> Vec2I {
    let len = sqrt_floor(d.spec_len2());
    if len <= 0 {
        Vec2I { x: 0, y: 0 }
    } else {
        Vec2I {
            x: spec_div_scale(d.x as int, speed, len) as i64,
            y: spec_div_scale(d.y as int, speed, len) as i64,
        }
    }
}

/// Scale the direction of `d` to the magnitude `speed_milli`; used for the
/// initial velocity of a spawned enemy and for shots.
pub fn aim_velocity(d: Vec2I, speed_milli: i64) -> (r: Vec2I)
    requires
        -2 * COORD_LIMIT_MILLI <= d.x <= 2 * COORD_LIMIT_MILLI,
        -2 * COORD_LIMIT_MILLI <= d.y <= 2 * COORD_LIMIT_MILLI,
        0 <= speed_milli <= COORD_LIMIT_MILLI,
    ensures
        r == spec_aim(d, speed_milli as int),
        -speed_milli <= r.x <= speed_milli,
        -speed_milli <= r.y <= speed_milli,
        r.spec_in_bounds(),
{
    let n: u64 = d.len2();
    let len: u64 = isqrt(n);
    if len == 0 {
        Vec2I { x: 0, y: 0 }
    } else {
        proof {
            lemma_aim_component_bound(d, speed_milli as int, len as int);
        }
        Vec2I {
            x: div_scale(d.x, speed_milli as u64, len),
            y: div_scale(d.y, speed_milli as u64, len),
        }
    }
}

/// The steering gain: an enemy accelerates toward the player at 100 units
/// per second squared along the unit direction.
pub const STEERING_GAIN: u64 = 100;

/// The change of velocity from one tick of steering toward `d`: the unit
/// direction times the gain times the tick delta. A zero direction applies
/// no force.
pub open spec fn spec_steer_delta(d: Vec2I, dt_ms: int) -> Vec2I {
    spec_aim(d, STEERING_GAIN * dt_ms)
}

/// One tick's steering force toward `d`.
pub fn steer_delta(d: Vec2I, dt_ms: u64) -> (r: Vec2I)
    requires
        -2 * COORD_LIMIT_MILLI <= d.x <= 2 * COORD_LIMIT_MILLI,
        -2 * COORD_LIMIT_MILLI <= d.y <= 2 * COORD_LIMIT_MILLI,
        dt_ms <= 3_600_000,
    ensures
        r == spec_steer_delta(d, dt_ms as int),
        -(STEERING_GAIN * dt_ms) <= r.x <= STEERING_GAIN * dt_ms,
        -(STEERING_GAIN * dt_ms) <= r.y <= STEERING_GAIN * dt_ms,
{
    let n: u64 = d.len2();
    let len: u64 = isqrt(n);
    if len == 0 {
        Vec2I { x: 0, y: 0 }
    } else {
        proof {
            lemma_aim_component_bound(d, STEERING_GAIN as int * dt_ms as int, len as int);
        }
        Vec2I {
            x: div_scale(d.x, STEERING_GAIN * dt_ms, len),
            y: div_scale(d.y, STEERING_GAIN * dt_ms, len),
        }
    }
}

/// A velocity clamped to the magnitude `max`: unchanged when its floor
/// length is within `max`, else scaled down by `max / len` componentwise.
pub open spec fn spec_clamp_len(v: Vec2I, max: int) -> Vec2I {
    let len = sqrt_floor(v.spec_len2());
    if len <= max {
        v
    } else {
        Vec2I {
            x: spec_div_scale(v.x as int, max, len) as i64,
            y: spec_div_scale(v.y as int, max, len) as i64,
        }
    }
}

/// Clamp a velocity's magnitude to at most `max_milli`; the result's
/// components always stay within `max_milli`, or within their own prior
/// magnitude when no clamping happens.
pub fn clamp_len(v: Vec2I, max_milli: i64) -> (r: Vec2I)
    requires
        -5 * COORD_LIMIT_MILLI <= v.x <= 5 * COORD_LIMIT_MILLI,
        -5 * COORD_LIMIT_MILLI <= v.y <= 5 * COORD_LIMIT_MILLI,
        0 <= max_milli <= COORD_LIMIT_MILLI,
    ensures
        r == spec_clamp_len(v, max_milli as int),
        -max_milli <= r.x <= max_milli,
        -max_milli <= r.y <= max_milli,
        r.spec_in_bounds(),
{
    let n: u64 = v.len2();
    let len: u64 = isqrt(n);
    if len <= max_milli as u64 {
        proof {
            assert(v.x * v.x <= v.spec_len2() && v.y * v.y <= v.spec_len2())
                by (nonlinear_arith);
            lemma_abs_le_sqrt(v.x as int, v.spec_len2(), len as int);
            lemma_abs_le_sqrt(v.y as int, v.spec_len2(), len as int);
        }
        v
    } else {
        proof {
            lemma_aim_component_bound(v, max_milli as int, len as int);
        }
        Vec2I {
            x: div_scale(v.x, max_milli as u64, len),
            y: div_scale(v.y, max_milli as u64, len),
        }
    }
}

} // verus!
