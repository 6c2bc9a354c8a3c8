//! Fixed-point numbers and the two-dimensional vectors built from them.

use vstd::prelude::*;

verus! {

/// The integer that stands for `1.0`.
pub const SCALE: i64 = 1_000_000;

/// Largest magnitude of a coordinate of a position or of a stored velocity.
pub const COORD_MAX: i64 = 1_000_000_000_000;

/// Largest visual or protected range.
pub const RANGE_MAX: i64 = 10_000_000_000;

/// Largest speed limit.
pub const SPEED_MAX: i64 = 1_000_000_000;

/// Largest steering factor (`10.0`).
pub const FACTOR_MAX: i64 = 10_000_000;

/// Largest number of agents in a flock.
pub const FLOCK_MAX: usize = 1_000_000;

/// Largest magnitude of a velocity coordinate between two steering steps.
pub const WIDE_MAX: i64 = 500_000_000_000_000_000;

/// The magnitude of an integer.
pub open spec fn magnitude(x: int) -> int {
    if x < 0 {
        -x
    } else {
        x
    }
}

/// The quotient `p / d` rounded toward zero, for a positive divisor.
pub open spec fn toward_zero(p: int, d: int) -> int {
    if p >= 0 {
        p / d
    } else {
        -((-p) / d)
    }
}

/// The fixed-point product of `a` and the factor `f`, rounded toward zero.
pub open spec fn scaled(a: int, f: int) -> int {
    toward_zero(a * f, SCALE as int)
}

/// A quotient rounded toward zero is no larger in magnitude than the exact one.
pub proof fn lemma_toward_zero_bound(p: int, d: int, b: int)
    requires
        d > 0,
        b >= 0,
        magnitude(p) <= b * d,
    ensures
        magnitude(toward_zero(p, d)) <= b,
        p >= 0 ==> toward_zero(p, d) >= 0,
        p <= 0 ==> toward_zero(p, d) <= 0,
{
    let m: int = magnitude(p);
    assert(0 <= m / d <= b) by (nonlinear_arith)
        requires
            d > 0,
            b >= 0,
            0 <= m <= b * d,
    ;
}

/// A fixed-point product is bounded by the product of the bounds.
pub proof fn lemma_scaled_bound(a: int, f: int, amax: int, fmax: int)
    requires
        magnitude(a) <= amax,
        magnitude(f) <= fmax,
    ensures
        magnitude(a * f) <= amax * fmax,
        magnitude(scaled(a, f)) * SCALE <= amax * fmax,
{
    let p: int = a * f;
    assert(magnitude(p) <= amax * fmax) by (nonlinear_arith)
        requires
            p == a * f,
            magnitude(a) <= amax,
            magnitude(f) <= fmax,
    ;
    let m: int = magnitude(p);
    assert((m / (SCALE as int)) * SCALE <= m) by (nonlinear_arith)
        requires
            m >= 0,
    ;
}

/// Zero times any factor is zero.
pub proof fn lemma_scaled_zero(f: int)
    ensures
        scaled(0, f) == 0,
{
    assert(0 * f == 0) by (nonlinear_arith);
}

/// A vector of two fixed-point coordinates.
#[derive(Clone, Copy, Debug, PartialEq, Eq, Structural)]
pub struct Vec2 {
    pub x: i64,
    pub y: i64,
}

/// The mathematical vector that a `Vec2` stands for.
pub struct Vec2View {
    pub x: int,
    pub y: int,
}

impl View for Vec2 {
    type V = Vec2View;

    open spec fn view(&self) -> Vec2View {
        Vec2View { x: self.x as int, y: self.y as int }
    }
}

impl Vec2View {
    /// The zero vector.
    pub open spec fn zero() -> Vec2View {
        Vec2View { x: 0, y: 0 }
    }

    /// The sum of two vectors.
    pub open spec fn plus(self, other: Vec2View) -> Vec2View {
        Vec2View { x: self.x + other.x, y: self.y + other.y }
    }

    /// The difference of two vectors.
    pub open spec fn minus(self, other: Vec2View) -> Vec2View {
        Vec2View { x: self.x - other.x, y: self.y - other.y }
    }

    /// The vector times a fixed-point factor, each coordinate rounded toward zero.
    pub open spec fn times(self, factor: int) -> Vec2View {
        Vec2View { x: scaled(self.x, factor), y: scaled(self.y, factor) }
    }

    /// The vector divided by a positive count, each coordinate rounded toward zero.
    pub open spec fn shared_by(self, count: int) -> Vec2View {
        Vec2View { x: toward_zero(self.x, count), y: toward_zero(self.y, count) }
    }

    /// The square of the vector's length.
    pub open spec fn norm_sq(self) -> int {
        self.x * self.x + self.y * self.y
    }

    /// Both coordinates lie within `limit` of zero.
    pub open spec fn within(self, limit: int) -> bool {
        &&& -limit <= self.x <= limit
        &&& -limit <= self.y <= limit
    }
}

impl Vec2 {
    /// The vector with the given coordinates.
    pub fn new(x: i64, y: i64) -> (v: Vec2)
        ensures
            v.x == x,
            v.y == y,
    {
        Vec2 { x, y }
    }

    /// The zero vector.
    pub fn zero() -> (v: Vec2)
        ensures
            v@ == Vec2View::zero(),
    {
        Vec2 { x: 0, y: 0 }
    }
}

/// The fixed-point product of `a` and `f`, rounded toward zero.
pub fn mul_scaled(a: i64, f: i64) -> (r: i64)
    requires
        i64::MIN <= scaled(a as int, f as int) <= i64::MAX,
    ensures
        r == scaled(a as int, f as int),
{
    let wide_a: i128 = a as i128;
    let wide_f: i128 = f as i128;
    assert(-0x4000_0000_0000_0000_0000_0000_0000_0000 <= wide_a * wide_f
        <= 0x4000_0000_0000_0000_0000_0000_0000_0000) by (nonlinear_arith)
        requires
            -0x8000_0000_0000_0000 <= wide_a <= 0x8000_0000_0000_0000,
            -0x8000_0000_0000_0000 <= wide_f <= 0x8000_0000_0000_0000,
    ;
    let product: i128 = wide_a * wide_f;
    let quotient: i128 = product / (SCALE as i128);
    quotient as i64
}

} // verus!
