//! Keeping an agent's speed between the two speed limits.

use vstd::prelude::*;
use crate::fixed::{magnitude, Vec2, Vec2View, SPEED_MAX};
use crate::params::Parameters;
use crate::root::{floor_sqrt, is_floor_sqrt, isqrt, lemma_floor_sqrt_exists, lemma_floor_sqrt_is};

verus! {

/// The magnitude `a` of one coordinate of a vector with squared length
/// `norm_sq`, after the vector is brought to the length `target`: the exact
/// value `a * target / sqrt(norm_sq)`, rounded down.
pub open spec fn rescaled_magnitude(a: int, target: int, norm_sq: int) -> int {
    floor_sqrt(((a * target) * (a * target)) / norm_sq)
}

/// One coordinate of a vector with squared length `norm_sq`, after the vector
/// is brought to the length `target`, rounded toward zero.
pub open spec fn rescaled_coordinate(a: int, target: int, norm_sq: int) -> int {
    if a >= 0 {
        rescaled_magnitude(a, target, norm_sq)
    } else {
        -rescaled_magnitude(-a, target, norm_sq)
    }
}

/// The vector brought to the length `target` without turning it, each
/// coordinate rounded toward zero.
pub open spec fn rescaled(v: Vec2View, target: int) -> Vec2View {
    Vec2View {
        x: rescaled_coordinate(v.x, target, v.norm_sq()),
        y: rescaled_coordinate(v.y, target, v.norm_sq()),
    }
}

/// The velocity with its speed brought between the two limits.  A velocity
/// of zero has no direction and stays as it is.
pub open spec fn clamped(v: Vec2View, min_speed: int, max_speed: int) -> Vec2View {
    let norm_sq = v.norm_sq();
    if norm_sq == 0 {
        v
    } else if norm_sq < min_speed * min_speed {
        rescaled(v, min_speed)
    } else if norm_sq > max_speed * max_speed {
        rescaled(v, max_speed)
    } else {
        v
    }
}

/// The vector one step of resolution longer along each axis.
pub open spec fn lengthened(v: Vec2View) -> Vec2View {
    Vec2View { x: magnitude(v.x) + 1, y: magnitude(v.y) + 1 }
}

/// The speed lies between the two limits, as far as whole steps of
/// resolution allow: it is not above `max_speed`, and one step more along
/// each axis brings it to `min_speed` or above.
pub open spec fn speed_within(v: Vec2View, min_speed: int, max_speed: int) -> bool {
    &&& v.norm_sq() <= max_speed * max_speed
    &&& min_speed * min_speed <= lengthened(v).norm_sq()
}

/// The integer whose square, times `n`, is the last to stay at or under `x`
/// is the rounded-down square root of `x / n`.
proof fn lemma_sqrt_of_quotient(x: int, n: int, r: int)
    requires
        n > 0,
        r >= 0,
        (r * r) * n <= x,
        x < ((r + 1) * (r + 1)) * n,
    ensures
        floor_sqrt(x / n) == r,
{
    let q: int = x / n;
    assert(q * n <= x && x < (q + 1) * n) by (nonlinear_arith)
        requires
            n > 0,
            q == x / n,
    ;
    assert(r * r <= q) by (nonlinear_arith)
        requires
            n > 0,
            (r * r) * n <= x,
            x < (q + 1) * n,
    ;
    assert(q < (r + 1) * (r + 1)) by (nonlinear_arith)
        requires
            n > 0,
            q * n <= x,
            x < ((r + 1) * (r + 1)) * n,
    ;
    lemma_floor_sqrt_is(q, r);
}

/// What pins a rescaled magnitude down: its square times the squared length
/// stays at or under the square of `a * target`, and the next integer's does
/// not.
pub proof fn lemma_rescaled_magnitude(a: int, target: int, norm_sq: int)
    requires
        norm_sq > 0,
    ensures
        ({
            let r = rescaled_magnitude(a, target, norm_sq);
            &&& r >= 0
            &&& (r * r) * norm_sq <= (a * target) * (a * target)
            &&& (a * target) * (a * target) < ((r + 1) * (r + 1)) * norm_sq
        }),
{
    let p: int = a * target;
    let x: int = p * p;
    assert(x >= 0) by (nonlinear_arith)
        requires
            x == p * p,
    ;
    let q: int = x / norm_sq;
    assert(q >= 0 && q * norm_sq <= x && x < (q + 1) * norm_sq) by (nonlinear_arith)
        requires
            norm_sq > 0,
            x >= 0,
            q == x / norm_sq,
    ;
    lemma_floor_sqrt_exists(q);
    let r: int = floor_sqrt(q);
    assert((r * r) * norm_sq <= x) by (nonlinear_arith)
        requires
            norm_sq > 0,
            r * r <= q,
            q * norm_sq <= x,
    ;
    assert(x < ((r + 1) * (r + 1)) * norm_sq) by (nonlinear_arith)
        requires
            norm_sq > 0,
            q < (r + 1) * (r + 1),
            x < (q + 1) * norm_sq,
    ;
}

/// The magnitude of `a`.
fn magnitude_of(a: i64) -> (m: u64)
    ensures
        m == magnitude(a as int),
{
    if a >= 0 {
        a as u64
    } else if a == i64::MIN {
        0x8000_0000_0000_0000
    } else {
        (-a) as u64
    }
}

/// A rescaled magnitude, computed for a vector that is shorter than `target`.
fn rescale_up(a: u64, target: u64, norm_sq: u128) -> (r: u64)
    requires
        a <= SPEED_MAX,
        target <= SPEED_MAX,
        norm_sq > 0,
    ensures
        r == rescaled_magnitude(a as int, target as int, norm_sq as int),
        r <= 1_000_000_000_000_000_000,
{
    assert(a * target <= 1_000_000_000_000_000_000) by (nonlinear_arith)
        requires
            0 <= a <= 1_000_000_000,
            0 <= target <= 1_000_000_000,
    ;
    let p: u128 = (a as u128) * (target as u128);
    assert(p * p <= 1_000_000_000_000_000_000_000_000_000_000_000_000) by (nonlinear_arith)
        requires
            0 <= p <= 1_000_000_000_000_000_000,
    ;
    let q: u128 = (p * p) / norm_sq;
    let r: u64 = isqrt(q);
    assert(q <= p * p) by (nonlinear_arith)
        requires
            q == (p * p) / (norm_sq as int),
            norm_sq > 0,
            p * p >= 0,
    ;
    assert(r <= 1_000_000_000_000_000_000) by (nonlinear_arith)
        requires
            0 <= r,
            r * r <= q,
            q <= 1_000_000_000_000_000_000_000_000_000_000_000_000,
    ;
    r
}

/// A rescaled magnitude, computed for a vector that is at least as long as
/// `target`; `root` is the vector's length, rounded down.
fn rescale_down(a: u64, target: u64, norm_sq: u128, root: u64) -> (r: u64)
    requires
        a <= 0x8000_0000_0000_0000,
        target <= SPEED_MAX,
        norm_sq > 0,
        a * a <= norm_sq,
        is_floor_sqrt(norm_sq as int, root as int),
        target <= root,
    ensures
        r == rescaled_magnitude(a as int, target as int, norm_sq as int),
        r <= target,
{
    let s: u128 = root as u128;
    assert(s >= 1);
    assert(a <= s) by (nonlinear_arith)
        requires
            0 <= a,
            0 <= s,
            a * a <= norm_sq,
            norm_sq < (s + 1) * (s + 1),
    ;
    assert(a * target <= 0x8000_0000_0000_0000 * 1_000_000_000) by (nonlinear_arith)
        requires
            0 <= a <= 0x8000_0000_0000_0000,
            0 <= target <= 1_000_000_000,
    ;
    let p: u128 = (a as u128) * (target as u128);
    let upper: u128 = p / s;
    let lower: u128 = p / (s + 1);
    proof {
        lemma_quotients(p as int, s as int, a as int, target as int, upper as int, lower as int);
    }
    if upper == lower {
        proof {
            lemma_settled(p as int, s as int, norm_sq as int, upper as int);
            lemma_sqrt_of_quotient(p * p, norm_sq as int, upper as int);
        }
        return upper as u64;
    }
    assert(upper * s <= p);
    let rest: u128 = p - upper * s;
    assert(s * s <= norm_sq);
    let excess: u128 = norm_sq - s * s;
    proof {
        assert(excess <= 2 * s) by (nonlinear_arith)
            requires
                excess == norm_sq - s * s,
                norm_sq < (s + 1) * (s + 1),
        ;
        assert(rest < upper);
        assert(upper * upper <= 1_000_000_000 * 1_000_000_000) by (nonlinear_arith)
            requires
                0 <= upper <= 1_000_000_000,
        ;
        assert((upper * upper) * excess <= (1_000_000_000 * 1_000_000_000) * (2
            * 0xffff_ffff_ffff_ffff)) by (nonlinear_arith)
            requires
                0 <= upper * upper <= 1_000_000_000 * 1_000_000_000,
                0 <= excess <= 2 * 0xffff_ffff_ffff_ffff,
        ;
        assert(rest * (p + upper * s) <= 1_000_000_000 * (2 * (0x8000_0000_0000_0000
            * 1_000_000_000))) by (nonlinear_arith)
            requires
                0 <= rest <= 1_000_000_000,
                0 <= p + upper * s <= 2 * (0x8000_0000_0000_0000 * 1_000_000_000),
        ;
        lemma_comparison(p as int, s as int, norm_sq as int, upper as int);
    }
    if (upper * upper) * excess <= rest * (p + upper * s) {
        proof {
            lemma_sqrt_of_quotient(p * p, norm_sq as int, upper as int);
        }
        upper as u64
    } else {
        proof {
            lemma_settled(p as int, s as int, norm_sq as int, lower as int);
            lemma_sqrt_of_quotient(p * p, norm_sq as int, lower as int);
        }
        lower as u64
    }
}

/// The two quotients that enclose a rescaled magnitude are at most one apart,
/// and neither is above `target`.
proof fn lemma_quotients(p: int, s: int, a: int, target: int, upper: int, lower: int)
    requires
        0 <= a <= s,
        0 <= target <= s,
        s >= 1,
        p == a * target,
        upper == p / s,
        lower == p / (s + 1),
    ensures
        0 <= lower <= upper <= lower + 1,
        upper <= target,
        upper * s <= p < (upper + 1) * s,
        lower * (s + 1) <= p < (lower + 1) * (s + 1),
        upper != lower ==> p - upper * s < upper,
{
    assert(p >= 0 && p <= s * target) by (nonlinear_arith)
        requires
            0 <= a <= s,
            0 <= target,
            p == a * target,
    ;
    assert(upper * s <= p && p < (upper + 1) * s && upper >= 0) by (nonlinear_arith)
        requires
            s >= 1,
            p >= 0,
            upper == p / s,
    ;
    assert(lower * (s + 1) <= p && p < (lower + 1) * (s + 1) && lower >= 0) by (nonlinear_arith)
        requires
            s >= 1,
            p >= 0,
            lower == p / (s + 1),
    ;
    assert(upper <= target) by (nonlinear_arith)
        requires
            s >= 1,
            upper * s <= p,
            p <= s * target,
    ;
    assert(lower <= upper) by (nonlinear_arith)
        requires
            s >= 1,
            lower >= 0,
            lower * (s + 1) <= p,
            p < (upper + 1) * s,
    ;
    assert(lower < target || lower == 0) by (nonlinear_arith)
        requires
            s >= 1,
            lower >= 0,
            lower * (s + 1) <= p,
            p <= s * target,
    ;
    assert(upper <= lower + 1) by (nonlinear_arith)
        requires
            s >= 1,
            lower >= 0,
            lower < s,
            upper * s <= p,
            p < (lower + 1) * (s + 1),
    ;
    if upper != lower {
        assert(p - upper * s < upper) by (nonlinear_arith)
            requires
                upper == lower + 1,
                p < (lower + 1) * (s + 1),
        ;
    }
}

/// A quotient that can no longer be raised is the rescaled magnitude:
/// either the next integer already fails, or the quotient is the upper one.
proof fn lemma_settled(p: int, s: int, norm_sq: int, r: int)
    requires
        s >= 1,
        p >= 0,
        r >= 0,
        is_floor_sqrt(norm_sq, s),
        r * (s + 1) <= p,
        p < (r + 1) * s || (p * p) < ((r + 1) * (r + 1)) * norm_sq,
    ensures
        (r * r) * norm_sq <= p * p,
        p * p < ((r + 1) * (r + 1)) * norm_sq,
{
    assert((r * r) * norm_sq <= p * p) by (nonlinear_arith)
        requires
            s >= 1,
            r >= 0,
            p >= 0,
            r * (s + 1) <= p,
            0 <= norm_sq < (s + 1) * (s + 1),
    {
        assert((r * (s + 1)) * (r * (s + 1)) <= p * p);
        assert((r * (s + 1)) * (r * (s + 1)) == (r * r) * ((s + 1) * (s + 1)));
        assert((r * r) * norm_sq <= (r * r) * ((s + 1) * (s + 1)));
    }
    if p < (r + 1) * s {
        assert(p * p < ((r + 1) * (r + 1)) * norm_sq) by (nonlinear_arith)
            requires
                s >= 1,
                r >= 0,
                p >= 0,
                p < (r + 1) * s,
                s * s <= norm_sq,
        {
            assert(p * p < ((r + 1) * s) * ((r + 1) * s));
            assert(((r + 1) * s) * ((r + 1) * s) == ((r + 1) * (r + 1)) * (s * s));
            assert(((r + 1) * (r + 1)) * (s * s) <= ((r + 1) * (r + 1)) * norm_sq);
        }
    }
}

/// The comparison that decides for the upper quotient without leaving the
/// range of the machine's integers says what it should.
proof fn lemma_comparison(p: int, s: int, norm_sq: int, upper: int)
    requires
        s >= 1,
        p >= 0,
        upper >= 0,
        is_floor_sqrt(norm_sq, s),
        upper * s <= p < (upper + 1) * s,
    ensures
        (upper * upper) * (norm_sq - s * s) <= (p - upper * s) * (p + upper * s) <==> (upper
            * upper) * norm_sq <= p * p,
        p * p < ((upper + 1) * (upper + 1)) * norm_sq,
{
    assert((p - upper * s) * (p + upper * s) == p * p - (upper * upper) * (s * s))
        by (nonlinear_arith);
    assert((upper * upper) * (norm_sq - s * s) == (upper * upper) * norm_sq - (upper * upper) * (s
        * s)) by (nonlinear_arith);
    assert(p * p < ((upper + 1) * (upper + 1)) * norm_sq) by (nonlinear_arith)
        requires
            s >= 1,
            upper >= 0,
            p >= 0,
            p < (upper + 1) * s,
            s * s <= norm_sq,
    {
        assert(p * p < ((upper + 1) * s) * ((upper + 1) * s));
        assert(((upper + 1) * s) * ((upper + 1) * s) == ((upper + 1) * (upper + 1)) * (s * s));
        assert(((upper + 1) * (upper + 1)) * (s * s) <= ((upper + 1) * (upper + 1)) * norm_sq);
    }
}

/// A rescaled vector points where the vector pointed, is not longer than
/// `target`, and is less than one step of resolution per axis shorter.
pub proof fn lemma_rescaled_length(v: Vec2View, target: int)
    requires
        v.norm_sq() > 0,
        target >= 0,
    ensures
        ({
            let r = rescaled(v, target);
            &&& r.norm_sq() <= target * target
            &&& target * target < lengthened(r).norm_sq()
            &&& r.within(target)
            &&& v.x >= 0 ==> r.x >= 0
            &&& v.x <= 0 ==> r.x <= 0
            &&& v.y >= 0 ==> r.y >= 0
            &&& v.y <= 0 ==> r.y <= 0
        }),
{
    let n: int = v.norm_sq();
    let ax: int = magnitude(v.x);
    let ay: int = magnitude(v.y);
    let rx: int = rescaled_magnitude(ax, target, n);
    let ry: int = rescaled_magnitude(ay, target, n);
    lemma_rescaled_magnitude(ax, target, n);
    lemma_rescaled_magnitude(ay, target, n);
    let r: Vec2View = rescaled(v, target);
    assert(magnitude(r.x) == rx);
    assert(magnitude(r.y) == ry);
    assert(n == ax * ax + ay * ay) by (nonlinear_arith)
        requires
            n == v.x * v.x + v.y * v.y,
            ax == magnitude(v.x),
            ay == magnitude(v.y),
    ;
    assert(r.norm_sq() == rx * rx + ry * ry) by (nonlinear_arith)
        requires
            r.norm_sq() == r.x * r.x + r.y * r.y,
            rx == magnitude(r.x),
            ry == magnitude(r.y),
    ;
    if v.x == 0 {
        assert(rx == 0) by (nonlinear_arith)
            requires
                n > 0,
                rx >= 0,
                ax == 0,
                (rx * rx) * n <= (ax * target) * (ax * target),
        ;
    }
    if v.y == 0 {
        assert(ry == 0) by (nonlinear_arith)
            requires
                n > 0,
                ry >= 0,
                ay == 0,
                (ry * ry) * n <= (ay * target) * (ay * target),
        ;
    }
    let t2: int = target * target;
    assert((ax * target) * (ax * target) + (ay * target) * (ay * target) == n * t2)
        by (nonlinear_arith)
        requires
            n == ax * ax + ay * ay,
            t2 == target * target,
    ;
    assert(rx * rx + ry * ry <= t2) by (nonlinear_arith)
        requires
            n > 0,
            (rx * rx) * n + (ry * ry) * n <= n * t2,
    ;
    assert(t2 < (rx + 1) * (rx + 1) + (ry + 1) * (ry + 1)) by (nonlinear_arith)
        requires
            n > 0,
            n * t2 < ((rx + 1) * (rx + 1)) * n + ((ry + 1) * (ry + 1)) * n,
    ;
    assert(rx <= target && ry <= target) by (nonlinear_arith)
        requires
            rx >= 0,
            ry >= 0,
            target >= 0,
            rx * rx + ry * ry <= target * target,
    ;
}

/// After the clamp a velocity of zero is still zero, and any other has a
/// speed between the two limits, as far as whole steps of resolution allow.
/// A velocity whose speed was between the limits is unchanged.
pub proof fn lemma_clamped_speed(v: Vec2View, min_speed: int, max_speed: int)
    requires
        0 <= min_speed <= max_speed,
    ensures
        v.norm_sq() == 0 ==> clamped(v, min_speed, max_speed) == v,
        v.norm_sq() != 0 ==> speed_within(clamped(v, min_speed, max_speed), min_speed, max_speed),
        min_speed * min_speed <= v.norm_sq() <= max_speed * max_speed ==> clamped(
            v,
            min_speed,
            max_speed,
        ) == v,
        clamped(v, min_speed, max_speed).within(max_speed),
{
    let n: int = v.norm_sq();
    assert(n >= 0) by (nonlinear_arith)
        requires
            n == v.x * v.x + v.y * v.y,
    ;
    assert(min_speed * min_speed <= max_speed * max_speed) by (nonlinear_arith)
        requires
            0 <= min_speed <= max_speed,
    ;
    if n == 0 {
        assert(v.x == 0 && v.y == 0) by (nonlinear_arith)
            requires
                v.x * v.x + v.y * v.y == 0,
        ;
    } else if n < min_speed * min_speed {
        lemma_rescaled_length(v, min_speed);
    } else if n > max_speed * max_speed {
        lemma_rescaled_length(v, max_speed);
    } else {
        let l: Vec2View = lengthened(v);
        assert(n <= l.norm_sq()) by (nonlinear_arith)
            requires
                n == v.x * v.x + v.y * v.y,
                l.x == magnitude(v.x) + 1,
                l.y == magnitude(v.y) + 1,
                l.norm_sq() == l.x * l.x + l.y * l.y,
        ;
        assert(v.within(max_speed)) by (nonlinear_arith)
            requires
                max_speed >= 0,
                v.x * v.x + v.y * v.y <= max_speed * max_speed,
        ;
    }
}

/// The vector brought to the length `target` without turning it.
pub fn rescale(v: Vec2, target: i64) -> (r: Vec2)
    requires
        0 <= target <= SPEED_MAX,
        v@.norm_sq() > 0,
    ensures
        r@ == rescaled(v@, target as int),
        r@.within(target as int),
{
    let ax: u64 = magnitude_of(v.x);
    let ay: u64 = magnitude_of(v.y);
    let m: u64 = target as u64;
    assert(ax * ax <= 0x8000_0000_0000_0000 * 0x8000_0000_0000_0000) by (nonlinear_arith)
        requires
            0 <= ax <= 0x8000_0000_0000_0000,
    ;
    assert(ay * ay <= 0x8000_0000_0000_0000 * 0x8000_0000_0000_0000) by (nonlinear_arith)
        requires
            0 <= ay <= 0x8000_0000_0000_0000,
    ;
    assert(m * m <= 1_000_000_000 * 1_000_000_000) by (nonlinear_arith)
        requires
            0 <= m <= 1_000_000_000,
    ;
    let n: u128 = (ax as u128) * (ax as u128) + (ay as u128) * (ay as u128);
    proof {
        assert(n == v@.norm_sq()) by (nonlinear_arith)
            requires
                n == ax * ax + ay * ay,
                ax == magnitude(v.x as int),
                ay == magnitude(v.y as int),
                v@.norm_sq() == v.x * v.x + v.y * v.y,
        ;
        lemma_rescaled_length(v@, target as int);
    }
    let rx: u64;
    let ry: u64;
    if n < (m as u128) * (m as u128) {
        assert(ax < m && ay < m) by (nonlinear_arith)
            requires
                0 <= ax,
                0 <= ay,
                0 <= m,
                ax * ax + ay * ay < m * m,
        ;
        rx = rescale_up(ax, m, n);
        ry = rescale_up(ay, m, n);
    } else {
        let root: u64 = isqrt(n);
        assert(m <= root) by (nonlinear_arith)
            requires
                0 <= m,
                0 <= root,
                m * m <= n,
                n < (root + 1) * (root + 1),
        ;
        rx = rescale_down(ax, m, n, root);
        ry = rescale_down(ay, m, n, root);
    }
    Vec2 {
        x: if v.x >= 0 {
            rx as i64
        } else {
            -(rx as i64)
        },
        y: if v.y >= 0 {
            ry as i64
        } else {
            -(ry as i64)
        },
    }
}

/// The velocity with its speed brought between the two speed limits.
pub fn compute_new_speed(v: Vec2, params: &Parameters) -> (r: Vec2)
    ensures
        r@ == clamped(v@, params@.min_speed, params@.max_speed),
        r@.within(params@.max_speed),
        v@.norm_sq() != 0 ==> speed_within(r@, params@.min_speed, params@.max_speed),
{
    proof {
        use_type_invariant(params);
        lemma_clamped_speed(v@, params@.min_speed, params@.max_speed);
    }
    let ax: u64 = magnitude_of(v.x);
    let ay: u64 = magnitude_of(v.y);
    let low: u64 = params.min_speed() as u64;
    let high: u64 = params.max_speed() as u64;
    assert(ax * ax <= 0x8000_0000_0000_0000 * 0x8000_0000_0000_0000) by (nonlinear_arith)
        requires
            0 <= ax <= 0x8000_0000_0000_0000,
    ;
    assert(ay * ay <= 0x8000_0000_0000_0000 * 0x8000_0000_0000_0000) by (nonlinear_arith)
        requires
            0 <= ay <= 0x8000_0000_0000_0000,
    ;
    assert(low * low <= 1_000_000_000 * 1_000_000_000) by (nonlinear_arith)
        requires
            0 <= low <= 1_000_000_000,
    ;
    assert(high * high <= 1_000_000_000 * 1_000_000_000) by (nonlinear_arith)
        requires
            0 <= high <= 1_000_000_000,
    ;
    let n: u128 = (ax as u128) * (ax as u128) + (ay as u128) * (ay as u128);
    proof {
        assert(n == v@.norm_sq()) by (nonlinear_arith)
            requires
                n == ax * ax + ay * ay,
                ax == magnitude(v.x as int),
                ay == magnitude(v.y as int),
                v@.norm_sq() == v.x * v.x + v.y * v.y,
        ;
    }
    if n == 0 {
        v
    } else if n < (low as u128) * (low as u128) {
        rescale(v, params.min_speed())
    } else if n > (high as u128) * (high as u128) {
        rescale(v, params.max_speed())
    } else {
        v
    }
}

} // verus!
