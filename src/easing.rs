//! The "bouncy" easing curve, in fixed point.
//!
//! The curve is the cubic Bezier timing function with control points
//! (0.68, -0.6) and (0.32, 1.2). Progress is the curve's x coordinate, so the
//! parameter `t` whose x equals the progress is found by Newton's method and the
//! curve's y coordinate at that `t` is the eased value. All quantities are
//! integers in units of `1 / SCALE`.
use vstd::math::abs;
use vstd::prelude::*;

verus! {

/// Fixed-point unit: the value `SCALE` stands for 1.0.
pub const SCALE: i64 = 1_000_000;

/// x coordinate of the first control point.
pub const X1: i64 = 680_000;

/// y coordinate of the first control point.
pub const Y1: i64 = -600_000;

/// x coordinate of the second control point.
pub const X2: i64 = 320_000;

/// y coordinate of the second control point.
pub const Y2: i64 = 1_200_000;

/// Number of Newton iterations at most.
pub const NEWTON_STEPS: u32 = 10;

/// Division rounding toward zero, as the machine's signed division does.
pub open spec fn div_trunc(a: int, b: int) -> int {
    if a >= 0 {
        a / b
    } else {
        -((-a) / b)
    }
}

/// Clamps a fixed-point value into `[0, SCALE]`.
pub open spec fn clamp_unit(t: int) -> int {
    if t < 0 {
        0
    } else if t > SCALE {
        SCALE as int
    } else {
        t
    }
}

/// One coordinate of the cubic Bezier curve from 0 to 1 with inner control
/// values `p1` and `p2`, at parameter `t`.
pub open spec fn bezier(t: int, p1: int, p2: int) -> int {
    let s = SCALE as int;
    let u = s - t;
    div_trunc(3 * u * u * t * p1 + 3 * u * t * t * p2 + t * t * t * s, s * s * s)
}

/// The derivative of `bezier` with respect to `t`.
pub open spec fn bezier_slope(t: int, p1: int, p2: int) -> int {
    let s = SCALE as int;
    let u = s - t;
    div_trunc(3 * u * u * p1 + 6 * u * t * (p2 - p1) + 3 * t * t * (s - p2), s * s)
}

/// Newton's method for the `t` whose x coordinate is `progress`, started at `t`,
/// with at most `steps` iterations; a vanishing slope stops it early, and each
/// new estimate is clamped into `[0, SCALE]`.
pub open spec fn newton(progress: int, t: int, steps: nat) -> int
    decreases steps,
{
    if steps == 0 {
        t
    } else {
        let dx = bezier_slope(t, X1 as int, X2 as int);
        if dx == 0 {
            t
        } else {
            let x = bezier(t, X1 as int, X2 as int);
            newton(progress, clamp_unit(t - div_trunc((x - progress) * SCALE, dx)), (steps - 1) as nat)
        }
    }
}

/// The eased value of `progress`: the curve's y coordinate at the parameter that
/// Newton's method finds, started at `progress` itself.
pub open spec fn ease(progress: int) -> int {
    let t = newton(progress, progress, NEWTON_STEPS as nat);
    bezier(t, Y1 as int, Y2 as int)
}

proof fn lemma_mul_nonneg_bound(a: int, b: int, ba: int, bb: int)
    requires
        0 <= a <= ba,
        0 <= b <= bb,
    ensures
        0 <= a * b <= ba * bb,
{
    assert(0 <= a * b <= ba * bb) by (nonlinear_arith)
        requires
            0 <= a <= ba,
            0 <= b <= bb,
    ;
}

pub proof fn lemma_mul_signed_bound(a: int, b: int, ba: int, bb: int)
    requires
        0 <= a <= ba,
        -bb <= b <= bb,
    ensures
        -(ba * bb) <= a * b <= ba * bb,
{
    assert(-(ba * bb) <= a * b <= ba * bb) by (nonlinear_arith)
        requires
            0 <= a <= ba,
            -bb <= b <= bb,
    ;
}

pub proof fn lemma_div_trunc_bound(a: int, b: int, m: int)
    requires
        b > 0,
        -(m * b) <= a <= m * b,
        m >= 0,
    ensures
        -m <= div_trunc(a, b) <= m,
{
    if a >= 0 {
        assert(a / b <= m) by (nonlinear_arith)
            requires
                b > 0,
                0 <= a <= m * b,
        ;
        assert(a / b >= 0) by (nonlinear_arith)
            requires
                b > 0,
                0 <= a,
        ;
    } else {
        assert((-a) / b <= m) by (nonlinear_arith)
            requires
                b > 0,
                0 <= -a <= m * b,
        ;
        assert((-a) / b >= 0) by (nonlinear_arith)
            requires
                b > 0,
                0 <= -a,
        ;
    }
}

proof fn lemma_div_trunc_shrinks(a: int, b: int)
    requires
        b != 0,
    ensures
        -abs(a) <= div_trunc(a, b) <= abs(a),
{
    if a >= 0 {
        assert(-a <= a / b <= a) by (nonlinear_arith)
            requires
                a >= 0,
                b != 0,
        ;
    } else {
        assert(a <= (-a) / b <= -a) by (nonlinear_arith)
            requires
                a < 0,
                b != 0,
        ;
    }
}

/// Evaluates `bezier(t, p1, p2)`.
fn cubic_bezier(t: i64, p1: i64, p2: i64) -> (r: i64)
    requires
        0 <= t <= SCALE,
        -2 * SCALE <= p1 <= 2 * SCALE,
        -2 * SCALE <= p2 <= 2 * SCALE,
    ensures
        r == bezier(t as int, p1 as int, p2 as int),
        -13 * SCALE <= r <= 13 * SCALE,
{
    let s: i128 = SCALE as i128;
    let t: i128 = t as i128;
    let u: i128 = s - t;
    let p1: i128 = p1 as i128;
    let p2: i128 = p2 as i128;
    let ghost sc: int = SCALE as int;
    let ghost (ui, ti) = (u as int, t as int);
    proof {
        lemma_mul_nonneg_bound(3 * ui, ui, 3 * sc, sc);
        lemma_mul_nonneg_bound(3 * ui * ui, ti, 3 * sc * sc, sc);
        lemma_mul_signed_bound(3 * ui * ui * ti, p1 as int, 3 * sc * sc * sc, 2 * sc);
        lemma_mul_nonneg_bound(3 * ui, ti, 3 * sc, sc);
        lemma_mul_nonneg_bound(3 * ui * ti, ti, 3 * sc * sc, sc);
        lemma_mul_signed_bound(3 * ui * ti * ti, p2 as int, 3 * sc * sc * sc, 2 * sc);
        lemma_mul_nonneg_bound(ti, ti, sc, sc);
        lemma_mul_nonneg_bound(ti * ti, ti, sc * sc, sc);
        lemma_mul_nonneg_bound(ti * ti * ti, sc, sc * sc * sc, sc);
    }
    let num: i128 = 3 * u * u * t * p1 + 3 * u * t * t * p2 + t * t * t * s;
    let den: i128 = s * s * s;
    proof {
        lemma_div_trunc_bound(num as int, den as int, 13 * sc);
    }
    (num / den) as i64
}

/// Evaluates `bezier_slope(t, p1, p2)`.
fn cubic_bezier_derivative(t: i64, p1: i64, p2: i64) -> (r: i64)
    requires
        0 <= t <= SCALE,
        -2 * SCALE <= p1 <= 2 * SCALE,
        -2 * SCALE <= p2 <= 2 * SCALE,
    ensures
        r == bezier_slope(t as int, p1 as int, p2 as int),
        -39 * SCALE <= r <= 39 * SCALE,
{
    let s: i128 = SCALE as i128;
    let t: i128 = t as i128;
    let u: i128 = s - t;
    let p1: i128 = p1 as i128;
    let p2: i128 = p2 as i128;
    let ghost sc: int = SCALE as int;
    let ghost (ui, ti) = (u as int, t as int);
    proof {
        lemma_mul_nonneg_bound(3 * ui, ui, 3 * sc, sc);
        lemma_mul_signed_bound(3 * ui * ui, p1 as int, 3 * sc * sc, 2 * sc);
        lemma_mul_nonneg_bound(6 * ui, ti, 6 * sc, sc);
        lemma_mul_signed_bound(6 * ui * ti, p2 - p1, 6 * sc * sc, 4 * sc);
        lemma_mul_nonneg_bound(3 * ti, ti, 3 * sc, sc);
        lemma_mul_signed_bound(3 * ti * ti, sc - p2, 3 * sc * sc, 3 * sc);
    }
    let num: i128 = 3 * u * u * p1 + 6 * u * t * (p2 - p1) + 3 * t * t * (s - p2);
    let den: i128 = s * s;
    proof {
        lemma_div_trunc_bound(num as int, den as int, 39 * sc);
    }
    (num / den) as i64
}

/// Newton's method for the parameter whose x coordinate is `progress`.
fn solve_cubic_bezier(progress: i64) -> (t: i64)
    requires
        0 <= progress <= SCALE,
    ensures
        t == newton(progress as int, progress as int, NEWTON_STEPS as nat),
        0 <= t <= SCALE,
{
    let mut t: i64 = progress;
    let mut i: u32 = 0;
    while i < NEWTON_STEPS
        invariant
            0 <= i <= NEWTON_STEPS,
            0 <= t <= SCALE,
            0 <= progress <= SCALE,
            newton(progress as int, t as int, (NEWTON_STEPS - i) as nat) == newton(
                progress as int,
                progress as int,
                NEWTON_STEPS as nat,
            ),
        ensures
            0 <= t <= SCALE,
            t == newton(progress as int, progress as int, NEWTON_STEPS as nat),
        decreases NEWTON_STEPS - i,
    {
        let dx = cubic_bezier_derivative(t, X1, X2);
        if dx == 0 {
            break;
        }
        let x = cubic_bezier(t, X1, X2);
        let delta: i128 = (x as i128 - progress as i128) * (SCALE as i128);
        let step: i128 = delta / (dx as i128);
        proof {
            lemma_div_trunc_shrinks(delta as int, dx as int);
        }
        let next: i128 = t as i128 - step;
        t = if next < 0 {
            0
        } else if next > SCALE as i128 {
            SCALE
        } else {
            next as i64
        };
        i = i + 1;
    }
    t
}

/// The eased value of `progress`, a fixed-point fraction in `[0, SCALE]`.
///
/// The result is a function of `progress` alone, so repeated calls agree.
pub fn bouncy_easing(progress: i64) -> (r: i64)
    requires
        0 <= progress <= SCALE,
    ensures
        r == ease(progress as int),
        -13 * SCALE <= r <= 13 * SCALE,
{
    let t = solve_cubic_bezier(progress);
    cubic_bezier(t, Y1, Y2)
}

proof fn lemma_newton_at_root(progress: int, t: int, steps: nat)
    requires
        bezier(t, X1 as int, X2 as int) == progress,
        0 <= t <= SCALE,
    ensures
        newton(progress, t, steps) == t,
    decreases steps,
{
    if steps > 0 {
        let dx = bezier_slope(t, X1 as int, X2 as int);
        if dx != 0 {
            assert(div_trunc((progress - progress) * SCALE, dx) == 0);
            lemma_newton_at_root(progress, t, (steps - 1) as nat);
        }
    }
}

proof fn lemma_bezier_ends(p1: int, p2: int)
    ensures
        bezier(0, p1, p2) == 0,
        bezier(SCALE as int, p1, p2) == SCALE,
{
    let s = SCALE as int;
    let cube = s * s * s;
    assert(cube == 1_000_000_000_000_000_000);
    assert(3 * (s - 0) * (s - 0) * 0 * p1 == 0);
    assert(3 * (s - 0) * 0 * 0 * p2 == 0);
    assert(3 * (s - s) * (s - s) * s * p1 == 0);
    assert(3 * (s - s) * s * s * p2 == 0);
    assert(s * s * s * s == cube * s);
    assert((cube * s) / cube == s) by (nonlinear_arith)
        requires
            cube > 0,
    ;
}

/// The curve starts at rest and ends at rest: easing 0 gives exactly 0 and
/// easing 1 gives exactly 1.
pub proof fn lemma_ease_endpoints()
    ensures
        ease(0) == 0,
        ease(SCALE as int) == SCALE,
{
    let s = SCALE as int;
    lemma_bezier_ends(X1 as int, X2 as int);
    lemma_newton_at_root(0, 0, NEWTON_STEPS as nat);
    lemma_newton_at_root(s, s, NEWTON_STEPS as nat);
    lemma_bezier_ends(Y1 as int, Y2 as int);
}

} // verus!
