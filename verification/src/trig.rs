//! Integer square root and fixed-point trigonometry.
//!
//! Angles are radians times [`SCALE`](crate::fixed::SCALE). Sine, cosine and
//! arctangent are polynomial approximations evaluated in exact integer
//! arithmetic; each executable function returns precisely the value of its
//! spec-level mirror, so callers can reason about the results as mathematical
//! functions of the inputs.

use vstd::prelude::*;

use crate::fixed::{abs, angle_ok, HALF_PI, PI, SCALE, TWO_PI};

verus! {

/// `r` is the integer square root of `n`: the largest integer whose square
/// does not exceed `n`.
pub open spec fn is_sqrt(n: int, r: int) -> bool {
    0 <= r && r * r <= n && n < (r + 1) * (r + 1)
}

/// The integer square root of `n` (meaningful for `n >= 0`).
pub open spec fn sqrt_of(n: int) -> int {
    choose|r: int| is_sqrt(n, r)
}

/// Any witness of [`is_sqrt`] is the square root: the root is unique.
pub proof fn lemma_sqrt_unique(n: int, r: int)
    requires
        is_sqrt(n, r),
    ensures
        sqrt_of(n) == r,
{
    assert(exists|x: int| is_sqrt(n, x));
    let s = sqrt_of(n);
    assert(is_sqrt(n, s));
    if s < r {
        assert((s + 1) * (s + 1) <= r * r) by (nonlinear_arith)
            requires
                0 <= s + 1 <= r,
        ;
    }
    if r < s {
        assert((r + 1) * (r + 1) <= s * s) by (nonlinear_arith)
            requires
                0 <= r + 1 <= s,
        ;
    }
}

/// Integer square root by bisection.
pub fn isqrt(n: i128) -> (r: i128)
    requires
        0 <= n <= 1_000_000_000_000_000_000_000_000_000,
    ensures
        is_sqrt(n as int, r as int),
        r == sqrt_of(n as int),
        0 <= r <= 32_000_000_000_000,
{
    let mut lo: i128 = 0;
    let mut hi: i128 = 32_000_000_000_001;
    proof {
        assert(hi * hi > n) by (nonlinear_arith)
            requires
                n <= 1_000_000_000_000_000_000_000_000_000,
                hi == 32_000_000_000_001,
        ;
    }
    while lo + 1 < hi
        invariant
            0 <= lo < hi <= 32_000_000_000_001,
            lo * lo <= n,
            hi * hi > n,
            n <= 1_000_000_000_000_000_000_000_000_000,
        decreases hi - lo,
    {
        let mid: i128 = lo + (hi - lo) / 2;
        proof {
            assert(mid * mid <= 32_000_000_000_001 * 32_000_000_000_001) by (nonlinear_arith)
                requires
                    0 <= mid <= 32_000_000_000_001,
            ;
        }
        if mid * mid <= n {
            lo = mid;
        } else {
            hi = mid;
        }
    }
    proof {
        lemma_sqrt_unique(n as int, lo as int);
    }
    lo
}

/// The angle `r` brought into `[0, TWO_PI)`.
pub open spec fn spec_reduce_angle(r: int) -> int {
    r % (TWO_PI as int)
}

/// Reduce an angle into `[0, TWO_PI)`.
pub fn reduce_angle(r: i64) -> (a: i64)
    requires
        angle_ok(r as int),
    ensures
        a as int == spec_reduce_angle(r as int),
        0 <= a < TWO_PI,
{
    if r >= 0 {
        r % TWO_PI
    } else {
        let m: i64 = (-r) % TWO_PI;
        proof {
            let t: int = TWO_PI as int;
            let n: int = -(r as int);
            let q: int = n / t;
            vstd::arithmetic::div_mod::lemma_fundamental_div_mod(n, t);
            if m == 0 {
                assert(r as int == t * (-q) + 0);
                vstd::arithmetic::div_mod::lemma_mod_multiples_vanish(-q, 0, t);
            } else {
                assert(r as int == t * (-q - 1) + (t - m));
                vstd::arithmetic::div_mod::lemma_mod_multiples_vanish(-q - 1, t - m, t);
                vstd::arithmetic::div_mod::lemma_small_mod((t - m) as nat, t as nat);
            }
        }
        if m == 0 {
            0
        } else {
            TWO_PI - m
        }
    }
}

/// Fixed-point sine on a first-quadrant angle `f` in `[0, HALF_PI)`:
/// the Taylor polynomial `x (1 - x^2/6 (1 - x^2/20 (1 - x^2/42 (1 - x^2/72))))`
/// evaluated in integer arithmetic.
pub open spec fn spec_sin_quarter(f: int) -> int {
    let u: int = (f * f) / (SCALE as int);
    let a: int = (SCALE as int) - u / 72;
    let b: int = (SCALE as int) - (u * a) / (42 * SCALE as int);
    let c: int = (SCALE as int) - (u * b) / (20 * SCALE as int);
    let d: int = (SCALE as int) - (u * c) / (6 * SCALE as int);
    (f * d) / (SCALE as int)
}

/// Fixed-point cosine on a first-quadrant angle `f` in `[0, HALF_PI)`:
/// the Taylor polynomial `1 - x^2/2 (1 - x^2/12 (1 - x^2/30 (1 - x^2/56)))`
/// evaluated in integer arithmetic.
pub open spec fn spec_cos_quarter(f: int) -> int {
    let u: int = (f * f) / (SCALE as int);
    let a: int = (SCALE as int) - u / 56;
    let b: int = (SCALE as int) - (u * a) / (30 * SCALE as int);
    let c: int = (SCALE as int) - (u * b) / (12 * SCALE as int);
    (SCALE as int) - (u * c) / (2 * SCALE as int)
}

fn sin_quarter(f: i64) -> (s: i64)
    requires
        0 <= f < HALF_PI,
    ensures
        s as int == spec_sin_quarter(f as int),
        0 <= s < HALF_PI,
{
    proof {
        assert(f * f <= 1_570_795i64 * 1_570_795i64) by (nonlinear_arith)
            requires
                0 <= f <= 1_570_795,
        ;
    }
    let u: i64 = (f * f) / SCALE;
    let a: i64 = SCALE - u / 72;
    proof {
        assert(u * a <= 2_467_397i64 * 1_000_000i64 && u * a >= 0) by (nonlinear_arith)
            requires
                0 <= u <= 2_467_397,
                0 <= a <= 1_000_000,
        ;
    }
    let b: i64 = SCALE - (u * a) / (42 * SCALE);
    proof {
        assert(u * b <= 2_467_397i64 * 1_000_000i64 && u * b >= 0) by (nonlinear_arith)
            requires
                0 <= u <= 2_467_397,
                0 <= b <= 1_000_000,
        ;
    }
    let c: i64 = SCALE - (u * b) / (20 * SCALE);
    proof {
        assert(u * c <= 2_467_397i64 * 1_000_000i64 && u * c >= 0) by (nonlinear_arith)
            requires
                0 <= u <= 2_467_397,
                0 <= c <= 1_000_000,
        ;
    }
    let d: i64 = SCALE - (u * c) / (6 * SCALE);
    proof {
        assert(f * d <= 1_570_795i64 * 1_000_000i64 && f * d >= 0) by (nonlinear_arith)
            requires
                0 <= f <= 1_570_795,
                0 <= d <= 1_000_000,
        ;
    }
    (f * d) / SCALE
}

fn cos_quarter(f: i64) -> (c: i64)
    requires
        0 <= f < HALF_PI,
    ensures
        c as int == spec_cos_quarter(f as int),
        -SCALE <= c <= SCALE,
{
    proof {
        assert(f * f <= 1_570_795i64 * 1_570_795i64) by (nonlinear_arith)
            requires
                0 <= f <= 1_570_795,
        ;
    }
    let u: i64 = (f * f) / SCALE;
    let a: i64 = SCALE - u / 56;
    proof {
        assert(u * a <= 2_467_397i64 * 1_000_000i64 && u * a >= 0) by (nonlinear_arith)
            requires
                0 <= u <= 2_467_397,
                0 <= a <= 1_000_000,
        ;
    }
    let b: i64 = SCALE - (u * a) / (30 * SCALE);
    proof {
        assert(u * b <= 2_467_397i64 * 1_000_000i64 && u * b >= 0) by (nonlinear_arith)
            requires
                0 <= u <= 2_467_397,
                0 <= b <= 1_000_000,
        ;
    }
    let c2: i64 = SCALE - (u * b) / (12 * SCALE);
    proof {
        assert(u * c2 <= 2_467_397i64 * 1_000_000i64 && u * c2 >= 0) by (nonlinear_arith)
            requires
                0 <= u <= 2_467_397,
                0 <= c2 <= 1_000_000,
        ;
    }
    SCALE - (u * c2) / (2 * SCALE)
}

/// Fixed-point sine of an arbitrary angle: quadrant reduction over
/// [`spec_sin_quarter`] and [`spec_cos_quarter`].
pub open spec fn spec_sin(r: int) -> int {
    let a: int = spec_reduce_angle(r);
    let k: int = a / (HALF_PI as int);
    let f: int = a % (HALF_PI as int);
    if k == 0 {
        spec_sin_quarter(f)
    } else if k == 1 {
        spec_cos_quarter(f)
    } else if k == 2 {
        -spec_sin_quarter(f)
    } else {
        -spec_cos_quarter(f)
    }
}

/// Fixed-point cosine of an arbitrary angle: quadrant reduction over
/// [`spec_sin_quarter`] and [`spec_cos_quarter`].
pub open spec fn spec_cos(r: int) -> int {
    let a: int = spec_reduce_angle(r);
    let k: int = a / (HALF_PI as int);
    let f: int = a % (HALF_PI as int);
    if k == 0 {
        spec_cos_quarter(f)
    } else if k == 1 {
        -spec_sin_quarter(f)
    } else if k == 2 {
        -spec_cos_quarter(f)
    } else {
        spec_sin_quarter(f)
    }
}

/// Sine and cosine of a fixed-point angle, exactly [`spec_sin`] and
/// [`spec_cos`].
pub fn sin_cos(r: i64) -> (sc: (i64, i64))
    requires
        angle_ok(r as int),
    ensures
        sc.0 as int == spec_sin(r as int),
        sc.1 as int == spec_cos(r as int),
        -HALF_PI <= sc.0 <= HALF_PI,
        -HALF_PI <= sc.1 <= HALF_PI,
{
    let a: i64 = reduce_angle(r);
    let k: i64 = a / HALF_PI;
    let f: i64 = a % HALF_PI;
    if k == 0 {
        let s: i64 = sin_quarter(f);
        let c: i64 = cos_quarter(f);
        (s, c)
    } else if k == 1 {
        let s: i64 = sin_quarter(f);
        let c: i64 = cos_quarter(f);
        (c, -s)
    } else if k == 2 {
        let s: i64 = sin_quarter(f);
        let c: i64 = cos_quarter(f);
        (-s, -c)
    } else {
        let s: i64 = sin_quarter(f);
        let c: i64 = cos_quarter(f);
        (-c, s)
    }
}

/// The first-quadrant polynomials stay within a quarter turn of magnitude.
pub proof fn lemma_quarter_bounds(f: int)
    requires
        0 <= f < HALF_PI,
    ensures
        0 <= spec_sin_quarter(f) < HALF_PI,
        -SCALE <= spec_cos_quarter(f) <= SCALE,
{
    assert(f * f <= 1_570_795 * 1_570_795 && 0 <= f * f) by (nonlinear_arith)
        requires
            0 <= f <= 1_570_795,
    ;
    assert(42 * (SCALE as int) == 42_000_000);
    assert(30 * (SCALE as int) == 30_000_000);
    assert(20 * (SCALE as int) == 20_000_000);
    assert(12 * (SCALE as int) == 12_000_000);
    assert(6 * (SCALE as int) == 6_000_000);
    assert(2 * (SCALE as int) == 2_000_000);
    let u: int = (f * f) / (SCALE as int);
    let sa: int = (SCALE as int) - u / 72;
    assert(0 <= u * sa <= 2_467_397 * 1_000_000) by (nonlinear_arith)
        requires
            0 <= u <= 2_467_397,
            0 <= sa <= 1_000_000,
    ;
    let sb: int = (SCALE as int) - (u * sa) / (42 * SCALE as int);
    assert(0 <= u * sb <= 2_467_397 * 1_000_000) by (nonlinear_arith)
        requires
            0 <= u <= 2_467_397,
            0 <= sb <= 1_000_000,
    ;
    let sc: int = (SCALE as int) - (u * sb) / (20 * SCALE as int);
    assert(0 <= u * sc <= 2_467_397 * 1_000_000) by (nonlinear_arith)
        requires
            0 <= u <= 2_467_397,
            0 <= sc <= 1_000_000,
    ;
    let sd: int = (SCALE as int) - (u * sc) / (6 * SCALE as int);
    assert(0 <= f * sd <= 1_570_795 * 1_000_000) by (nonlinear_arith)
        requires
            0 <= f <= 1_570_795,
            0 <= sd <= 1_000_000,
    ;
    let ca: int = (SCALE as int) - u / 56;
    assert(0 <= u * ca <= 2_467_397 * 1_000_000) by (nonlinear_arith)
        requires
            0 <= u <= 2_467_397,
            0 <= ca <= 1_000_000,
    ;
    let cb: int = (SCALE as int) - (u * ca) / (30 * SCALE as int);
    assert(0 <= u * cb <= 2_467_397 * 1_000_000) by (nonlinear_arith)
        requires
            0 <= u <= 2_467_397,
            0 <= cb <= 1_000_000,
    ;
    let cc: int = (SCALE as int) - (u * cb) / (12 * SCALE as int);
    assert(0 <= u * cc <= 2_467_397 * 1_000_000) by (nonlinear_arith)
        requires
            0 <= u <= 2_467_397,
            0 <= cc <= 1_000_000,
    ;
}

/// Sine and cosine see an angle only through its remainder by a full turn:
/// adding a full turn changes neither.
pub proof fn lemma_angle_periodic(r: int)
    ensures
        spec_sin(r + TWO_PI) == spec_sin(r),
        spec_cos(r + TWO_PI) == spec_cos(r),
{
    vstd::arithmetic::div_mod::lemma_mod_multiples_vanish(1, r, TWO_PI as int);
    assert((TWO_PI as int) * 1 + r == r + TWO_PI);
}

/// Sine and cosine of any angle stay within a quarter turn of magnitude.
pub proof fn lemma_sin_cos_bounds(r: int)
    ensures
        -HALF_PI <= spec_sin(r) <= HALF_PI,
        -HALF_PI <= spec_cos(r) <= HALF_PI,
{
    vstd::arithmetic::div_mod::lemma_mod_bound(r, TWO_PI as int);
    let a: int = spec_reduce_angle(r);
    vstd::arithmetic::div_mod::lemma_mod_bound(a, HALF_PI as int);
    lemma_quarter_bounds(a % (HALF_PI as int));
}

/// Fixed-point arctangent of a ratio `z` in `[0, SCALE]` (representing a real
/// ratio in `[0, 1]`): a degree-nine minimax polynomial evaluated in integer
/// arithmetic.
pub open spec fn spec_atan_unit(z: int) -> int {
    let w: int = (z * z) / (SCALE as int);
    let q7: int = 85_133 - (w * 20_835) / (SCALE as int);
    let q5: int = 180_141 - (w * q7) / (SCALE as int);
    let q3: int = 330_300 - (w * q5) / (SCALE as int);
    let q1: int = 999_866 - (w * q3) / (SCALE as int);
    (z * q1) / (SCALE as int)
}

fn atan_unit(z: i64) -> (a: i64)
    requires
        0 <= z <= SCALE,
    ensures
        a as int == spec_atan_unit(z as int),
        0 <= a <= SCALE,
{
    proof {
        assert(z * z <= 1_000_000i64 * 1_000_000i64) by (nonlinear_arith)
            requires
                0 <= z <= 1_000_000,
        ;
    }
    let w: i64 = (z * z) / SCALE;
    proof {
        assert(w * 20_835 <= 1_000_000i64 * 20_835i64 && w * 20_835 >= 0) by (nonlinear_arith)
            requires
                0 <= w <= 1_000_000,
        ;
    }
    let q7: i64 = 85_133 - (w * 20_835) / SCALE;
    proof {
        assert(w * q7 <= 1_000_000i64 * 85_133i64 && w * q7 >= 0) by (nonlinear_arith)
            requires
                0 <= w <= 1_000_000,
                0 <= q7 <= 85_133,
        ;
    }
    let q5: i64 = 180_141 - (w * q7) / SCALE;
    proof {
        assert(w * q5 <= 1_000_000i64 * 180_141i64 && w * q5 >= 0) by (nonlinear_arith)
            requires
                0 <= w <= 1_000_000,
                0 <= q5 <= 180_141,
        ;
    }
    let q3: i64 = 330_300 - (w * q5) / SCALE;
    proof {
        assert(w * q3 <= 1_000_000i64 * 330_300i64 && w * q3 >= 0) by (nonlinear_arith)
            requires
                0 <= w <= 1_000_000,
                0 <= q3 <= 330_300,
        ;
    }
    let q1: i64 = 999_866 - (w * q3) / SCALE;
    proof {
        assert(z * q1 <= 1_000_000i64 * 999_866i64 && z * q1 >= 0) by (nonlinear_arith)
            requires
                0 <= z <= 1_000_000,
                0 <= q1 <= 999_866,
        ;
    }
    (z * q1) / SCALE
}

/// Largest magnitude accepted by [`atan2`] for either component.
pub const MAX_ATAN2_ARG: i64 = 20_000_000_000_000;

/// Fixed-point four-quadrant arctangent of `y / x`, in `(-PI, PI]`. On the
/// axes it is exact: `0` on the positive x axis, `PI` on the negative x axis,
/// `HALF_PI` and `-HALF_PI` on the positive and negative y axis, and `0` at
/// the origin. Elsewhere it reduces the ratio of magnitudes into `[0, 1]` and
/// dispatches on the octant over [`spec_atan_unit`].
pub open spec fn spec_atan2(y: int, x: int) -> int {
    if y == 0 && x == 0 {
        0
    } else if y == 0 {
        if x > 0 {
            0
        } else {
            PI as int
        }
    } else if x == 0 {
        if y > 0 {
            HALF_PI as int
        } else {
            -HALF_PI as int
        }
    } else {
        let ax: int = abs(x);
        let ay: int = abs(y);
        let base: int = if ay <= ax {
            spec_atan_unit((ay * (SCALE as int)) / ax)
        } else {
            (HALF_PI as int) - spec_atan_unit((ax * (SCALE as int)) / ay)
        };
        let mag: int = if x > 0 {
            base
        } else {
            (PI as int) - base
        };
        if y > 0 {
            mag
        } else {
            -mag
        }
    }
}

/// Ratio of two magnitudes brought onto the fixed-point unit interval:
/// `(small * SCALE) / large`, carried out in 128-bit arithmetic.
fn unit_ratio(small: i64, large: i64) -> (z: i64)
    requires
        0 <= small <= large,
        0 < large,
    ensures
        z as int == (small * SCALE) / (large as int),
        0 <= z <= SCALE,
{
    let wide: i128 = (small as i128) * (SCALE as i128) / (large as i128);
    proof {
        assert(small * SCALE <= large * SCALE) by (nonlinear_arith)
            requires
                0 <= small <= large,
        ;
        vstd::arithmetic::div_mod::lemma_div_is_ordered(
            (small as int) * (SCALE as int),
            (large as int) * (SCALE as int),
            large as int,
        );
        vstd::arithmetic::div_mod::lemma_div_by_multiple(SCALE as int, large as int);
        assert((small as int) * (SCALE as int) / (large as int) >= 0) by (nonlinear_arith)
            requires
                0 <= small,
                0 < large,
        ;
    }
    wide as i64
}

/// Four-quadrant arctangent, exactly [`spec_atan2`].
pub fn atan2(y: i64, x: i64) -> (a: i64)
    requires
        -MAX_ATAN2_ARG <= y <= MAX_ATAN2_ARG,
        -MAX_ATAN2_ARG <= x <= MAX_ATAN2_ARG,
    ensures
        a as int == spec_atan2(y as int, x as int),
        -PI <= a <= PI,
{
    if y == 0 && x == 0 {
        0
    } else if y == 0 {
        if x > 0 {
            0
        } else {
            PI
        }
    } else if x == 0 {
        if y > 0 {
            HALF_PI
        } else {
            -HALF_PI
        }
    } else {
        let ax: i64 = if x < 0 {
            -x
        } else {
            x
        };
        let ay: i64 = if y < 0 {
            -y
        } else {
            y
        };
        let base: i64 = if ay <= ax {
            atan_unit(unit_ratio(ay, ax))
        } else {
            HALF_PI - atan_unit(unit_ratio(ax, ay))
        };
        let mag: i64 = if x > 0 {
            base
        } else {
            PI - base
        };
        if y > 0 {
            mag
        } else {
            -mag
        }
    }
}

} // verus!
