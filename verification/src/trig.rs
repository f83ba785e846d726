//! Fixed-point trigonometry: sine, cosine, arctangent, arcsine, and the
//! degree/radian conversions the geodesic formulas need.
//!
//! Angles are Q48 fixed-point radians (`fixed::FP_ONE` is 1.0).  Sine and
//! cosine reduce into the first quadrant and evaluate a truncated Taylor
//! series by Horner steps; the arctangent reduces through the half-angle
//! identity to a short alternating series.  Each executable function is
//! pinned to an exact specification twin, so the library's geodesic
//! contracts state precisely which integer every operation returns.

use vstd::prelude::*;
use crate::fixed::FP_ONE;
use crate::fixed::FP_ONE_I;
use crate::fixed::spec_umul_fp;
use crate::fixed::spec_udiv_fp;
use crate::fixed::spec_abs;
use crate::fixed::spec_sqrt;
use crate::fixed::umul_fp;
use crate::fixed::udiv_fp;
use crate::fixed::usqrt;
use crate::fixed::lemma_umul_fp_bound;

verus! {

/// One quarter turn (pi/4) in Q48 radians; the other turn constants are its
/// exact multiples so that quadrant reductions cancel without rounding.
pub const FP_QUARTER_PI: u128 = 221069929750889;

/// pi/2 in Q48 radians.
pub const FP_HALF_PI: u128 = 442139859501778;

/// pi in Q48 radians.
pub const FP_PI: u128 = 884279719003556;

/// 2*pi in Q48 radians.
pub const FP_TWO_PI: u128 = 1768559438007112;

/// pi in Q48 radians, signed.
pub const FP_PI_I: i128 = 884279719003556;

/// pi/2 in Q48 radians, signed.
pub const FP_HALF_PI_I: i128 = 442139859501778;

/// tan(pi/8) in Q48; threshold for the arctangent half-angle reduction.
pub const FP_TAN_PI_8: u128 = 116590752822205;

/// Upper bound on arguments of the arctangent series (slightly above
/// tan(pi/8), covering both reduction branches).
pub const ATAN_ARG_MAX: u128 = 117000000000000;

/// Ten-millionths of a degree in a half turn (180 degrees).
pub const E7_HALF_TURN: i64 = 1800000000;

/// Clamps a value from above.
pub open spec fn spec_cap(x: int, hi: int) -> int {
    if x > hi {
        hi
    } else {
        x
    }
}

/// One Horner step of the sine/cosine series: `1 - (x2 * p / c)`, with the
/// subtracted term clamped so the step always stays in `[0, 1]`.
pub open spec fn spec_sc_step(x2: int, p: int, c: int) -> int {
    (FP_ONE as int) - spec_cap(spec_umul_fp(x2, p) / c, FP_ONE as int)
}

fn sc_step(x2: u128, p: u128, c: u128) -> (r: u128)
    requires
        x2 <= 4503599627370496,
        p <= FP_ONE,
        1 <= c,
    ensures
        r == spec_sc_step(x2 as int, p as int, c as int),
        r <= FP_ONE,
{
    let u0: u128 = umul_fp(x2, p);
    let u1: u128 = u0 / c;
    let u: u128 = if u1 > FP_ONE {
        FP_ONE
    } else {
        u1
    };
    FP_ONE - u
}

/// One step of the arctangent series: `c - (u2 * acc)`, clamped into `[0, c]`.
pub open spec fn spec_at_step(u2: int, acc: int, c: int) -> int {
    c - spec_cap(spec_umul_fp(u2, acc), c)
}

fn at_step(u2: u128, acc: u128, c: u128) -> (r: u128)
    requires
        u2 <= 4503599627370496,
        acc <= FP_ONE,
    ensures
        r == spec_at_step(u2 as int, acc as int, c as int),
        r <= c,
{
    let u0: u128 = umul_fp(u2, acc);
    let u: u128 = if u0 > c {
        c
    } else {
        u0
    };
    c - u
}

/// Taylor sine on the first quadrant, terms through x^13.
pub open spec fn spec_sin_tay(x: int) -> int {
    let x2 = spec_umul_fp(x, x);
    let p1 = spec_sc_step(x2, FP_ONE as int, 156);
    let p2 = spec_sc_step(x2, p1, 110);
    let p3 = spec_sc_step(x2, p2, 72);
    let p4 = spec_sc_step(x2, p3, 42);
    let p5 = spec_sc_step(x2, p4, 20);
    let p6 = spec_sc_step(x2, p5, 6);
    spec_cap(spec_umul_fp(x, p6), FP_ONE as int)
}

fn sin_tay(x: u128) -> (r: u128)
    requires
        x <= FP_HALF_PI,
    ensures
        r == spec_sin_tay(x as int),
        r <= FP_ONE,
{
    proof {
        assert(x * x <= 844424930131968int * 281474976710656int) by (nonlinear_arith)
            requires
                0 <= x <= 442139859501778,
        ;
        lemma_umul_fp_bound(x as int, x as int, 844424930131968);
    }
    let x2: u128 = umul_fp(x, x);
    let p1: u128 = sc_step(x2, FP_ONE, 156);
    let p2: u128 = sc_step(x2, p1, 110);
    let p3: u128 = sc_step(x2, p2, 72);
    let p4: u128 = sc_step(x2, p3, 42);
    let p5: u128 = sc_step(x2, p4, 20);
    let p6: u128 = sc_step(x2, p5, 6);
    let s: u128 = umul_fp(x, p6);
    if s > FP_ONE {
        FP_ONE
    } else {
        s
    }
}

/// Taylor cosine on the first quadrant, terms through x^14.
pub open spec fn spec_cos_tay(x: int) -> int {
    let x2 = spec_umul_fp(x, x);
    let p1 = spec_sc_step(x2, FP_ONE as int, 182);
    let p2 = spec_sc_step(x2, p1, 132);
    let p3 = spec_sc_step(x2, p2, 90);
    let p4 = spec_sc_step(x2, p3, 56);
    let p5 = spec_sc_step(x2, p4, 30);
    let p6 = spec_sc_step(x2, p5, 12);
    spec_sc_step(x2, p6, 2)
}

fn cos_tay(x: u128) -> (r: u128)
    requires
        x <= FP_HALF_PI,
    ensures
        r == spec_cos_tay(x as int),
        r <= FP_ONE,
{
    proof {
        assert(x * x <= 844424930131968int * 281474976710656int) by (nonlinear_arith)
            requires
                0 <= x <= 442139859501778,
        ;
        lemma_umul_fp_bound(x as int, x as int, 844424930131968);
    }
    let x2: u128 = umul_fp(x, x);
    let p1: u128 = sc_step(x2, FP_ONE, 182);
    let p2: u128 = sc_step(x2, p1, 132);
    let p3: u128 = sc_step(x2, p2, 90);
    let p4: u128 = sc_step(x2, p3, 56);
    let p5: u128 = sc_step(x2, p4, 30);
    let p6: u128 = sc_step(x2, p5, 12);
    sc_step(x2, p6, 2)
}

/// Reduction of any Q48 angle into `[0, 2*pi)`.
pub open spec fn spec_reduce(x: int) -> int {
    if x >= 0 {
        x % (FP_TWO_PI as int)
    } else {
        let t = (-x) % (FP_TWO_PI as int);
        if t == 0 {
            0
        } else {
            (FP_TWO_PI as int) - t
        }
    }
}

fn reduce(x: i128) -> (m: u128)
    requires
        x != i128::MIN,
    ensures
        m == spec_reduce(x as int),
        m < FP_TWO_PI,
{
    if x >= 0 {
        (x as u128) % FP_TWO_PI
    } else {
        let t: u128 = ((-x) as u128) % FP_TWO_PI;
        if t == 0 {
            0
        } else {
            FP_TWO_PI - t
        }
    }
}

/// Sine of any Q48 angle, by quadrant reduction into the Taylor series.
pub open spec fn spec_sin_fp(x: int) -> int {
    let m = spec_reduce(x);
    if m < FP_HALF_PI {
        spec_sin_tay(m)
    } else if m < FP_PI {
        spec_sin_tay((FP_PI as int) - m)
    } else if m < (FP_PI as int) + (FP_HALF_PI as int) {
        -spec_sin_tay(m - (FP_PI as int))
    } else {
        -spec_sin_tay((FP_TWO_PI as int) - m)
    }
}

pub(crate) fn sin_fp(x: i128) -> (r: i128)
    requires
        x != i128::MIN,
    ensures
        r == spec_sin_fp(x as int),
        -FP_ONE_I <= r <= FP_ONE_I,
{
    let m: u128 = reduce(x);
    if m < FP_HALF_PI {
        sin_tay(m) as i128
    } else if m < FP_PI {
        sin_tay(FP_PI - m) as i128
    } else if m < FP_PI + FP_HALF_PI {
        -(sin_tay(m - FP_PI) as i128)
    } else {
        -(sin_tay(FP_TWO_PI - m) as i128)
    }
}

/// Cosine of any Q48 angle, by quadrant reduction into the Taylor series.
pub open spec fn spec_cos_fp(x: int) -> int {
    let m = spec_reduce(x);
    if m < FP_HALF_PI {
        spec_cos_tay(m)
    } else if m < FP_PI {
        -spec_cos_tay((FP_PI as int) - m)
    } else if m < (FP_PI as int) + (FP_HALF_PI as int) {
        -spec_cos_tay(m - (FP_PI as int))
    } else {
        spec_cos_tay((FP_TWO_PI as int) - m)
    }
}

pub(crate) fn cos_fp(x: i128) -> (r: i128)
    requires
        x != i128::MIN,
    ensures
        r == spec_cos_fp(x as int),
        -FP_ONE_I <= r <= FP_ONE_I,
{
    let m: u128 = reduce(x);
    if m < FP_HALF_PI {
        cos_tay(m) as i128
    } else if m < FP_PI {
        -(cos_tay(FP_PI - m) as i128)
    } else if m < FP_PI + FP_HALF_PI {
        -(cos_tay(m - FP_PI) as i128)
    } else {
        cos_tay(FP_TWO_PI - m) as i128
    }
}

/// Arctangent series on `[0, tan(pi/8)]`, terms through u^19.
pub open spec fn spec_atan_tay(u: int) -> int {
    let u2 = spec_umul_fp(u, u);
    let a1 = spec_at_step(u2, 14814472458456, 16557351571215);
    let a2 = spec_at_step(u2, a1, 18764998447377);
    let a3 = spec_at_step(u2, a2, 21651921285435);
    let a4 = spec_at_step(u2, a3, 25588634246423);
    let a5 = spec_at_step(u2, a4, 31274997412295);
    let a6 = spec_at_step(u2, a5, 40210710958665);
    let a7 = spec_at_step(u2, a6, 56294995342131);
    let a8 = spec_at_step(u2, a7, 93824992236885);
    let a9 = spec_at_step(u2, a8, FP_ONE as int);
    spec_umul_fp(u, a9)
}

fn atan_tay(u: u128) -> (r: u128)
    requires
        u <= ATAN_ARG_MAX,
    ensures
        r == spec_atan_tay(u as int),
        r <= ATAN_ARG_MAX,
{
    proof {
        assert(u * u <= 4503599627370496int * 281474976710656int) by (nonlinear_arith)
            requires
                0 <= u <= 117000000000000,
        ;
        lemma_umul_fp_bound(u as int, u as int, 4503599627370496);
    }
    let u2: u128 = umul_fp(u, u);
    let a1: u128 = at_step(u2, 14814472458456, 16557351571215);
    let a2: u128 = at_step(u2, a1, 18764998447377);
    let a3: u128 = at_step(u2, a2, 21651921285435);
    let a4: u128 = at_step(u2, a3, 25588634246423);
    let a5: u128 = at_step(u2, a4, 31274997412295);
    let a6: u128 = at_step(u2, a5, 40210710958665);
    let a7: u128 = at_step(u2, a6, 56294995342131);
    let a8: u128 = at_step(u2, a7, 93824992236885);
    let a9: u128 = at_step(u2, a8, FP_ONE);
    let r: u128 = umul_fp(u, a9);
    proof {
        assert(u * a9 <= 117000000000000int * 281474976710656int) by (nonlinear_arith)
            requires
                0 <= u <= 117000000000000,
                0 <= a9 <= 281474976710656,
        ;
        lemma_umul_fp_bound(u as int, a9 as int, 117000000000000);
    }
    r
}

/// Arctangent on `[0, 1]`, via the half-angle identity
/// `atan(t) = pi/4 - atan((1 - t) / (1 + t))` above tan(pi/8).
pub open spec fn spec_atan_fp(t: int) -> int {
    if t <= FP_TAN_PI_8 {
        spec_atan_tay(t)
    } else {
        (FP_QUARTER_PI as int) - spec_atan_tay(
            spec_udiv_fp((FP_ONE as int) - t, (FP_ONE as int) + t),
        )
    }
}

fn atan_fp(t: u128) -> (r: u128)
    requires
        t <= FP_ONE,
    ensures
        r == spec_atan_fp(t as int),
        r <= FP_QUARTER_PI,
{
    if t <= FP_TAN_PI_8 {
        atan_tay(t)
    } else {
        let num: u128 = FP_ONE - t;
        let den: u128 = FP_ONE + t;
        let v: u128 = udiv_fp(num, den);
        proof {
            assert(num * 281474976710656 <= 117000000000000int * den) by (nonlinear_arith)
                requires
                    num == 281474976710656 - t,
                    den == 281474976710656 + t,
                    116590752822205 < t <= 281474976710656,
            ;
            assert(v <= 117000000000000) by (nonlinear_arith)
                requires
                    v == (num * 281474976710656int) / (den as int),
                    num * 281474976710656int <= 117000000000000int * den,
                    den >= 1,
            ;
        }
        let a: u128 = atan_tay(v);
        FP_QUARTER_PI - a
    }
}

/// Four-quadrant arctangent over Q48 fixed-point operands, with the usual
/// conventions: `atan2(0, x >= 0) == 0` and `atan2(0, x < 0) == pi`.
pub open spec fn spec_atan2_fp(y: int, x: int) -> int {
    let ay = spec_abs(y);
    let ax = spec_abs(x);
    let base = if ay <= ax {
        if ax == 0 {
            0
        } else {
            spec_atan_fp(spec_udiv_fp(ay, ax))
        }
    } else {
        (FP_HALF_PI as int) - spec_atan_fp(spec_udiv_fp(ax, ay))
    };
    if x >= 0 {
        if y >= 0 {
            base
        } else {
            -base
        }
    } else {
        if y >= 0 {
            (FP_PI as int) - base
        } else {
            base - (FP_PI as int)
        }
    }
}

pub(crate) fn atan2_fp(y: i128, x: i128) -> (r: i128)
    requires
        spec_abs(y as int) <= 1125899906842624,
        spec_abs(x as int) <= 1125899906842624,
    ensures
        r == spec_atan2_fp(y as int, x as int),
        -FP_PI_I <= r <= FP_PI_I,
        y >= 0 && x >= 0 ==> 0 <= r <= FP_HALF_PI_I,
{
    let ay: u128 = if y < 0 {
        (-y) as u128
    } else {
        y as u128
    };
    let ax: u128 = if x < 0 {
        (-x) as u128
    } else {
        x as u128
    };
    let base: u128 = if ay <= ax {
        if ax == 0 {
            0
        } else {
            let q: u128 = udiv_fp(ay, ax);
            proof {
                assert(q <= 281474976710656) by (nonlinear_arith)
                    requires
                        q == (ay * 281474976710656int) / (ax as int),
                        ay <= ax,
                        1 <= ax,
                ;
            }
            atan_fp(q)
        }
    } else {
        let q: u128 = udiv_fp(ax, ay);
        proof {
            assert(q <= 281474976710656) by (nonlinear_arith)
                requires
                    q == (ax * 281474976710656int) / (ay as int),
                    ax <= ay,
                    1 <= ay,
            ;
        }
        let a: u128 = atan_fp(q);
        FP_HALF_PI - a
    };
    let b: i128 = base as i128;
    if x >= 0 {
        if y >= 0 {
            b
        } else {
            -b
        }
    } else {
        if y >= 0 {
            FP_PI_I - b
        } else {
            b - FP_PI_I
        }
    }
}

/// Fixed-point square root of a value in `[0, 1]`.
pub open spec fn spec_sqrt_fp(a: int) -> int {
    spec_sqrt(a * (FP_ONE as int))
}

pub(crate) fn sqrt_fp(a: u128) -> (r: u128)
    requires
        a <= FP_ONE,
    ensures
        r == spec_sqrt_fp(a as int),
        r <= FP_ONE,
{
    proof {
        assert(a * 281474976710656int <= 281474976710656int * 281474976710656int) by (
        nonlinear_arith)
            requires
                0 <= a <= 281474976710656,
        ;
    }
    usqrt(a * FP_ONE)
}

/// Arcsine on `[-1, 1]`, as `atan2(|z|, sqrt(1 - z^2))` with the sign of `z`.
pub open spec fn spec_asin_fp(z: int) -> int {
    let az = spec_abs(z);
    let w2 = (FP_ONE as int) - spec_cap(spec_umul_fp(az, az), FP_ONE as int);
    let w = spec_sqrt_fp(w2);
    let r = spec_atan2_fp(az, w);
    if z < 0 {
        -r
    } else {
        r
    }
}

pub(crate) fn asin_fp(z: i128) -> (r: i128)
    requires
        spec_abs(z as int) <= FP_ONE_I,
    ensures
        r == spec_asin_fp(z as int),
        -FP_HALF_PI_I <= r <= FP_HALF_PI_I,
        z >= 0 ==> r >= 0,
{
    let az: u128 = if z < 0 {
        (-z) as u128
    } else {
        z as u128
    };
    let sq0: u128 = umul_fp(az, az);
    let sq: u128 = if sq0 > FP_ONE {
        FP_ONE
    } else {
        sq0
    };
    let w2: u128 = FP_ONE - sq;
    let w: u128 = sqrt_fp(w2);
    let r0: i128 = atan2_fp(az as i128, w as i128);
    if z < 0 {
        -r0
    } else {
        r0
    }
}

/// Ten-millionths of a degree to Q48 radians, truncated toward zero.
pub open spec fn spec_deg_e7_to_rad(d: int) -> int {
    if d >= 0 {
        (d * (FP_PI as int)) / 1800000000
    } else {
        -(((-d) * (FP_PI as int)) / 1800000000)
    }
}

pub(crate) fn deg_e7_to_rad(d: i64) -> (r: i128)
    ensures
        r == spec_deg_e7_to_rad(d as int),
        spec_abs(r as int) <= 4600000000000000000000000000,
        spec_abs(d as int) <= 3600000000 ==> spec_abs(r as int) <= 2 * (FP_PI as int),
{
    let neg: bool = d < 0;
    let m: u128 = if neg {
        (-(d as i128)) as u128
    } else {
        d as u128
    };
    proof {
        assert(m * 884279719003556int <= 9223372036854775808int * 884279719003556int) by (
        nonlinear_arith)
            requires
                0 <= m <= 9223372036854775808,
        ;
        assert((m * 884279719003556int) / 1800000000 <= 4600000000000000000000000000int) by (
        nonlinear_arith)
            requires
                m * 884279719003556int <= 9223372036854775808int * 884279719003556int,
        ;
        if m <= 3600000000 {
            assert(m * 884279719003556int <= 3600000000int * 884279719003556int) by (
            nonlinear_arith)
                requires
                    0 <= m <= 3600000000,
            ;
        }
    }
    let q: u128 = (m * (FP_PI as u128)) / 1800000000;
    if neg {
        -(q as i128)
    } else {
        q as i128
    }
}

/// Q48 radians to ten-millionths of a degree, truncated toward zero.
pub open spec fn spec_rad_to_deg_e7(r: int) -> int {
    if r >= 0 {
        (r * 1800000000) / (FP_PI as int)
    } else {
        -(((-r) * 1800000000) / (FP_PI as int))
    }
}

pub(crate) fn rad_to_deg_e7(r: i128) -> (d: i64)
    requires
        spec_abs(r as int) <= 2 * (FP_PI as int),
    ensures
        d == spec_rad_to_deg_e7(r as int),
        spec_abs(d as int) <= 7200000000,
        spec_abs(r as int) <= FP_PI as int ==> spec_abs(d as int) <= 1800000000,
        spec_abs(r as int) <= FP_HALF_PI as int ==> spec_abs(d as int) <= 900000000,
{
    let neg: bool = r < 0;
    let m: u128 = if neg {
        (-r) as u128
    } else {
        r as u128
    };
    proof {
        assert(m * 1800000000int <= 1768559438007112int * 1800000000int) by (nonlinear_arith)
            requires
                0 <= m <= 1768559438007112,
        ;
    }
    let q: u128 = (m * 1800000000) / FP_PI;
    if neg {
        -(q as i64)
    } else {
        q as i64
    }
}

} // verus!
