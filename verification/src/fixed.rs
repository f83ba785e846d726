//! Signed binary fixed-point arithmetic with 48 fractional bits.
//!
//! All trigonometry in this crate runs on `i128`/`u128` values scaled by
//! `FP_ONE` = 2^48.  Every executable operation here is pinned by an exact
//! specification twin, so callers reason about the precise integer value a
//! computation produces, not an approximation.

use vstd::prelude::*;

verus! {

/// The fixed-point scale: 2^48.
pub const FP_ONE: u128 = 281474976710656;

/// `FP_ONE` as a signed value.
pub const FP_ONE_I: i128 = 281474976710656;

/// Truncating (toward zero) division of a product by the fixed-point scale.
pub open spec fn spec_fp_trunc(p: int) -> int {
    if p >= 0 {
        p / (FP_ONE as int)
    } else {
        -((-p) / (FP_ONE as int))
    }
}

/// Fixed-point product of two non-negative values.
pub open spec fn spec_umul_fp(a: int, b: int) -> int {
    (a * b) / (FP_ONE as int)
}

/// Fixed-point product of two signed values, truncated toward zero.
pub open spec fn spec_smul_fp(a: int, b: int) -> int {
    spec_fp_trunc(a * b)
}

/// Fixed-point quotient `(a << 48) / b` of two non-negative values.
pub open spec fn spec_udiv_fp(a: int, b: int) -> int {
    (a * (FP_ONE as int)) / b
}

/// Truncating (toward zero) halving of a signed value.
pub open spec fn spec_half(x: int) -> int {
    if x >= 0 {
        x / 2
    } else {
        -((-x) / 2)
    }
}

/// Magnitude of a signed value.
pub open spec fn spec_abs(x: int) -> int {
    if x >= 0 {
        x
    } else {
        -x
    }
}

/// Whether `r` is the integer square root of `n`.
pub open spec fn is_sqrt(n: int, r: int) -> bool {
    0 <= r && r * r <= n && n < (r + 1) * (r + 1)
}

/// The integer square root: the unique `r >= 0` with `r * r <= n < (r + 1) * (r + 1)`.
pub open spec fn spec_sqrt(n: int) -> int {
    choose|r: int| is_sqrt(n, r)
}

/// The square root is uniquely determined, so any witness equals `spec_sqrt`.
pub proof fn lemma_sqrt_unique(n: int, r: int)
    requires
        is_sqrt(n, r),
    ensures
        r == spec_sqrt(n),
{
    assert(is_sqrt(n, r));
    let w = choose|w: int| is_sqrt(n, w);
    assert(is_sqrt(n, w));
    if w < r {
        assert((w + 1) * (w + 1) <= r * r) by (nonlinear_arith)
            requires
                0 <= w + 1,
                w + 1 <= r,
        ;
    }
    if r < w {
        assert((r + 1) * (r + 1) <= w * w) by (nonlinear_arith)
            requires
                0 <= r + 1,
                r + 1 <= w,
        ;
    }
    assert(w == r);
}

/// The signed fixed-point product is commutative.
pub proof fn lemma_smul_fp_comm(a: int, b: int)
    ensures
        spec_smul_fp(a, b) == spec_smul_fp(b, a),
{
    assert(a * b == b * a) by (nonlinear_arith);
}

/// Bounds a non-negative fixed-point product from a bound on the plain product.
pub proof fn lemma_umul_fp_bound(a: int, b: int, bound: int)
    requires
        0 <= a,
        0 <= b,
        a * b <= bound * 281474976710656,
    ensures
        0 <= spec_umul_fp(a, b) <= bound,
{
    assert(0 <= a * b) by (nonlinear_arith)
        requires
            0 <= a,
            0 <= b,
    ;
    assert((a * b) / 281474976710656 <= (bound * 281474976710656) / 281474976710656) by (
    nonlinear_arith)
        requires
            a * b <= bound * 281474976710656,
    ;
    assert((bound * 281474976710656) / 281474976710656 == bound) by (nonlinear_arith);
}

/// Bounds the magnitude of a signed fixed-point product, and records that the
/// product is commutative and agrees with the unsigned product on non-negative
/// operands.
pub proof fn lemma_smul_fp_bound(a: int, b: int, ca: int, cb: int)
    requires
        spec_abs(a) <= ca,
        spec_abs(b) <= cb,
    ensures
        spec_abs(spec_smul_fp(a, b)) <= (ca * cb) / 281474976710656,
        spec_smul_fp(a, b) == spec_smul_fp(b, a),
        0 <= a && 0 <= b ==> spec_smul_fp(a, b) == spec_umul_fp(a, b) && 0 <= spec_smul_fp(a, b),
{
    assert(a * b == b * a) by (nonlinear_arith);
    assert(spec_abs(a * b) <= ca * cb) by (nonlinear_arith)
        requires
            spec_abs(a) <= ca,
            spec_abs(b) <= cb,
    ;
    let p = a * b;
    if p >= 0 {
        assert(p / 281474976710656 <= (ca * cb) / 281474976710656) by (nonlinear_arith)
            requires
                p <= ca * cb,
        ;
        assert(0 <= p / 281474976710656) by (nonlinear_arith)
            requires
                0 <= p,
        ;
    } else {
        assert((-p) / 281474976710656 <= (ca * cb) / 281474976710656) by (nonlinear_arith)
            requires
                -p <= ca * cb,
        ;
        assert(0 <= (-p) / 281474976710656) by (nonlinear_arith)
            requires
                0 <= -p,
        ;
    }
    if 0 <= a && 0 <= b {
        assert(0 <= a * b) by (nonlinear_arith)
            requires
                0 <= a,
                0 <= b,
        ;
    }
}

/// Fixed-point product of non-negative operands.
pub(crate) fn umul_fp(a: u128, b: u128) -> (r: u128)
    requires
        a <= 4503599627370496,
        b <= 4503599627370496,
    ensures
        r == spec_umul_fp(a as int, b as int),
{
    proof {
        assert(a * b <= 4503599627370496int * 4503599627370496int) by (nonlinear_arith)
            requires
                0 <= a <= 4503599627370496,
                0 <= b <= 4503599627370496,
        ;
    }
    let p: u128 = a * b;
    p / FP_ONE
}

/// Fixed-point product of signed operands, truncated toward zero.
pub(crate) fn smul_fp(a: i128, b: i128) -> (r: i128)
    requires
        spec_abs(a as int) <= 4503599627370496,
        spec_abs(b as int) <= 4503599627370496,
    ensures
        r == spec_smul_fp(a as int, b as int),
{
    proof {
        assert(-(4503599627370496int * 4503599627370496int) <= a * b <= 4503599627370496int
            * 4503599627370496int) by (nonlinear_arith)
            requires
                spec_abs(a as int) <= 4503599627370496,
                spec_abs(b as int) <= 4503599627370496,
        ;
    }
    let p: i128 = a * b;
    p / FP_ONE_I
}

/// Fixed-point quotient of non-negative operands: `(a << 48) / b`.
pub(crate) fn udiv_fp(a: u128, b: u128) -> (r: u128)
    requires
        a <= 4503599627370496,
        b >= 1,
    ensures
        r == spec_udiv_fp(a as int, b as int),
{
    proof {
        assert(a * 281474976710656int <= 4503599627370496int * 281474976710656int) by (
        nonlinear_arith)
            requires
                0 <= a <= 4503599627370496,
        ;
    }
    (a * FP_ONE) / b
}

/// Integer square root by binary search.
pub(crate) fn usqrt(n: u128) -> (r: u128)
    requires
        n <= 281474976710656int * 281474976710656int,
    ensures
        r == spec_sqrt(n as int),
        r * r <= n,
        n < (r + 1) * (r + 1),
        r <= FP_ONE,
{
    let mut lo: u128 = 0;
    let mut hi: u128 = 281474976710657;  // 2^48 + 1
    proof {
        assert(n < hi * hi) by (nonlinear_arith)
            requires
                n <= 281474976710656int * 281474976710656int,
                hi == 281474976710657,
        ;
    }
    while hi - lo > 1
        invariant
            lo < hi,
            hi <= 281474976710657,
            lo * lo <= n,
            n < hi * hi,
        decreases hi - lo,
    {
        let mid: u128 = lo + (hi - lo) / 2;
        proof {
            assert(mid * mid <= 281474976710657int * 281474976710657int) by (nonlinear_arith)
                requires
                    0 <= mid <= 281474976710657,
            ;
        }
        if mid * mid <= n {
            lo = mid;
        } else {
            hi = mid;
        }
    }
    proof {
        assert(hi == lo + 1);
        lemma_sqrt_unique(n as int, lo as int);
        assert(lo <= 281474976710656) by (nonlinear_arith)
            requires
                lo * lo <= n,
                n <= 281474976710656int * 281474976710656int,
                0 <= lo,
        ;
    }
    lo
}

} // verus!
