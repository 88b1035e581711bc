//! Fixed-point scalar arithmetic.
//!
//! All geometric and shading quantities in this crate are Q47.16 fixed-point
//! numbers: an `i64` holding `value * FX_ONE` with `FX_ONE = 2^16`.  Every
//! operation saturates at `FX_SAT = 2^62`, so the operations are total and
//! their exec implementations match the spec-level model exactly, with no
//! overflow side conditions leaking into callers' contracts.
use vstd::prelude::*;

verus! {

use vstd::arithmetic::div_mod::lemma_fundamental_div_mod;
use vstd::arithmetic::div_mod::lemma_fundamental_div_mod_converse_mod;

/// The fixed-point representation of 1.0.
pub const FX_ONE: i64 = 65536;

/// Saturation bound of every fixed-point operation (2^62).
pub const FX_SAT: i64 = 4611686018427387904;

/// Clamp an unbounded integer into the representable fixed-point range.
pub open spec fn sat_fx(v: int) -> int {
    if v > FX_SAT {
        FX_SAT as int
    } else if v < -FX_SAT {
        -FX_SAT as int
    } else {
        v
    }
}

/// Magnitude of an integer.
pub open spec fn fx_abs(a: int) -> int {
    if a >= 0 {
        a
    } else {
        -a
    }
}

/// Division rounding toward zero, the rule the exec code computes with.
pub open spec fn quot(a: int, b: int) -> int
    recommends
        b != 0,
{
    if (a >= 0) == (b >= 0) {
        fx_abs(a) / fx_abs(b)
    } else {
        -(fx_abs(a) / fx_abs(b))
    }
}

/// Saturating fixed-point addition.
pub open spec fn fx_add(a: int, b: int) -> int {
    sat_fx(a + b)
}

/// Saturating fixed-point subtraction.
pub open spec fn fx_sub(a: int, b: int) -> int {
    sat_fx(a - b)
}

/// Saturating fixed-point multiplication: `a * b / FX_ONE`, rounded toward zero.
pub open spec fn fx_mul(a: int, b: int) -> int {
    sat_fx(quot(a * b, FX_ONE as int))
}

/// Saturating fixed-point division: `a * FX_ONE / b`, rounded toward zero.
pub open spec fn fx_div(a: int, b: int) -> int
    recommends
        b != 0,
{
    sat_fx(quot(a * FX_ONE, b))
}

/// Saturating negation.
pub open spec fn fx_neg(a: int) -> int {
    sat_fx(-a)
}

pub open spec fn fx_min(a: int, b: int) -> int {
    if a <= b {
        a
    } else {
        b
    }
}

pub open spec fn fx_max(a: int, b: int) -> int {
    if a >= b {
        a
    } else {
        b
    }
}

/// Clamp `v` into `[lo, hi]`.
pub open spec fn fx_clamp(v: int, lo: int, hi: int) -> int
    recommends
        lo <= hi,
{
    if v < lo {
        lo
    } else if v > hi {
        hi
    } else {
        v
    }
}

fn sat128(v: i128) -> (r: i64)
    ensures
        r == sat_fx(v as int),
{
    if v > FX_SAT as i128 {
        FX_SAT
    } else if v < -(FX_SAT as i128) {
        -FX_SAT
    } else {
        v as i64
    }
}

fn quot_pos128(a: i128, b: i128) -> (r: i128)
    requires
        b > 0,
        a > i128::MIN,
    ensures
        r == quot(a as int, b as int),
{
    if a >= 0 {
        a / b
    } else {
        -((-a) / b)
    }
}

/// Saturating fixed-point addition.
pub fn add_fx(a: i64, b: i64) -> (r: i64)
    ensures
        r == fx_add(a as int, b as int),
{
    sat128(a as i128 + b as i128)
}

/// Saturating fixed-point subtraction.
pub fn sub_fx(a: i64, b: i64) -> (r: i64)
    ensures
        r == fx_sub(a as int, b as int),
{
    sat128(a as i128 - b as i128)
}

/// Saturating fixed-point multiplication.
pub fn mul_fx(a: i64, b: i64) -> (r: i64)
    ensures
        r == fx_mul(a as int, b as int),
{
    proof {
        assert((a as i128) * (b as i128) == a * b && i128::MIN < (a as i128) * (b as i128)
            <= i128::MAX) by (nonlinear_arith)
            requires
                i64::MIN <= a <= i64::MAX,
                i64::MIN <= b <= i64::MAX,
        ;
    }
    let wide: i128 = (a as i128) * (b as i128);
    let q: i128 = quot_pos128(wide, FX_ONE as i128);
    sat128(q)
}

/// Saturating fixed-point division.
pub fn div_fx(a: i64, b: i64) -> (r: i64)
    requires
        b != 0,
    ensures
        r == fx_div(a as int, b as int),
{
    proof {
        assert((a as i128) * (FX_ONE as i128) == a * FX_ONE && i128::MIN < (a as i128) * (
        FX_ONE as i128) <= i128::MAX) by (nonlinear_arith)
            requires
                i64::MIN <= a <= i64::MAX,
        ;
    }
    let wide: i128 = (a as i128) * (FX_ONE as i128);
    let q: i128 = if b > 0 {
        quot_pos128(wide, b as i128)
    } else {
        -quot_pos128(wide, -(b as i128))
    };
    proof {
        assert(q == quot(a * FX_ONE, b as int));
    }
    sat128(q)
}

/// Saturating negation.
pub fn neg_fx(a: i64) -> (r: i64)
    ensures
        r == fx_neg(a as int),
{
    if a >= FX_SAT {
        -FX_SAT
    } else if a <= -FX_SAT {
        FX_SAT
    } else {
        -a
    }
}

/// Magnitude, saturated.
pub fn abs_fx(a: i64) -> (r: i64)
    ensures
        r == sat_fx(fx_abs(a as int)),
{
    if a >= 0 {
        if a > FX_SAT {
            FX_SAT
        } else {
            a
        }
    } else {
        neg_fx(a)
    }
}

pub fn min_fx(a: i64, b: i64) -> (r: i64)
    ensures
        r == fx_min(a as int, b as int),
{
    if a <= b {
        a
    } else {
        b
    }
}

pub fn max_fx(a: i64, b: i64) -> (r: i64)
    ensures
        r == fx_max(a as int, b as int),
{
    if a >= b {
        a
    } else {
        b
    }
}

pub fn clamp_fx(v: i64, lo: i64, hi: i64) -> (r: i64)
    requires
        lo <= hi,
    ensures
        r == fx_clamp(v as int, lo as int, hi as int),
{
    if v < lo {
        lo
    } else if v > hi {
        hi
    } else {
        v
    }
}

/// Euclidean remainder: the result is in `[0, m)` whatever the sign of `a`.
pub fn emod_fx(a: i64, m: i64) -> (r: i64)
    requires
        m > 0,
    ensures
        r == (a as int) % (m as int),
{
    let r0: i64 = a % m;
    if r0 < 0 {
        proof {
            lemma_fundamental_div_mod(-(a as int), m as int);
            let k = (-(a as int)) / (m as int);
            let rm = (-(a as int)) % (m as int);
            assert(a as int == (m as int) * (-k - 1) + (m - rm)) by (nonlinear_arith)
                requires
                    -(a as int) == (m as int) * k + rm,
            ;
            lemma_fundamental_div_mod_converse_mod(a as int, m as int, -k - 1, m - rm);
        }
        r0 + m
    } else {
        proof {
            if a < 0 {
                lemma_fundamental_div_mod(-(a as int), m as int);
                let k = (-(a as int)) / (m as int);
                assert(a as int == (m as int) * (-k) + 0) by (nonlinear_arith)
                    requires
                        -(a as int) == (m as int) * k + 0,
                ;
                lemma_fundamental_div_mod_converse_mod(a as int, m as int, -k, 0);
            }
        }
        r0
    }
}

fn emod128(a: i128, m: i128) -> (r: i128)
    requires
        m > 0,
        a > i128::MIN,
    ensures
        r == (a as int) % (m as int),
        0 <= r < m,
{
    let r0: i128 = a % m;
    if r0 < 0 {
        proof {
            lemma_fundamental_div_mod(-(a as int), m as int);
            let k = (-(a as int)) / (m as int);
            let rm = (-(a as int)) % (m as int);
            assert(a as int == (m as int) * (-k - 1) + (m - rm)) by (nonlinear_arith)
                requires
                    -(a as int) == (m as int) * k + rm,
            ;
            lemma_fundamental_div_mod_converse_mod(a as int, m as int, -k - 1, m - rm);
        }
        r0 + m
    } else {
        proof {
            if a < 0 {
                lemma_fundamental_div_mod(-(a as int), m as int);
                let k = (-(a as int)) / (m as int);
                assert(a as int == (m as int) * (-k) + 0) by (nonlinear_arith)
                    requires
                        -(a as int) == (m as int) * k + 0,
                ;
                lemma_fundamental_div_mod_converse_mod(a as int, m as int, -k, 0);
            }
        }
        r0
    }
}

/// Fractional part of the fixed-point quotient `a / s`, always in
/// `[0, FX_ONE)` whatever the sign of `a`.
pub open spec fn fx_fract(a: int, s: int) -> int
    recommends
        s > 0,
{
    quot(a * FX_ONE, s) % (FX_ONE as int)
}

/// Fractional part of the fixed-point quotient `a / s`.
pub fn fract_div(a: i64, s: i64) -> (r: i64)
    requires
        s > 0,
    ensures
        r == fx_fract(a as int, s as int),
        0 <= r < FX_ONE,
{
    proof {
        assert((a as i128) * (FX_ONE as i128) == a * FX_ONE && i128::MIN < (a as i128) * (
        FX_ONE as i128) <= i128::MAX) by (nonlinear_arith)
            requires
                i64::MIN <= a <= i64::MAX,
        ;
    }
    let wide: i128 = (a as i128) * (FX_ONE as i128);
    let q: i128 = quot_pos128(wide, s as i128);
    let m: i128 = emod128(q, FX_ONE as i128);
    m as i64
}

/// `r` is the integer square root of `n`.
pub open spec fn is_root(n: int, r: int) -> bool {
    r >= 0 && r * r <= n && n < (r + 1) * (r + 1)
}

/// The integer square root, as a spec-level value.
pub open spec fn int_sqrt(n: int) -> int {
    choose|r: int| is_root(n, r)
}

proof fn lemma_root_exists(n: nat)
    ensures
        is_root(n as int, int_sqrt(n as int)),
    decreases n,
{
    if n == 0 {
        assert(is_root(0, 0));
    } else {
        lemma_root_exists((n - 1) as nat);
        let r = int_sqrt(n - 1);
        if (r + 1) * (r + 1) <= n {
            assert(is_root(n as int, r + 1)) by (nonlinear_arith)
                requires
                    is_root(n - 1, r),
                    (r + 1) * (r + 1) <= n,
            ;
        } else {
            assert(is_root(n as int, r));
        }
    }
}

/// Any value with the square-root property is the spec-level square root.
pub proof fn lemma_root_unique(n: int, r: int)
    requires
        is_root(n, r),
    ensures
        r == int_sqrt(n),
{
    assert(n >= 0) by (nonlinear_arith)
        requires
            is_root(n, r),
    ;
    lemma_root_exists(n as nat);
    let w = int_sqrt(n);
    assert(r == w) by (nonlinear_arith)
        requires
            is_root(n, r),
            is_root(n, w),
    ;
}

/// Largest input `sqrt_u128` accepts (2^126).
pub const SQRT_LIMIT: u128 = 85070591730234615865843651857942052864;

/// Integer square root by bisection.
pub fn sqrt_u128(n: u128) -> (r: u128)
    requires
        n < SQRT_LIMIT,
    ensures
        r == int_sqrt(n as int),
        is_root(n as int, r as int),
{
    let mut lo: u128 = 0;
    let mut hi: u128 = 9223372036854775808;
    proof {
        assert((9223372036854775808 as int) * (9223372036854775808 as int)
            == SQRT_LIMIT as int) by (nonlinear_arith);
    }
    while hi - lo > 1
        invariant
            lo < hi,
            hi <= 9223372036854775808,
            lo * lo <= n,
            (n as int) < (hi as int) * (hi as int),
        decreases hi - lo,
    {
        let mid: u128 = lo + (hi - lo) / 2;
        proof {
            assert(lo < mid < hi) by (nonlinear_arith)
                requires
                    mid == lo + (hi - lo) / 2,
                    hi - lo > 1,
                    lo < hi,
            ;
            assert((mid as int) * (mid as int) < SQRT_LIMIT as int) by (nonlinear_arith)
                requires
                    mid < hi <= 9223372036854775808,
                    SQRT_LIMIT == 85070591730234615865843651857942052864,
            ;
        }
        if mid * mid <= n {
            lo = mid;
        } else {
            hi = mid;
        }
    }
    proof {
        assert(is_root(n as int, lo as int));
        lemma_root_unique(n as int, lo as int);
    }
    lo
}

/// Half turn in fixed-point radians.
pub const PI_FX: i64 = 205887;

/// Full turn in fixed-point radians.
pub const TWO_PI_FX: i64 = 411775;

/// Normalize an angle into `(-TWO_PI_FX/2, PI_FX]`.
pub open spec fn angle_norm(a: int) -> int {
    let m = a % (TWO_PI_FX as int);
    if m > PI_FX {
        m - TWO_PI_FX
    } else {
        m
    }
}

/// Sine by a clamped odd cubic-quintic approximation after angle reduction.
pub open spec fn fx_sin(a: int) -> int {
    let x = angle_norm(a);
    let x2 = fx_mul(x, x);
    let x3 = fx_mul(x2, x);
    let x5 = fx_mul(x3, x2);
    fx_clamp(fx_add(fx_sub(x, quot(x3, 6)), quot(x5, 120)), -FX_ONE as int, FX_ONE as int)
}

/// Cosine by a clamped even polynomial approximation after angle reduction.
pub open spec fn fx_cos(a: int) -> int {
    let x = angle_norm(a);
    let x2 = fx_mul(x, x);
    let x4 = fx_mul(x2, x2);
    let x6 = fx_mul(x4, x2);
    fx_clamp(
        fx_sub(fx_add(fx_sub(FX_ONE as int, quot(x2, 2)), quot(x4, 24)), quot(x6, 720)),
        -FX_ONE as int,
        FX_ONE as int,
    )
}

fn quot_small(a: i64, b: i64) -> (r: i64)
    requires
        b > 0,
        a > i64::MIN,
    ensures
        r == quot(a as int, b as int),
{
    if a >= 0 {
        a / b
    } else {
        -((-a) / b)
    }
}

fn angle_norm_fx(a: i64) -> (r: i64)
    ensures
        r == angle_norm(a as int),
{
    let m: i64 = emod_fx(a, TWO_PI_FX);
    if m > PI_FX {
        m - TWO_PI_FX
    } else {
        m
    }
}

/// Sine of a fixed-point angle in radians, in `[-FX_ONE, FX_ONE]`.
pub fn sin_fx(a: i64) -> (r: i64)
    ensures
        r == fx_sin(a as int),
        -FX_ONE <= r <= FX_ONE,
{
    let x: i64 = angle_norm_fx(a);
    let x2: i64 = mul_fx(x, x);
    let x3: i64 = mul_fx(x2, x);
    let x5: i64 = mul_fx(x3, x2);
    let t: i64 = add_fx(sub_fx(x, quot_small(x3, 6)), quot_small(x5, 120));
    clamp_fx(t, -FX_ONE, FX_ONE)
}

/// Cosine of a fixed-point angle in radians, in `[-FX_ONE, FX_ONE]`.
pub fn cos_fx(a: i64) -> (r: i64)
    ensures
        r == fx_cos(a as int),
        -FX_ONE <= r <= FX_ONE,
{
    let x: i64 = angle_norm_fx(a);
    let x2: i64 = mul_fx(x, x);
    let x4: i64 = mul_fx(x2, x2);
    let x6: i64 = mul_fx(x4, x2);
    let t: i64 = sub_fx(add_fx(sub_fx(FX_ONE, quot_small(x2, 2)), quot_small(x4, 24)),
        quot_small(x6, 720));
    clamp_fx(t, -FX_ONE, FX_ONE)
}

/// Fixed-point power with a natural exponent: `FX_ONE` at exponent zero,
/// multiplied by the base once per unit of exponent.
pub open spec fn fx_pow(b: int, e: nat) -> int
    decreases e,
{
    if e == 0 {
        FX_ONE as int
    } else {
        fx_mul(b, fx_pow(b, (e - 1) as nat))
    }
}

/// Fixed-point power with a natural exponent.
pub fn pow_fx(b: i64, e: u32) -> (r: i64)
    ensures
        r == fx_pow(b as int, e as nat),
{
    let mut acc: i64 = FX_ONE;
    let mut i: u32 = 0;
    while i < e
        invariant
            0 <= i <= e,
            acc == fx_pow(b as int, i as nat),
        decreases e - i,
    {
        acc = mul_fx(b, acc);
        i = i + 1;
    }
    acc
}

/// Multiplying by the fixed-point one is exact inside the saturation range.
pub proof fn lemma_fx_mul_one(v: int)
    requires
        -FX_SAT <= v <= FX_SAT,
    ensures
        fx_mul(v, FX_ONE as int) == v,
{
    vstd::arithmetic::div_mod::lemma_div_multiples_vanish(fx_abs(v), FX_ONE as int);
    assert(fx_abs(v * FX_ONE) == (FX_ONE as int) * fx_abs(v)) by (nonlinear_arith);
}

/// Multiplying by zero is exactly zero.
pub proof fn lemma_fx_mul_zero(v: int)
    ensures
        fx_mul(v, 0) == 0,
        fx_mul(0, v) == 0,
{
    vstd::arithmetic::div_mod::lemma_div_of0(FX_ONE as int);
}

} // verus!
