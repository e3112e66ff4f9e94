//! Fixed-point scalar arithmetic: `i64` raw values scaled by `FX_ONE = 2^16`.
//!
//! All operations are total. Results are saturated into `[-FX_LIMIT, FX_LIMIT]`
//! rather than overflowing, division by zero yields zero, and the square root
//! of a negative value is zero. Each executable operation is specified exactly
//! by a spec-level twin over `int`.

use vstd::prelude::*;
use vstd::arithmetic::div_mod::{lemma_div_is_ordered, lemma_div_multiples_vanish};

verus! {

/// The raw value that stands for the real number 1.
pub const FX_ONE: i64 = 65536;

/// Saturation bound on every fixed-point result (2^62).
pub const FX_LIMIT: i64 = 0x4000_0000_0000_0000;

/// Saturate a mathematical result into the representable range.
pub open spec fn fx_clip(v: int) -> int {
    if v > FX_LIMIT as int {
        FX_LIMIT as int
    } else if v < -(FX_LIMIT as int) {
        -(FX_LIMIT as int)
    } else {
        v
    }
}

/// Magnitude of an integer.
pub open spec fn fx_abs(v: int) -> int {
    if v < 0 {
        -v
    } else {
        v
    }
}

/// Quotient rounded toward zero, for a positive divisor.
pub open spec fn div_toward_zero(a: int, b: int) -> int {
    if a >= 0 {
        a / b
    } else {
        -((-a) / b)
    }
}

/// Saturating fixed-point addition.
pub open spec fn fx_add_spec(a: int, b: int) -> int {
    fx_clip(a + b)
}

/// Saturating fixed-point subtraction.
pub open spec fn fx_sub_spec(a: int, b: int) -> int {
    fx_clip(a - b)
}

/// Saturating fixed-point negation.
pub open spec fn fx_neg_spec(a: int) -> int {
    fx_clip(-a)
}

/// Saturating fixed-point product: `a * b / FX_ONE`, rounded toward zero.
pub open spec fn fx_mul_spec(a: int, b: int) -> int {
    fx_clip(div_toward_zero(a * b, FX_ONE as int))
}

/// Saturating fixed-point quotient: `a * FX_ONE / b`, rounded toward zero;
/// zero when the divisor is zero.
pub open spec fn fx_div_spec(a: int, b: int) -> int {
    if b == 0 {
        0
    } else {
        let q = (fx_abs(a) * (FX_ONE as int)) / fx_abs(b);
        if (a < 0) != (b < 0) {
            fx_clip(-q)
        } else {
            fx_clip(q)
        }
    }
}

/// `r` is the integer square root of `n`.
pub open spec fn is_isqrt(n: int, r: int) -> bool {
    0 <= r && r * r <= n && n < (r + 1) * (r + 1)
}

/// The integer square root of `n` (for `n >= 0`).
pub open spec fn isqrt(n: int) -> int {
    choose|r: int| is_isqrt(n, r)
}

/// Fixed-point square root: `isqrt(a * FX_ONE)`, so that the result carries
/// the same scale as the argument; zero for a non-positive argument.
pub open spec fn fx_sqrt_spec(a: int) -> int {
    if a <= 0 {
        0
    } else {
        isqrt(a * (FX_ONE as int))
    }
}

/// Clamp a fixed-point value into `[0, 1]`.
pub open spec fn clamp01_spec(a: int) -> int {
    if a < 0 {
        0
    } else if a > FX_ONE as int {
        FX_ONE as int
    } else {
        a
    }
}

pub fn fx_add(a: i64, b: i64) -> (r: i64)
    ensures
        r as int == fx_add_spec(a as int, b as int),
{
    let s: i128 = a as i128 + b as i128;
    if s > FX_LIMIT as i128 {
        FX_LIMIT
    } else if s < -(FX_LIMIT as i128) {
        -FX_LIMIT
    } else {
        s as i64
    }
}

pub fn fx_sub(a: i64, b: i64) -> (r: i64)
    ensures
        r as int == fx_sub_spec(a as int, b as int),
{
    let s: i128 = a as i128 - b as i128;
    if s > FX_LIMIT as i128 {
        FX_LIMIT
    } else if s < -(FX_LIMIT as i128) {
        -FX_LIMIT
    } else {
        s as i64
    }
}

pub fn fx_neg(a: i64) -> (r: i64)
    ensures
        r as int == fx_neg_spec(a as int),
{
    let s: i128 = -(a as i128);
    if s > FX_LIMIT as i128 {
        FX_LIMIT
    } else if s < -(FX_LIMIT as i128) {
        -FX_LIMIT
    } else {
        s as i64
    }
}

pub fn fx_mul(a: i64, b: i64) -> (r: i64)
    ensures
        r as int == fx_mul_spec(a as int, b as int),
{
    proof {
        assert((a as int) * (b as int) <= 0x8000_0000_0000_0000 * 0x8000_0000_0000_0000
            && (a as int) * (b as int) >= -(0x8000_0000_0000_0000 * 0x8000_0000_0000_0000))
            by (nonlinear_arith)
            requires
                -0x8000_0000_0000_0000 <= a as int <= 0x7fff_ffff_ffff_ffff,
                -0x8000_0000_0000_0000 <= b as int <= 0x7fff_ffff_ffff_ffff,
        ;
    }
    let p: i128 = (a as i128) * (b as i128);
    let neg: bool = p < 0;
    let mag: u128 = if neg {
        (-p) as u128
    } else {
        p as u128
    };
    let q: u128 = mag / 65536;
    let qc: u128 = if q > FX_LIMIT as u128 {
        FX_LIMIT as u128
    } else {
        q
    };
    if neg {
        -(qc as i64)
    } else {
        qc as i64
    }
}

pub fn fx_div(a: i64, b: i64) -> (r: i64)
    ensures
        r as int == fx_div_spec(a as int, b as int),
{
    if b == 0 {
        return 0;
    }
    let na: i128 = a as i128;
    let nb: i128 = b as i128;
    let neg: bool = (na < 0) != (nb < 0);
    let ma: u128 = if na < 0 {
        (-na) as u128
    } else {
        na as u128
    };
    let mb: u128 = if nb < 0 {
        (-nb) as u128
    } else {
        nb as u128
    };
    let n: u128 = ma * 65536;
    let q: u128 = n / mb;
    let qc: u128 = if q > FX_LIMIT as u128 {
        FX_LIMIT as u128
    } else {
        q
    };
    if neg {
        -(qc as i64)
    } else {
        qc as i64
    }
}

pub fn clamp01(a: i64) -> (r: i64)
    ensures
        r as int == clamp01_spec(a as int),
{
    if a < 0 {
        0
    } else if a > FX_ONE {
        FX_ONE
    } else {
        a
    }
}

proof fn lemma_isqrt_unique(n: int, r1: int, r2: int)
    requires
        is_isqrt(n, r1),
        is_isqrt(n, r2),
    ensures
        r1 == r2,
{
    if r1 < r2 {
        assert((r1 + 1) * (r1 + 1) <= r2 * r2) by (nonlinear_arith)
            requires
                0 <= r1,
                0 <= r2,
                r1 < r2,
        ;
    }
    if r2 < r1 {
        assert((r2 + 1) * (r2 + 1) <= r1 * r1) by (nonlinear_arith)
            requires
                0 <= r1,
                0 <= r2,
                r2 < r1,
        ;
    }
}

/// A witness pins down `isqrt`.
proof fn lemma_isqrt_is(n: int, w: int)
    requires
        is_isqrt(n, w),
    ensures
        isqrt(n) == w,
{
    assert(is_isqrt(n, w));
    let c = choose|r: int| is_isqrt(n, r);
    assert(is_isqrt(n, c));
    lemma_isqrt_unique(n, w, c);
}

fn isqrt_u128(n: u128) -> (r: u128)
    requires
        n < 0x4000000000000000000000000000000,
    ensures
        is_isqrt(n as int, r as int),
        r as int == isqrt(n as int),
{
    let mut lo: u128 = 0;
    let mut hi: u128 = 0x8000_0000_0000_0000;
    proof {
        assert((0x8000_0000_0000_0000 as int) * (0x8000_0000_0000_0000 as int)
            == 0x40000000000000000000000000000000) by (nonlinear_arith);
    }
    while lo + 1 < hi
        invariant
            lo < hi,
            hi <= 0x8000_0000_0000_0000,
            (lo as int) * (lo as int) <= n as int,
            (n as int) < (hi as int) * (hi as int),
        decreases hi - lo,
    {
        let mid: u128 = lo + (hi - lo) / 2;
        proof {
            assert((mid as int) * (mid as int) < 0x40000000000000000000000000000000)
                by (nonlinear_arith)
                requires
                    0 <= mid as int <= 0x7fff_ffff_ffff_ffff,
            ;
        }
        let sq: u128 = mid * mid;
        if sq <= n {
            lo = mid;
        } else {
            hi = mid;
        }
    }
    proof {
        assert(is_isqrt(n as int, lo as int));
        lemma_isqrt_is(n as int, lo as int);
    }
    lo
}

pub fn fx_sqrt(a: i64) -> (r: i64)
    ensures
        r as int == fx_sqrt_spec(a as int),
        0 <= r,
        a > 0 ==> is_isqrt(a as int * (FX_ONE as int), r as int),
{
    if a <= 0 {
        return 0;
    }
    let n: u128 = (a as u128) * 65536;
    let r = isqrt_u128(n);
    proof {
        assert((r as int) <= 0x10000000000) by (nonlinear_arith)
            requires
                is_isqrt(n as int, r as int),
                0 <= n as int <= 0x7fff_ffff_ffff_ffff * 65536,
        ;
    }
    r as i64
}

/// A fixed-point product has the sign of the mathematical product.
pub proof fn lemma_fx_mul_sign(a: int, b: int)
    ensures
        a >= 0 && b >= 0 ==> fx_mul_spec(a, b) >= 0,
        a <= 0 && b <= 0 ==> fx_mul_spec(a, b) >= 0,
        a >= 0 && b <= 0 ==> fx_mul_spec(a, b) <= 0,
        a <= 0 && b >= 0 ==> fx_mul_spec(a, b) <= 0,
{
    assert((a >= 0 && b >= 0 ==> a * b >= 0) && (a <= 0 && b <= 0 ==> a * b >= 0) && (a >= 0 && b
        <= 0 ==> a * b <= 0) && (a <= 0 && b >= 0 ==> a * b <= 0)) by (nonlinear_arith);
    if a * b >= 0 {
        lemma_div_is_ordered(0, a * b, 65536);
    } else {
        lemma_div_is_ordered(0, -(a * b), 65536);
    }
}

/// A fixed-point quotient has the sign of the mathematical quotient.
pub proof fn lemma_fx_div_sign(a: int, b: int)
    ensures
        a >= 0 && b > 0 ==> fx_div_spec(a, b) >= 0,
        a <= 0 && b > 0 ==> fx_div_spec(a, b) <= 0,
        a >= 0 && b < 0 ==> fx_div_spec(a, b) <= 0,
        a <= 0 && b < 0 ==> fx_div_spec(a, b) >= 0,
{
    if b != 0 {
        lemma_div_is_ordered(0, fx_abs(a) * 65536, fx_abs(b));
    }
}

/// Attenuating a channel by a factor in `[0, 1]` never amplifies it: the
/// product is non-negative and no larger than either operand.
pub proof fn lemma_energy_non_amplification(a: int, c: int)
    requires
        0 <= a <= FX_ONE as int,
        0 <= c <= FX_ONE as int,
    ensures
        0 <= fx_mul_spec(a, c),
        fx_mul_spec(a, c) <= a,
        fx_mul_spec(a, c) <= c,
{
    assert(0 <= a * c && a * c <= a * 65536 && a * c <= c * 65536) by (nonlinear_arith)
        requires
            0 <= a <= 65536,
            0 <= c <= 65536,
    ;
    lemma_div_is_ordered(a * c, a * 65536, 65536);
    lemma_div_is_ordered(a * c, c * 65536, 65536);
    lemma_div_multiples_vanish(a, 65536);
    lemma_div_multiples_vanish(c, 65536);
    assert(a * c / 65536 >= 0) by (nonlinear_arith)
        requires
            0 <= a * c,
    ;
}

} // verus!
