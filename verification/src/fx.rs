//! Scalar kernel for Q31.32 fixed-point arithmetic on `i64`.
//!
//! A value `v: i64` stands for the real number `v / 2^32`.  Multiplication
//! and division truncate toward zero, as hardware signed division does, and
//! every operation either returns the exactly specified result or reports
//! that it does not fit, so nothing silently wraps.

use vstd::prelude::*;

verus! {

use vstd::arithmetic::div_mod::lemma_basic_div;
use vstd::arithmetic::div_mod::lemma_div_basics_2;
use vstd::arithmetic::div_mod::lemma_div_is_ordered;
use vstd::arithmetic::div_mod::lemma_div_is_ordered_by_denominator;
use vstd::arithmetic::div_mod::lemma_div_multiples_vanish;
use vstd::arithmetic::div_mod::lemma_div_pos_is_pos;

/// One in Q31.32 fixed point: 2^32.
pub const FX_ONE: i64 = 0x1_0000_0000;

/// Magnitude of a mathematical integer.
pub open spec fn abs_i(a: int) -> int {
    if a >= 0 {
        a
    } else {
        -a
    }
}

/// Quotient of `a` by `b`, truncated toward zero (the rounding used by the
/// whole kernel, matching hardware signed division).
pub open spec fn tdiv(a: int, b: int) -> int {
    if (a >= 0) == (b >= 0) {
        abs_i(a) / abs_i(b)
    } else {
        -(abs_i(a) / abs_i(b))
    }
}

/// Product of two Q31.32 values: `(a * b) / 2^32`, truncated toward zero.
pub open spec fn fxm(a: int, b: int) -> int {
    tdiv(a * b, FX_ONE as int)
}

/// Quotient of two Q31.32 values: `(a * 2^32) / b`, truncated toward zero.
pub open spec fn fxd(a: int, b: int) -> int {
    tdiv(a * (FX_ONE as int), b)
}

/// Whether a mathematical integer fits an `i64`.
pub open spec fn in_i64(a: int) -> bool {
    i64::MIN <= a <= i64::MAX
}

/// `v` pulled into `[lo, hi]`.
pub open spec fn clamp_i(v: int, lo: int, hi: int) -> int {
    if v < lo {
        lo
    } else if v > hi {
        hi
    } else {
        v
    }
}

/// Bound on a product from bounds on its factors.
pub proof fn lemma_mul_abs_le(a: int, b: int, aa: int, bb: int)
    requires
        -aa <= a <= aa,
        -bb <= b <= bb,
        0 <= aa,
        0 <= bb,
    ensures
        -(aa * bb) <= a * b <= aa * bb,
{
    assert(-(aa * bb) <= a * b <= aa * bb) by (nonlinear_arith)
        requires
            -aa <= a <= aa,
            -bb <= b <= bb,
            0 <= aa,
            0 <= bb,
    ;
}

/// A truncated quotient is no larger in magnitude than its dividend.
pub proof fn lemma_tdiv_abs_le(a: int, b: int)
    requires
        b != 0,
    ensures
        abs_i(tdiv(a, b)) <= abs_i(a),
        abs_i(a) < abs_i(b) ==> tdiv(a, b) == 0,
{
    let aa = abs_i(a);
    let bb = abs_i(b);
    lemma_div_basics_2(aa);
    lemma_div_is_ordered_by_denominator(aa, 1, bb);
    lemma_div_pos_is_pos(aa, bb);
    if aa < bb {
        lemma_basic_div(aa, bb);
    }
}

/// Range of a truncated quotient from a range on the dividend.
pub proof fn lemma_tdiv_range(a: int, b: int, lo: int, hi: int)
    requires
        b > 0,
        lo <= 0,
        0 <= hi,
        lo * b <= a <= hi * b,
    ensures
        lo <= tdiv(a, b) <= hi,
{
    if a >= 0 {
        assert(hi * b == b * hi) by (nonlinear_arith);
        lemma_div_is_ordered(a, b * hi, b);
        lemma_div_multiples_vanish(hi, b);
        lemma_div_pos_is_pos(a, b);
    } else {
        assert(-a <= b * (-lo)) by (nonlinear_arith)
            requires
                lo * b <= a,
        ;
        lemma_div_is_ordered(-a, b * (-lo), b);
        lemma_div_multiples_vanish(-lo, b);
        lemma_div_pos_is_pos(-a, b);
    }
}

/// Signs of products.
pub proof fn lemma_mul_sign(a: int, b: int)
    ensures
        (a >= 0 && b >= 0) ==> a * b >= 0,
        (a <= 0 && b <= 0) ==> a * b >= 0,
        (a >= 0 && b <= 0) ==> a * b <= 0,
        (a <= 0 && b >= 0) ==> a * b <= 0,
{
    assert((a >= 0 && b >= 0) ==> a * b >= 0) by (nonlinear_arith);
    assert((a <= 0 && b <= 0) ==> a * b >= 0) by (nonlinear_arith);
    assert((a >= 0 && b <= 0) ==> a * b <= 0) by (nonlinear_arith);
    assert((a <= 0 && b >= 0) ==> a * b <= 0) by (nonlinear_arith);
}

/// The magnitude of a product is the product of the magnitudes.
pub proof fn lemma_abs_mul(a: int, b: int)
    ensures
        abs_i(a * b) == abs_i(a) * abs_i(b),
{
    lemma_mul_sign(a, b);
    if a >= 0 && b >= 0 {
    } else if a <= 0 && b <= 0 {
        assert((-a) * (-b) == a * b) by (nonlinear_arith);
    } else if a >= 0 {
        assert(a * (-b) == -(a * b)) by (nonlinear_arith);
    } else {
        assert((-a) * b == -(a * b)) by (nonlinear_arith);
    }
}

/// Multiplying by fixed-point one is the identity.
pub proof fn lemma_fxm_one(v: int)
    ensures
        fxm(v, FX_ONE as int) == v,
        fxm(FX_ONE as int, v) == v,
{
    lemma_abs_mul(v, FX_ONE as int);
    lemma_abs_mul(FX_ONE as int, v);
    lemma_div_multiples_vanish(abs_i(v), FX_ONE as int);
    assert(abs_i(v) * (FX_ONE as int) == (FX_ONE as int) * abs_i(v)) by (nonlinear_arith);
}

/// Multiplying by zero gives zero.
pub proof fn lemma_fxm_zero(v: int)
    ensures
        fxm(v, 0) == 0,
        fxm(0, v) == 0,
{
    assert(v * 0 == 0) by (nonlinear_arith);
    assert(0 * v == 0) by (nonlinear_arith);
    vstd::arithmetic::div_mod::lemma_div_of0(FX_ONE as int);
}

/// Halving an exact double is the identity.
pub proof fn lemma_tdiv_two(a: int)
    ensures
        tdiv(2 * a, 2) == a,
{
    if a >= 0 {
        lemma_div_multiples_vanish(a, 2);
    } else {
        lemma_div_multiples_vanish(-a, 2);
        assert(-(2 * a) == 2 * (-a)) by (nonlinear_arith);
    }
}

/// A fixed-point product of nonnegative values is nonnegative.
pub proof fn lemma_fxm_nonneg(a: int, b: int)
    requires
        a >= 0,
        b >= 0,
    ensures
        fxm(a, b) >= 0,
{
    lemma_mul_sign(a, b);
    lemma_div_pos_is_pos(a * b, FX_ONE as int);
}

/// A fixed-point product of an `i64` by a factor in `[0, 1]` stays in range.
pub proof fn lemma_fxm_unit_range(x: int, s: int)
    requires
        in_i64(x),
        0 <= s <= FX_ONE as int,
    ensures
        in_i64(fxm(x, s)),
{
    assert(-0x8000_0000_0000_0000 * 0x1_0000_0000 <= x * s <= 0x7FFF_FFFF_FFFF_FFFF
        * 0x1_0000_0000) by (nonlinear_arith)
        requires
            -0x8000_0000_0000_0000 <= x <= 0x7FFF_FFFF_FFFF_FFFF,
            0 <= s <= 0x1_0000_0000,
    ;
    lemma_tdiv_range(x * s, FX_ONE as int, i64::MIN as int, i64::MAX as int);
}

/// Fixed-point product; `None` exactly when the result does not fit an `i64`.
pub fn fx_mul(a: i64, b: i64) -> (r: Option<i64>)
    ensures
        r matches Some(v) ==> v as int == fxm(a as int, b as int),
        r is Some <==> in_i64(fxm(a as int, b as int)),
{
    proof {
        lemma_mul_abs_le(a as int, b as int, 0x8000_0000_0000_0000, 0x8000_0000_0000_0000);
    }
    let p: i128 = (a as i128) * (b as i128);
    proof {
        lemma_tdiv_abs_le(p as int, FX_ONE as int);
    }
    let q: i128 = match p.checked_div(FX_ONE as i128) {
        Some(v) => v,
        None => 0,
    };
    if i64::MIN as i128 <= q && q <= i64::MAX as i128 {
        Some(q as i64)
    } else {
        None
    }
}

/// Fixed-point quotient; `None` exactly when the exact quotient does not fit
/// an `i64`.
pub fn fx_div(a: i64, b: i64) -> (r: Option<i64>)
    requires
        b != 0,
    ensures
        r matches Some(v) ==> v as int == fxd(a as int, b as int),
        r is Some <==> in_i64(fxd(a as int, b as int)),
{
    proof {
        lemma_mul_abs_le(a as int, FX_ONE as int, 0x8000_0000_0000_0000, FX_ONE as int);
    }
    let p: i128 = (a as i128) * (FX_ONE as i128);
    proof {
        lemma_tdiv_abs_le(p as int, b as int);
    }
    let q: i128 = match p.checked_div(b as i128) {
        Some(v) => v,
        None => 0,
    };
    if i64::MIN as i128 <= q && q <= i64::MAX as i128 {
        Some(q as i64)
    } else {
        None
    }
}

/// Fixed-point quotient of nonnegative magnitudes (which may reach `2^63`,
/// one past `i64`); `None` exactly when the quotient does not fit a `u64`.
pub fn fx_div_u(a: u64, b: u64) -> (r: Option<u64>)
    requires
        b != 0,
    ensures
        r matches Some(v) ==> v as int == fxd(a as int, b as int),
        r is Some <==> fxd(a as int, b as int) <= u64::MAX as int,
{
    proof {
        lemma_mul_abs_le(a as int, FX_ONE as int, u64::MAX as int, FX_ONE as int);
        lemma_div_pos_is_pos(a as int * (FX_ONE as int), b as int);
    }
    let p: u128 = (a as u128) * (FX_ONE as u128);
    let q: u128 = p / (b as u128);
    if q <= u64::MAX as u128 {
        Some(q as u64)
    } else {
        None
    }
}

/// Average of two values, truncated toward zero; used to symmetrize
/// covariance entries without risking overflow.
pub fn fx_avg(a: i64, b: i64) -> (r: i64)
    ensures
        r as int == tdiv(a as int + b as int, 2),
{
    let s: i128 = a as i128 + b as i128;
    proof {
        lemma_tdiv_abs_le(s as int, 2);
    }
    let q: i128 = match s.checked_div(2) {
        Some(v) => v,
        None => 0,
    };
    q as i64
}

/// `v` pulled into `[lo, hi]`.
pub fn fx_clamp(v: i64, lo: i64, hi: i64) -> (r: i64)
    requires
        lo <= hi,
    ensures
        r as int == clamp_i(v as int, lo as int, hi as int),
{
    if v < lo {
        lo
    } else if v > hi {
        hi
    } else {
        v
    }
}

/// An integer scaled into fixed point; `None` exactly when it does not fit.
pub fn fx_from_int(n: i64) -> (r: Option<i64>)
    ensures
        r matches Some(v) ==> v as int == n * (FX_ONE as int),
        r is Some <==> in_i64(n * (FX_ONE as int)),
{
    n.checked_mul(FX_ONE)
}

/// Thousandths scaled into fixed point, truncated toward zero; `None`
/// exactly when the value does not fit.
pub fn fx_from_milli(m: i64) -> (r: Option<i64>)
    ensures
        r matches Some(v) ==> v as int == tdiv(m * (FX_ONE as int), 1000),
        r is Some <==> in_i64(tdiv(m * (FX_ONE as int), 1000)),
{
    proof {
        lemma_mul_abs_le(m as int, FX_ONE as int, 0x8000_0000_0000_0000, FX_ONE as int);
    }
    let p: i128 = (m as i128) * (FX_ONE as i128);
    proof {
        lemma_tdiv_abs_le(p as int, 1000);
    }
    let q: i128 = match p.checked_div(1000) {
        Some(v) => v,
        None => 0,
    };
    if i64::MIN as i128 <= q && q <= i64::MAX as i128 {
        Some(q as i64)
    } else {
        None
    }
}

/// The elapsed time, in Q31.32 seconds, between two readings of a
/// millisecond tick counter.  The counter wraps; the subtraction wraps with
/// it, so a reading taken just after a rollover still yields the true
/// (small) elapsed time.
pub fn dt_from_ticks(now_ms: u32, prev_ms: u32) -> (dt: i64)
    ensures
        dt as int == tdiv(
            (if now_ms < prev_ms {
                now_ms - prev_ms + 0x1_0000_0000
            } else {
                now_ms - prev_ms
            }) * (FX_ONE as int),
            1000,
        ),
        dt >= 0,
{
    let d: u32 = now_ms.wrapping_sub(prev_ms);
    proof {
        lemma_mul_abs_le(d as int, FX_ONE as int, 0x1_0000_0000, FX_ONE as int);
        lemma_tdiv_range(
            d as int * (FX_ONE as int),
            1000,
            0,
            0x4_0000_0000_0000_0000,
        );
        lemma_div_pos_is_pos(d as int * (FX_ONE as int), 1000);
    }
    let p: i128 = (d as i128) * (FX_ONE as i128);
    let q: i128 = match p.checked_div(1000) {
        Some(v) => v,
        None => 0,
    };
    q as i64
}

/// Integer part of a fixed-point value, truncated toward zero.
pub fn fx_trunc(v: i64) -> (r: i64)
    ensures
        r as int == tdiv(v as int, FX_ONE as int),
{
    proof {
        lemma_tdiv_abs_le(v as int, FX_ONE as int);
    }
    match v.checked_div(FX_ONE) {
        Some(q) => q,
        None => 0,
    }
}

/// Linear interpolation `x * (1 - t) + y * t` for a blend factor
/// `t` in `[0, 1]`; `None` exactly when the blended value does not fit.
pub fn lerp(t: i64, x: i64, y: i64) -> (r: Option<i64>)
    requires
        0 <= t <= FX_ONE,
    ensures
        r matches Some(v) ==> v as int == fxm(x as int, FX_ONE - t) + fxm(y as int, t as int),
        r is Some <==> in_i64(fxm(x as int, FX_ONE - t) + fxm(y as int, t as int)),
{
    proof {
        lemma_fxm_unit_range(x as int, FX_ONE - t);
        lemma_fxm_unit_range(y as int, t as int);
    }
    let a = fx_mul(x, FX_ONE - t);
    let b = fx_mul(y, t);
    match (a, b) {
        (Some(av), Some(bv)) => av.checked_add(bv),
        _ => None,
    }
}

} // verus!
