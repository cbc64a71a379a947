//! Fixed-point circular functions: angle wrapping, sine, cosine and the
//! two-argument arctangent.
//!
//! Angles are Q31.32 radians.  Sine and cosine fold the argument into a
//! quarter period and evaluate a degree-seven odd polynomial; the arctangent
//! folds into the first octant and evaluates a degree-eleven odd polynomial.
//! Each function returns exactly the value its spec function names, so the
//! filters built on them are specified down to the last bit.

use vstd::prelude::*;

verus! {

use crate::fx::FX_ONE;
use crate::fx::abs_i;
use crate::fx::clamp_i;
use crate::fx::fx_clamp;
use crate::fx::fx_mul;
use crate::fx::fxd;
use crate::fx::fxm;
use crate::fx::lemma_mul_abs_le;
use crate::fx::lemma_tdiv_range;
use vstd::arithmetic::div_mod::lemma_div_is_ordered;
use vstd::arithmetic::div_mod::lemma_div_pos_is_pos;
use vstd::arithmetic::div_mod::lemma_mod_bound;
use vstd::arithmetic::div_mod::lemma_add_mod_noop;
use vstd::arithmetic::div_mod::lemma_mod_twice;

/// Pi in Q31.32, rounded down.
pub const FX_PI: i64 = 13493037704;

/// Two pi in Q31.32, rounded down.
pub const FX_TWO_PI: i64 = 26986075409;

/// Half pi in Q31.32, rounded down.
pub const FX_HALF_PI: i64 = 6746518852;

/// 1/6 in Q31.32 (third-order sine coefficient).
pub const SIN_C3: i64 = 715827883;

/// 1/120 in Q31.32 (fifth-order sine coefficient).
pub const SIN_C5: i64 = 35791394;

/// 1/5040 in Q31.32 (seventh-order sine coefficient).
pub const SIN_C7: i64 = 852176;

/// Odd minimax coefficients for arctangent on [0, 1], Q31.32.
pub const ATAN_C1: i64 = 4294869628;

pub const ATAN_C3: i64 = -1428606926;

pub const ATAN_C5: i64 = 831262831;

pub const ATAN_C7: i64 = -500075369;

pub const ATAN_C9: i64 = 226144287;

pub const ATAN_C11: i64 = -50342171;

/// The representative of an angle in the half-open turn `(-pi, pi]`
/// (in the fixed-point constants: `(FX_PI - FX_TWO_PI, FX_PI]`).
pub open spec fn wrap_spec(x: int) -> int {
    let m = x % (FX_TWO_PI as int);
    if m > FX_PI as int {
        m - FX_TWO_PI as int
    } else {
        m
    }
}

/// Fold of a wrapped angle into the quarter period `[-pi/2, pi/2]`, where
/// the sine polynomial is accurate.
pub open spec fn fold_spec(r: int) -> int {
    if r > FX_HALF_PI as int {
        FX_PI as int - r
    } else if r < -(FX_HALF_PI as int) {
        -(FX_PI as int) - r
    } else {
        r
    }
}

/// Degree-seven odd Taylor polynomial of the sine, in fixed point.
pub open spec fn sin_poly_spec(x: int) -> int {
    let x2 = fxm(x, x);
    let x3 = fxm(x2, x);
    let x5 = fxm(x3, x2);
    let x7 = fxm(x5, x2);
    x - fxm(SIN_C3 as int, x3) + fxm(SIN_C5 as int, x5) - fxm(SIN_C7 as int, x7)
}

/// The crate's sine: wrap, fold, polynomial, clamp into `[-1, 1]`.
pub open spec fn sin_spec(x: int) -> int {
    clamp_i(sin_poly_spec(fold_spec(wrap_spec(x))), -(FX_ONE as int), FX_ONE as int)
}

/// The crate's cosine: the sine shifted by a quarter period.
pub open spec fn cos_spec(x: int) -> int {
    sin_spec(x + FX_HALF_PI as int)
}

/// Degree-eleven odd minimax polynomial of the arctangent, in fixed point,
/// by Horner's rule in the squared argument.
pub open spec fn atan_poly_spec(u: int) -> int {
    let u2 = fxm(u, u);
    let a9 = ATAN_C9 as int + fxm(u2, ATAN_C11 as int);
    let a7 = ATAN_C7 as int + fxm(u2, a9);
    let a5 = ATAN_C5 as int + fxm(u2, a7);
    let a3 = ATAN_C3 as int + fxm(u2, a5);
    let a1 = ATAN_C1 as int + fxm(u2, a3);
    fxm(u, a1)
}

/// The crate's two-argument arctangent: octant folding around the
/// first-octant polynomial.  Both arguments zero yields zero.
pub open spec fn atan2_spec(y: int, x: int) -> int {
    if x == 0 && y == 0 {
        0
    } else {
        let ax = abs_i(x);
        let ay = abs_i(y);
        let a = if ax >= ay {
            atan_poly_spec(fxd(ay, ax))
        } else {
            FX_HALF_PI as int - atan_poly_spec(fxd(ax, ay))
        };
        let b = if x < 0 {
            FX_PI as int - a
        } else {
            a
        };
        if y < 0 {
            -b
        } else {
            b
        }
    }
}

/// A value already inside the half-open turn is its own representative.
pub proof fn lemma_wrap_identity(v: int)
    requires
        FX_PI - FX_TWO_PI < v <= FX_PI as int,
    ensures
        wrap_spec(v) == v,
{
    if v >= 0 {
        vstd::arithmetic::div_mod::lemma_small_mod(v as nat, FX_TWO_PI as nat);
    } else {
        vstd::arithmetic::div_mod::lemma_mod_add_multiples_vanish(v, FX_TWO_PI as int);
        vstd::arithmetic::div_mod::lemma_small_mod((v + FX_TWO_PI) as nat, FX_TWO_PI as nat);
    }
}

/// Wrap an angle into the half-open turn `(-pi, pi]`.
pub fn wrap_angle(x: i64) -> (r: i64)
    ensures
        r as int == wrap_spec(x as int),
        FX_PI - FX_TWO_PI <= r <= FX_PI,
{
    proof {
        lemma_mod_bound(x as int, FX_TWO_PI as int);
    }
    let m: i64 = match x.checked_rem_euclid(FX_TWO_PI) {
        Some(v) => v,
        None => 0,
    };
    if m > FX_PI {
        m - FX_TWO_PI
    } else {
        m
    }
}

/// Fixed-point product with caller-supplied magnitude bounds; total.
fn fx_mul_b(a: i64, b: i64, ba: Ghost<int>, bb: Ghost<int>) -> (r: i64)
    requires
        0 <= ba@,
        0 <= bb@,
        abs_i(a as int) <= ba@,
        abs_i(b as int) <= bb@,
        ba@ * bb@ <= 0x1_0000_0000_0000_0000_0000,
    ensures
        r as int == fxm(a as int, b as int),
        abs_i(r as int) <= ba@ * bb@ / (FX_ONE as int),
{
    proof {
        lemma_mul_abs_le(a as int, b as int, ba@, bb@);
        lemma_tdiv_range(
            a as int * b as int,
            FX_ONE as int,
            -0x1_0000_0000_0000,
            0x1_0000_0000_0000,
        );
        lemma_div_is_ordered(abs_i(a as int * b as int), ba@ * bb@, FX_ONE as int);
        lemma_div_pos_is_pos(abs_i(a as int * b as int), FX_ONE as int);
    }
    match fx_mul(a, b) {
        Some(v) => v,
        None => 0,
    }
}

/// The degree-seven sine polynomial on the folded quarter period.
fn sin_poly(x: i64) -> (r: i64)
    requires
        -0x2_0000_0000 <= x <= 0x2_0000_0000,
    ensures
        r as int == sin_poly_spec(x as int),
{
    let x2 = fx_mul_b(x, x, Ghost(0x2_0000_0000), Ghost(0x2_0000_0000));
    let x3 = fx_mul_b(x2, x, Ghost(0x4_0000_0000), Ghost(0x2_0000_0000));
    let x5 = fx_mul_b(x3, x2, Ghost(0x8_0000_0000), Ghost(0x4_0000_0000));
    let x7 = fx_mul_b(x5, x2, Ghost(0x20_0000_0000), Ghost(0x4_0000_0000));
    let t3 = fx_mul_b(SIN_C3, x3, Ghost(0x4000_0000), Ghost(0x8_0000_0000));
    let t5 = fx_mul_b(SIN_C5, x5, Ghost(0x4000_0000), Ghost(0x20_0000_0000));
    let t7 = fx_mul_b(SIN_C7, x7, Ghost(0x4000_0000), Ghost(0x80_0000_0000));
    x - t3 + t5 - t7
}

/// Sine of a fixed-point angle, clamped into `[-1, 1]`.
pub fn sin_fx(x: i64) -> (r: i64)
    ensures
        r as int == sin_spec(x as int),
        -FX_ONE <= r <= FX_ONE,
{
    let w = wrap_angle(x);
    let f: i64 = if w > FX_HALF_PI {
        FX_PI - w
    } else if w < -FX_HALF_PI {
        -FX_PI - w
    } else {
        w
    };
    let p = sin_poly(f);
    fx_clamp(p, -FX_ONE, FX_ONE)
}

/// Cosine of a fixed-point angle, clamped into `[-1, 1]`.
pub fn cos_fx(x: i64) -> (r: i64)
    ensures
        r as int == cos_spec(x as int),
        -FX_ONE <= r <= FX_ONE,
{
    let w = wrap_angle(x);
    proof {
        lemma_mod_twice(x as int, FX_TWO_PI as int);
        lemma_add_mod_noop(
            x as int % (FX_TWO_PI as int),
            FX_HALF_PI as int,
            FX_TWO_PI as int,
        );
        if wrap_spec(x as int) != x as int % (FX_TWO_PI as int) {
            lemma_mod_bound(x as int % (FX_TWO_PI as int) + FX_HALF_PI as int, FX_TWO_PI as int);
        }
        assert(wrap_spec(w as int + FX_HALF_PI as int) == wrap_spec(
            x as int + FX_HALF_PI as int,
        ));
    }
    let shifted: i64 = w + FX_HALF_PI;
    let w2 = wrap_angle(shifted);
    let f: i64 = if w2 > FX_HALF_PI {
        FX_PI - w2
    } else if w2 < -FX_HALF_PI {
        -FX_PI - w2
    } else {
        w2
    };
    let p = sin_poly(f);
    fx_clamp(p, -FX_ONE, FX_ONE)
}

/// The arctangent polynomial on `[0, 1]`.
fn atan_poly(u: i64) -> (r: i64)
    requires
        0 <= u <= FX_ONE,
    ensures
        r as int == atan_poly_spec(u as int),
        abs_i(r as int) <= 0x8_0000_0000,
{
    let u2 = fx_mul_b(u, u, Ghost(0x1_0000_0000), Ghost(0x1_0000_0000));
    let m9 = fx_mul_b(u2, ATAN_C11, Ghost(0x1_0000_0000), Ghost(0x4000_0000));
    let a9: i64 = ATAN_C9 + m9;
    let m7 = fx_mul_b(u2, a9, Ghost(0x1_0000_0000), Ghost(0x8000_0000));
    let a7: i64 = ATAN_C7 + m7;
    let m5 = fx_mul_b(u2, a7, Ghost(0x1_0000_0000), Ghost(0x1_0000_0000));
    let a5: i64 = ATAN_C5 + m5;
    let m3 = fx_mul_b(u2, a5, Ghost(0x1_0000_0000), Ghost(0x2_0000_0000));
    let a3: i64 = ATAN_C3 + m3;
    let m1 = fx_mul_b(u2, a3, Ghost(0x1_0000_0000), Ghost(0x4_0000_0000));
    let a1: i64 = ATAN_C1 + m1;
    fx_mul_b(u, a1, Ghost(0x1_0000_0000), Ghost(0x8_0000_0000))
}

/// Two-argument arctangent of fixed-point coordinates; returns an angle in
/// `(-pi, pi]` (zero when both arguments are zero).
pub fn atan2_fx(y: i64, x: i64) -> (r: i64)
    ensures
        r as int == atan2_spec(y as int, x as int),
        -0x10_0000_0000 <= r <= 0x10_0000_0000,
{
    if x == 0 && y == 0 {
        return 0;
    }
    let ax = crate::sqrt::abs_u64(x);
    let ay = crate::sqrt::abs_u64(y);
    let a: i64 = if ax >= ay {
        proof {
            lemma_tdiv_range(ay as int * FX_ONE as int, ax as int, 0, FX_ONE as int);
        }
        let u: i64 = match crate::fx::fx_div_u(ay, ax) {
            Some(v) => v as i64,
            None => 0,
        };
        atan_poly(u)
    } else {
        proof {
            lemma_tdiv_range(ax as int * FX_ONE as int, ay as int, 0, FX_ONE as int);
        }
        let u: i64 = match crate::fx::fx_div_u(ax, ay) {
            Some(v) => v as i64,
            None => 0,
        };
        FX_HALF_PI - atan_poly(u)
    };
    let b: i64 = if x < 0 {
        FX_PI - a
    } else {
        a
    };
    if y < 0 {
        -b
    } else {
        b
    }
}

} // verus!
