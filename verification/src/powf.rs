//! Fixed-point binary logarithm, binary exponential, and the power function
//! built from them, used by the barometric pressure model.
//!
//! `log2` normalizes its argument into `[1, 2)` and extracts 32 fraction
//! bits by repeated squaring; `exp2` multiplies square-root-of-two chains
//! selected by the fraction bits.  Both are specified exactly by recursive
//! spec functions that the loops mirror.

use vstd::prelude::*;

verus! {

use crate::fx::FX_ONE;
use crate::fx::fxm;
use crate::fx::in_i64;
use vstd::arithmetic::div_mod::lemma_div_is_ordered;
use vstd::arithmetic::div_mod::lemma_div_pos_is_pos;
use vstd::arithmetic::div_mod::lemma_div_multiples_vanish;
use vstd::arithmetic::div_mod::lemma_fundamental_div_mod;
use vstd::arithmetic::div_mod::lemma_mod_bound;
use vstd::arithmetic::power2::pow2;
use vstd::arithmetic::power2::lemma_pow2_adds;
use vstd::arithmetic::power2::lemma_pow2_pos;
use vstd::arithmetic::power2::lemma_pow2_strictly_increases;
use vstd::arithmetic::power2::lemma2_to64;
use vstd::arithmetic::power2::lemma2_to64_rest;

/// `pow2` grows by doubling.
proof fn lemma_pow2_step(k: nat)
    requires
        k >= 1,
    ensures
        pow2(k) == 2 * pow2((k - 1) as nat),
{
    lemma_pow2_adds(1, (k - 1) as nat);
    lemma2_to64();
}

/// Doubling of `m` (lowering the exponent) until `m` reaches `2^32`;
/// the pair `(m, e)` keeps `m * 2^e` constant.
pub open spec fn norm_lift(m: int, e: int) -> (int, int)
    decreases (if m < 0x1_0000_0000 {
        0x1_0000_0000 - m
    } else {
        0
    }),
{
    if 0 < m < 0x1_0000_0000 {
        norm_lift(2 * m, e - 1)
    } else {
        (m, e)
    }
}

/// Halving of `m` until it falls below `2^33`; low bits are shed, as the
/// fixed format demands.
pub open spec fn norm_drop(m: int, e: int) -> (int, int)
    decreases m,
{
    if m >= 0x2_0000_0000 {
        norm_drop(m / 2, e + 1)
    } else {
        (m, e)
    }
}

/// The `k` leading fraction bits of the binary logarithm of `m / 2^32`,
/// for `m` in `[2^32, 2^33)`, as an integer in `[0, 2^k)`: square the
/// mantissa, emit a one and renormalize whenever the square reaches two.
pub open spec fn log2_frac(m: int, k: nat) -> int
    decreases k,
{
    if k == 0 {
        0
    } else {
        let msq = (m * m) / 0x1_0000_0000;
        if msq >= 0x2_0000_0000 {
            pow2((k - 1) as nat) + log2_frac(msq / 2, (k - 1) as nat)
        } else {
            log2_frac(msq, (k - 1) as nat)
        }
    }
}

/// The crate's binary logarithm of `x / 2^32`, in Q31.32: integer part from
/// normalization, 32 fraction bits from repeated squaring.
pub open spec fn log2_spec(x: int) -> int {
    let lifted = norm_lift(x, 0);
    let normed = norm_drop(lifted.0, lifted.1);
    normed.1 * 0x1_0000_0000 + log2_frac(normed.0, 32)
}

/// The fraction bits stay below `2^k`.
proof fn lemma_log2_frac_range(m: int, k: nat)
    requires
        m >= 0,
    ensures
        0 <= log2_frac(m, k) < pow2(k),
    decreases k,
{
    lemma_pow2_pos(k);
    if k > 0 {
        let msq = (m * m) / 0x1_0000_0000;
        assert(m * m >= 0) by (nonlinear_arith)
            requires
                m >= 0,
        ;
        lemma_div_pos_is_pos(m * m, 0x1_0000_0000);
        lemma_pow2_step(k);
        lemma_pow2_pos((k - 1) as nat);
        if msq >= 0x2_0000_0000 {
            lemma_div_pos_is_pos(msq, 2);
            lemma_log2_frac_range(msq / 2, (k - 1) as nat);
        } else {
            lemma_log2_frac_range(msq, (k - 1) as nat);
        }
    }
}

/// Binary logarithm in Q31.32 of a positive fixed-point value.
pub fn log2_fx(x: i64) -> (r: i64)
    requires
        x > 0,
    ensures
        r as int == log2_spec(x as int),
        -0x20_0000_0000 <= r < 0x20_0000_0000,
{
    let ghost lifted = norm_lift(x as int, 0);
    let ghost normed = norm_drop(lifted.0, lifted.1);
    let mut m: u64 = x as u64;
    let mut e: i64 = 0;
    proof {
        lemma2_to64();
        assert(x as int * pow2(0) == x as int) by (nonlinear_arith)
            requires
                pow2(0) == 1,
        ;
    }
    while m < 0x1_0000_0000u64
        invariant
            0 < x,
            0 < m,
            e <= 0,
            -e <= 32,
            m as int == x as int * pow2((-e) as nat),
            norm_lift(m as int, e as int) == lifted,
        decreases 0x2_0000_0000 - m,
    {
        proof {
            lemma_pow2_step((1 - e) as nat);
            lemma_pow2_pos((-e) as nat);
            assert(2 * (x as int * pow2((-e) as nat)) == x as int * (2 * pow2(
                (-e) as nat,
            ))) by (nonlinear_arith);
            assert(m as int >= pow2((-e) as nat)) by (nonlinear_arith)
                requires
                    x as int >= 1,
                    pow2((-e) as nat) > 0,
                    m as int == x as int * pow2((-e) as nat),
            ;
            if -e >= 32 {
                if -e > 32 {
                    lemma_pow2_strictly_increases(32, (-e) as nat);
                }
                lemma2_to64();
                assert(false);
            }
        }
        m = m * 2;
        e = e - 1;
    }
    while m >= 0x2_0000_0000u64
        invariant
            0 < x,
            m as int >= 0x1_0000_0000,
            -32 <= e,
            e <= 31,
            (e <= 0 && m as int == x as int * pow2((-e) as nat)) || (e > 0 && pow2(e as nat) * (
            m as int) <= x as int),
            norm_drop(m as int, e as int) == normed,
        decreases m,
    {
        proof {
            lemma_fundamental_div_mod(m as int, 2);
            lemma_mod_bound(m as int, 2);
            lemma_div_pos_is_pos(m as int, 2);
            lemma_div_is_ordered(0x2_0000_0000, m as int, 2);
            lemma2_to64();
            if e < 0 {
                lemma_pow2_step((-e) as nat);
                lemma_pow2_pos((-(e + 1)) as nat);
                assert(m as int == 2 * (x as int * pow2((-(e + 1)) as nat))) by (nonlinear_arith)
                    requires
                        m as int == x as int * pow2((-e) as nat),
                        pow2((-e) as nat) == 2 * pow2((-(e + 1)) as nat),
                ;
                lemma_div_multiples_vanish(x as int * pow2((-(e + 1)) as nat), 2);
            } else {
                lemma_pow2_step((e + 1) as nat);
                lemma_pow2_pos(e as nat);
                assert(pow2((e + 1) as nat) * ((m as int) / 2) <= pow2(e as nat) * (m as int))
                    by (nonlinear_arith)
                    requires
                        pow2((e + 1) as nat) == 2 * pow2(e as nat),
                        pow2(e as nat) > 0,
                        2 * ((m as int) / 2) <= m as int,
                        (m as int) / 2 >= 0,
                ;
                if e == 0 {
                    assert(pow2(0) == 1);
                    assert(pow2(0 as nat) * (m as int) == m as int) by (nonlinear_arith)
                        requires
                            pow2(0 as nat) == 1,
                    ;
                }
                if e + 1 > 31 {
                    lemma_pow2_strictly_increases(31, (e + 1) as nat);
                    assert(pow2((e + 1) as nat) * ((m as int) / 2) > 0x7FFF_FFFF_FFFF_FFFF)
                        by (nonlinear_arith)
                        requires
                            pow2((e + 1) as nat) >= 0x8000_0001,
                            (m as int) / 2 >= 0x1_0000_0000,
                    ;
                    assert(false);
                }
            }
            let nm = (m as int) / 2;
            let ne = e as int + 1;
            if e < 0 {
                assert(nm == x as int * pow2((-ne) as nat));
            } else {
                if e == 0 {
                    assert(pow2((-e) as nat) == 1);
                    assert(x as int * pow2((-e) as nat) == x as int * 1);
                    assert(x as int * 1 == x as int) by (nonlinear_arith);
                    assert(pow2(e as nat) * (m as int) == 1 * (m as int));
                    assert(1 * (m as int) == m as int) by (nonlinear_arith);
                }
                assert(pow2(e as nat) * (m as int) <= x as int);
                assert(pow2(ne as nat) * nm <= x as int);
            }
        }
        m = m / 2;
        e = e + 1;
    }
    proof {
        assert(normed == (m as int, e as int));
        lemma2_to64();
    }
    let mut r: u64 = 0;
    let mut i: u64 = 0;
    while i < 32
        invariant
            0 <= i <= 32,
            0x1_0000_0000 <= m as int && (m as int) < 0x2_0000_0000,
            pow2(i as nat) > r,
            pow2((32 - i) as nat) * (r as int) + log2_frac(m as int, (32 - i) as nat) == log2_frac(
                normed.0,
                32,
            ),
        decreases 32 - i,
    {
        proof {
            assert((m as int) * (m as int) < 0x4_0000_0000_0000_0000) by (nonlinear_arith)
                requires
                    0 <= m as int && (m as int) < 0x2_0000_0000,
            ;
            assert((m as int) * (m as int) >= 0x1_0000_0000_0000_0000) by (nonlinear_arith)
                requires
                    m as int >= 0x1_0000_0000,
            ;
            lemma_div_is_ordered(0x1_0000_0000_0000_0000, (m as int) * (m as int), 0x1_0000_0000);
            lemma_div_is_ordered(
                (m as int) * (m as int),
                0x4_0000_0000_0000_0000 - 1,
                0x1_0000_0000,
            );
            if i < 32 {
                lemma_pow2_strictly_increases(i as nat, 32);
            }
            lemma2_to64();
            lemma_pow2_step((32 - i) as nat);
            let k = (32 - i) as nat;
            assert((2 * pow2((k - 1) as nat)) * (r as int) + pow2((k - 1) as nat) == pow2(
                (k - 1) as nat,
            ) * (2 * (r as int) + 1)) by (nonlinear_arith);
            assert((2 * pow2((k - 1) as nat)) * (r as int) == pow2((k - 1) as nat) * (2 * (
            r as int))) by (nonlinear_arith);
        }
        let msq: u64 = (((m as u128) * (m as u128)) / 0x1_0000_0000u128) as u64;
        if msq >= 0x2_0000_0000u64 {
            m = msq / 2;
            r = 2 * r + 1;
        } else {
            m = msq;
            r = 2 * r;
        }
        i = i + 1;
    }
    proof {
        lemma_log2_frac_range(normed.0, 32);
        lemma2_to64();
        assert(pow2((32 - 32) as nat) * (r as int) == 1 * (r as int));
        assert(1 * (r as int) == r as int) by (nonlinear_arith);
    }
    e * FX_ONE + r as i64
}


/// Ceiling of the mantissa product cap: fraction exponentials stay below
/// two, so this bound is never reached by real data; it makes the recursion
/// and the loop total.
pub const EXP2_CAP: i64 = 0x4_0000_0000;

/// Whether `r` is the floor of the square root of `x`.
pub open spec fn is_sqrt_floor(x: int, r: int) -> bool {
    0 <= r && r * r <= x < (r + 1) * (r + 1)
}

/// Floor of the square root, as the unique integer whose square brackets
/// the argument.
pub open spec fn sqrt_floor(x: int) -> int {
    choose|r: int| is_sqrt_floor(x, r)
}

/// The bracketing property pins the floor square root down.
pub proof fn lemma_sqrt_floor_unique(x: int, r: int)
    requires
        0 <= r,
        r * r <= x,
        x < (r + 1) * (r + 1),
    ensures
        sqrt_floor(x) == r,
{
    assert(is_sqrt_floor(x, r));
    let w = sqrt_floor(x);
    assert(is_sqrt_floor(x, w)) by {
        assert(exists|v: int| is_sqrt_floor(x, v));
    }
    if w < r {
        assert((w + 1) * (w + 1) <= r * r) by (nonlinear_arith)
            requires
                0 <= w,
                w < r,
        ;
    }
    if w > r {
        assert((r + 1) * (r + 1) <= w * w) by (nonlinear_arith)
            requires
                0 <= r,
                r < w,
        ;
    }
}

/// One recursion step per fraction bit of the binary exponential: `c` walks
/// down the chain of iterated square roots of two, and the mantissa `r` is
/// multiplied by `c` wherever the corresponding bit of `f` is set (capped,
/// far above any reachable value, to keep the arithmetic total).
pub open spec fn exp2_frac_rec(r: int, c: int, f: int, p: int, k: nat) -> int
    decreases k,
{
    if k == 0 {
        r
    } else {
        let c2 = sqrt_floor(c * 0x1_0000_0000);
        let rm = (r * c2) / 0x1_0000_0000;
        let r2 = if (f / p) % 2 == 1 {
            if rm > EXP2_CAP as int {
                EXP2_CAP as int
            } else {
                rm
            }
        } else {
            r
        };
        exp2_frac_rec(r2, c2, f, p / 2, (k - 1) as nat)
    }
}

/// The binary exponential of a fraction `f / 2^32` in `[0, 1)`, in Q31.32.
pub open spec fn exp2_frac_spec(f: int) -> int {
    exp2_frac_rec(0x1_0000_0000, 0x2_0000_0000, f, 0x8000_0000, 32)
}

/// The crate's binary exponential of a Q31.32 argument: the fraction part
/// through the square-root chain, the integer part as a plain shift.
pub open spec fn exp2_spec(x: int) -> int {
    let n = x / (FX_ONE as int);
    let f = x % (FX_ONE as int);
    let v = exp2_frac_spec(f);
    if n >= 0 {
        v * pow2(n as nat)
    } else {
        v / (pow2((-n) as nat) as int)
    }
}

/// The crate's power function for a positive base: `exp2(e * log2(b))`.
pub open spec fn pow_spec(b: int, e: int) -> int {
    exp2_spec(fxm(e, log2_spec(b)))
}

/// The fraction part of the binary exponential; total, in `[1, 4]`.
fn exp2_frac(f: i64) -> (r: i64)
    requires
        0 <= f < FX_ONE,
    ensures
        r as int == exp2_frac_spec(f as int),
        0x1_0000_0000 <= r as int <= EXP2_CAP as int,
{
    let mut r: u64 = 0x1_0000_0000;
    let mut c: u64 = 0x2_0000_0000;
    let mut p: u64 = 0x8000_0000;
    let mut k: u64 = 32;
    proof {
        lemma2_to64();
    }
    while k > 0
        invariant
            0 <= f < FX_ONE,
            k <= 32,
            k >= 1 ==> p as int == pow2((k - 1) as nat),
            0x1_0000_0000 <= r as int <= EXP2_CAP as int,
            0x1_0000_0000 <= c as int <= 0x2_0000_0000,
            exp2_frac_rec(r as int, c as int, f as int, p as int, k as nat) == exp2_frac_spec(
                f as int,
            ),
        decreases k,
    {
        proof {
            lemma_pow2_pos((k - 1) as nat);
            assert((c as int) * 0x1_0000_0000 <= 0x2_0000_0000_0000_0000) by (nonlinear_arith)
                requires
                    c as int <= 0x2_0000_0000,
            ;
            assert((c as int) * 0x1_0000_0000 >= 0x1_0000_0000_0000_0000) by (nonlinear_arith)
                requires
                    c as int >= 0x1_0000_0000,
            ;
        }
        let c2 = crate::sqrt::isqrt_u128((c as u128) * 0x1_0000_0000u128);
        proof {
            lemma_sqrt_floor_unique((c as int) * 0x1_0000_0000, c2 as int);
            if c2 as int > 0x2_0000_0000 {
                assert((c2 as int) * (c2 as int) > 0x2_0000_0000_0000_0000) by (nonlinear_arith)
                    requires
                        c2 as int > 0x2_0000_0000,
                ;
            }
            if (c2 as int) < 0x1_0000_0000 {
                assert((c2 as int + 1) * (c2 as int + 1) <= 0x1_0000_0000_0000_0000)
                    by (nonlinear_arith)
                    requires
                        0 <= c2 as int,
                        (c2 as int) < 0x1_0000_0000,
                ;
            }
            if k >= 2 {
                lemma_pow2_step((k - 1) as nat);
                lemma_pow2_pos((k - 2) as nat);
                lemma_div_multiples_vanish(pow2((k - 2) as nat) as int, 2);
            }
        }
        let c_new: u64 = c2;
        let bit: u64 = (f as u64 / p) % 2;
        if bit == 1 {
            proof {
                assert((r as int) * (c_new as int) <= 0x8_0000_0000_0000_0000) by (nonlinear_arith)
                    requires
                        0 <= r as int <= 0x4_0000_0000,
                        0 <= c_new as int <= 0x2_0000_0000,
                ;
                assert((r as int) * (c_new as int) >= 0x1_0000_0000_0000_0000) by (nonlinear_arith)
                    requires
                        r as int >= 0x1_0000_0000,
                        c_new as int >= 0x1_0000_0000,
                ;
            }
            let prod: u128 = (r as u128) * (c_new as u128);
            proof {
                lemma_div_is_ordered(
                    0x1_0000_0000_0000_0000,
                    (r as int) * (c_new as int),
                    0x1_0000_0000,
                );
                lemma_div_is_ordered(
                    (r as int) * (c_new as int),
                    0x8_0000_0000_0000_0000,
                    0x1_0000_0000,
                );
            }
            let q: u128 = prod / 0x1_0000_0000u128;
            r = if q > EXP2_CAP as u128 {
                EXP2_CAP as u64
            } else {
                q as u64
            };
        }
        c = c_new;
        p = p / 2;
        k = k - 1;
    }
    r as i64
}

/// Binary exponential of a Q31.32 argument; `None` exactly when the result
/// does not fit an `i64`.
pub fn exp2_fx(x: i64) -> (r: Option<i64>)
    ensures
        r matches Some(v) ==> v as int == exp2_spec(x as int) && v >= 0,
        r is Some <==> exp2_spec(x as int) <= i64::MAX as int,
{
    let n: i64 = match x.checked_div_euclid(FX_ONE) {
        Some(v) => v,
        None => 0,
    };
    let f: i64 = match x.checked_rem_euclid(FX_ONE) {
        Some(v) => v,
        None => 0,
    };
    proof {
        lemma_mod_bound(x as int, FX_ONE as int);
    }
    let v = exp2_frac(f);
    if n >= 0 {
        let mut acc: i64 = v;
        let mut i: u64 = 0;
        proof {
            lemma2_to64();
            assert((v as int) * 1 == v as int) by (nonlinear_arith);
        }
        while i < n as u64
            invariant
                0 <= n,
                i <= n as u64,
                0 < v as int <= EXP2_CAP as int,
                acc as int == (v as int) * pow2(i as nat),
                exp2_spec(x as int) == (v as int) * pow2(n as nat),
            decreases n as u64 - i,
        {
            proof {
                lemma_pow2_step((i + 1) as nat);
                assert((v as int) * (2 * pow2(i as nat)) == 2 * ((v as int) * pow2(
                    i as nat,
                ))) by (nonlinear_arith);
                if acc as int * 2 > i64::MAX as int && i + 1 <= n {
                    lemma_pow2_pos((i + 1) as nat);
                    if i + 1 < n {
                        lemma_pow2_strictly_increases((i + 1) as nat, n as nat);
                    }
                    assert((v as int) * pow2(n as nat) >= (v as int) * pow2(
                        (i + 1) as nat,
                    )) by (nonlinear_arith)
                        requires
                            v as int > 0,
                            pow2(n as nat) >= pow2((i + 1) as nat),
                    ;
                }
            }
            acc = match acc.checked_mul(2) {
                Some(a) => a,
                None => {
                    return None;
                },
            };
            i = i + 1;
        }
        Some(acc)
    } else {
        let k: i64 = -n;
        let kk: i64 = if k > 35 {
            35
        } else {
            k
        };
        let mut acc: i64 = v;
        let mut i: i64 = 0;
        proof {
            lemma2_to64();
            lemma_div_basics_2_local(v as int);
        }
        while i < kk
            invariant
                0 < kk <= 35,
                0 <= i <= kk,
                0 <= acc as int <= EXP2_CAP as int,
                0 < v as int <= EXP2_CAP as int,
                acc as int == (v as int) / (pow2(i as nat) as int),
            decreases kk - i,
        {
            proof {
                lemma_pow2_pos(i as nat);
                lemma_pow2_step((i + 1) as nat);
                lemma_div_denominator_local(v as int, pow2(i as nat) as int, 2);
                lemma_div_is_ordered(0, acc as int, 2);
                lemma_div_is_ordered(acc as int, EXP2_CAP as int, 2);
            }
            acc = acc / 2;
            i = i + 1;
        }
        proof {
            if k > 35 {
                lemma_pow2_strictly_increases(35, (k as nat));
                lemma2_to64();
                lemma2_to64_rest();
                lemma_basic_div_local(v as int, pow2(k as nat) as int);
                lemma_basic_div_local(v as int, pow2(35) as int);
            }
        }
        Some(acc)
    }
}

/// Divisor chaining: `(x / c) / d == x / (c * d)`.
proof fn lemma_div_denominator_local(x: int, c: int, d: int)
    requires
        0 <= x,
        0 < c,
        0 < d,
    ensures
        (x / c) / d == x / (c * d),
{
    vstd::arithmetic::div_mod::lemma_div_denominator(x, c, d);
}

/// A value below the divisor divides to zero.
proof fn lemma_basic_div_local(x: int, d: int)
    requires
        0 <= x,
        x < d,
    ensures
        x / d == 0,
{
    vstd::arithmetic::div_mod::lemma_basic_div(x, d);
}

/// `x / 1 == x`.
proof fn lemma_div_basics_2_local(x: int)
    ensures
        x / 1 == x,
{
    vstd::arithmetic::div_mod::lemma_div_basics_2(x);
}

/// Power function for a positive Q31.32 base: `exp2(e * log2(b))`.
/// `None` exactly when an intermediate or the result does not fit.
pub fn pow_fx(b: i64, e: i64) -> (r: Option<i64>)
    requires
        b > 0,
    ensures
        r matches Some(v) ==> v as int == pow_spec(b as int, e as int) && v >= 0,
        r is Some <==> in_i64(fxm(e as int, log2_spec(b as int))) && pow_spec(
            b as int,
            e as int,
        ) <= i64::MAX as int,
{
    let l = log2_fx(b);
    match crate::fx::fx_mul(e, l) {
        Some(m) => exp2_fx(m),
        None => None,
    }
}

} // verus!
