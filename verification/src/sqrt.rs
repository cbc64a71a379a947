//! Integer and fixed-point square roots, used to normalize accelerometer
//! samples and by the binary-exponential routine.

use vstd::prelude::*;

verus! {

use crate::fx::FX_ONE;
use crate::fx::abs_i;

/// Floor of the square root of `x`, found by binary search.
pub fn isqrt_u128(x: u128) -> (r: u64)
    ensures
        (r as int) * (r as int) <= x as int,
        (x as int) < (r as int + 1) * (r as int + 1),
{
    let mut lo: u128 = 0;
    let mut hi: u128 = 0x1_0000_0000_0000_0000;
    proof {
        assert((0x1_0000_0000_0000_0000 as int) * (0x1_0000_0000_0000_0000 as int) > u128::MAX
            as int) by (nonlinear_arith);
    }
    while hi - lo > 1
        invariant
            0 <= lo < hi <= 0x1_0000_0000_0000_0000,
            (lo as int) * (lo as int) <= x as int,
            (x as int) < (hi as int) * (hi as int),
        decreases hi - lo,
    {
        let mid: u128 = lo + (hi - lo) / 2;
        proof {
            assert(lo < mid < hi) by (nonlinear_arith)
                requires
                    hi - lo > 1,
                    mid == lo + (hi - lo) / 2,
                    lo < hi,
            ;
            assert((mid as int) * (mid as int) <= u128::MAX as int) by (nonlinear_arith)
                requires
                    0 <= mid as int <= 0xFFFF_FFFF_FFFF_FFFF as int,
            ;
        }
        if mid * mid <= x {
            lo = mid;
        } else {
            hi = mid;
        }
    }
    proof {
        assert(hi == lo + 1);
    }
    lo as u64
}

/// Floor square root in Q31.32: the result squares to at most `x << 32`.
pub fn sqrt_fx(x: i64) -> (r: i64)
    requires
        x >= 0,
    ensures
        0 <= r,
        (r as int) * (r as int) <= (x as int) * (FX_ONE as int),
        (x as int) * (FX_ONE as int) < (r as int + 1) * (r as int + 1),
{
    proof {
        assert(x as int * 0x1_0000_0000 as int <= 0x7FFF_FFFF_FFFF_FFFF as int * 0x1_0000_0000
            as int) by (nonlinear_arith)
            requires
                0 <= x as int <= 0x7FFF_FFFF_FFFF_FFFF as int,
        ;
    }
    let xx: u128 = (x as u128) * (FX_ONE as u128);
    let r = isqrt_u128(xx);
    proof {
        if r as int >= 0x1_0000_0000_0000 as int {
            assert((r as int) * (r as int) >= 0x1_0000_0000_0000 as int
                * 0x1_0000_0000_0000 as int) by (nonlinear_arith)
                requires
                    r as int >= 0x1_0000_0000_0000 as int,
            ;
        }
    }
    r as i64
}

/// Magnitude of an `i64`, exact also at `i64::MIN`.
pub fn abs_u64(a: i64) -> (r: u64)
    ensures
        r as int == abs_i(a as int),
{
    if a >= 0 {
        a as u64
    } else if a == i64::MIN {
        0x8000_0000_0000_0000u64
    } else {
        (-a) as u64
    }
}

/// Squared euclidean norm of a 3-vector of Q31.32 components, as an exact
/// 128-bit integer in Q62.64.
pub fn norm3_sq(v: &[i64; 3]) -> (r: u128)
    ensures
        r as int == v[0] as int * v[0] as int + v[1] as int * v[1] as int + v[2] as int * v[2]
            as int,
{
    let a0 = abs_u64(v[0]);
    let a1 = abs_u64(v[1]);
    let a2 = abs_u64(v[2]);
    proof {
        assert forall|a: int| #![trigger abs_i(a)] true implies abs_i(a) * abs_i(a) == a * a by {
            assert(abs_i(a) * abs_i(a) == a * a) by (nonlinear_arith)
                requires
                    abs_i(a) == if a >= 0 {
                        a
                    } else {
                        -a
                    },
            ;
        }
        assert(a0 as int * a0 as int + a1 as int * a1 as int + a2 as int * a2 as int <= u128::MAX
            as int) by (nonlinear_arith)
            requires
                0 <= a0 as int <= 0x8000_0000_0000_0000 as int,
                0 <= a1 as int <= 0x8000_0000_0000_0000 as int,
                0 <= a2 as int <= 0x8000_0000_0000_0000 as int,
        ;
    }
    (a0 as u128) * (a0 as u128) + (a1 as u128) * (a1 as u128) + (a2 as u128) * (a2 as u128)
}

/// Euclidean norm of a 3-vector in Q31.32; `None` exactly when the norm does
/// not fit an `i64` (possible only for components near the format's edge).
pub fn norm3_fx(v: &[i64; 3]) -> (r: Option<i64>)
    ensures
        r matches Some(n) ==> {
            let s = v[0] as int * v[0] as int + v[1] as int * v[1] as int + v[2] as int * v[2]
                as int;
            &&& 0 <= n
            &&& (n as int) * (n as int) <= s
            &&& s < (n as int + 1) * (n as int + 1)
        },
        r is None <==> (i64::MAX as int + 1) * (i64::MAX as int + 1) <= v[0] as int * v[0] as int
            + v[1] as int * v[1] as int + v[2] as int * v[2] as int,
{
    let s = norm3_sq(v);
    let n = isqrt_u128(s);
    if n <= i64::MAX as u64 {
        proof {
            assert((n as int + 1) * (n as int + 1) <= (i64::MAX as int + 1) * (i64::MAX as int
                + 1)) by (nonlinear_arith)
                requires
                    0 <= n as int <= i64::MAX as int,
            ;
        }
        Some(n as i64)
    } else {
        proof {
            assert((i64::MAX as int + 1) * (i64::MAX as int + 1) <= (n as int) * (n as int))
                by (nonlinear_arith)
                requires
                    i64::MAX as int + 1 <= n as int,
            ;
        }
        None
    }
}

} // verus!
