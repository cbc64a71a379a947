//! The Kalman predict/correct engine shared by both filter instances:
//! covariance propagation `P' = F * P * F^T + Q * dt` and the scalar
//! sequential measurement update for a three-dimensional state.
//!
//! Every step either applies exactly the stated equations, skips with the
//! state untouched when the innovation variance is judged singular, or
//! reports a fixed-point range fault with the state untouched -- the integer
//! analogue of NaN corruption, after which the caller re-seeds the filter.
//! The updated covariance is symmetrized on every applied step, so symmetry
//! is an invariant, not a hope.

use vstd::prelude::*;

verus! {

use crate::fx::fx_div;
use crate::fx::fx_mul;
use crate::fx::fxd;
use crate::fx::fxm;
use crate::fx::in_i64;
use crate::fx::lemma_fxm_one;
use crate::fx::lemma_fxm_zero;
use crate::fx::lemma_tdiv_two;
use crate::fx::tdiv;
use crate::mat::Mat3;
use crate::mat::Vec3;
use crate::mat::dot3;
use crate::mat::ident3_spec;
use crate::mat::is_sym3;
use crate::mat::mat3_mul;
use crate::mat::mat3_sub_outer;
use crate::mat::mat3_symmetrize;
use crate::mat::mat3_transpose;
use crate::mat::mat3_vec_mul;
use crate::mat::mm3_at;
use crate::mat::mv3_at;

/// The two lifecycle states of a filter instance.
#[derive(Clone, Copy, Debug, PartialEq, Eq, Structural)]
pub enum FilterMode {
    /// No sample seen yet; the next sample seeds the state.
    Uninitialized,
    /// Seeded and running predict/correct cycles.
    Tracking,
}

/// How an engine step ended.  `Applied` changed the state by exactly the
/// Kalman equations; the other outcomes leave the state untouched.
#[derive(Clone, Copy, Debug, PartialEq, Eq, Structural)]
pub enum KalmanStatus {
    /// The step was applied.
    Applied,
    /// The innovation variance fell below the configured floor; the
    /// correction was refused to avoid dividing by a near-zero value.
    SkippedSingular,
    /// The corrected covariance would not have stayed positive
    /// semi-definite within tolerance; the correction was refused.
    SkippedNotPsd,
    /// An intermediate value left the `i64` fixed-point range; the caller
    /// must treat the filter as corrupted and re-seed it.
    RangeFault,
}

/// Entry `(i, j)` of `F * P * F^T`.
pub open spec fn fpf_at(f: Mat3, p: Mat3, i: int, j: int) -> int {
    fxm(mm3_at(f, p, i, 0), f[3 * j] as int) + fxm(mm3_at(f, p, i, 1), f[3 * j + 1] as int) + fxm(
        mm3_at(f, p, i, 2),
        f[3 * j + 2] as int,
    )
}

/// Entry `(i, j)` of `F * P * F^T + Q * dt`, with diagonal process noise.
pub open spec fn predict_raw_at(f: Mat3, p: Mat3, q: Vec3, dt: int, i: int, j: int) -> int {
    fpf_at(f, p, i, j) + if i == j {
        fxm(q[i] as int, dt)
    } else {
        0
    }
}

/// Entry `(i, j)` of the symmetrized propagated covariance.
pub open spec fn predict_at(f: Mat3, p: Mat3, q: Vec3, dt: int, i: int, j: int) -> int {
    tdiv(predict_raw_at(f, p, q, dt, i, j) + predict_raw_at(f, p, q, dt, j, i), 2)
}

/// Whether every intermediate of covariance propagation fits an `i64`.
pub open spec fn predict_fits(f: Mat3, p: Mat3, q: Vec3, dt: int) -> bool {
    &&& in_i64(mm3_at(f, p, 0, 0)) && in_i64(mm3_at(f, p, 0, 1)) && in_i64(mm3_at(f, p, 0, 2)) &&
        in_i64(mm3_at(f, p, 1, 0)) && in_i64(mm3_at(f, p, 1, 1)) && in_i64(mm3_at(f, p, 1, 2)) &&
        in_i64(mm3_at(f, p, 2, 0)) && in_i64(mm3_at(f, p, 2, 1)) && in_i64(mm3_at(f, p, 2, 2))
    &&& in_i64(fpf_at(f, p, 0, 0)) && in_i64(fpf_at(f, p, 0, 1)) && in_i64(fpf_at(f, p, 0, 2)) &&
        in_i64(fpf_at(f, p, 1, 0)) && in_i64(fpf_at(f, p, 1, 1)) && in_i64(fpf_at(f, p, 1, 2)) &&
        in_i64(fpf_at(f, p, 2, 0)) && in_i64(fpf_at(f, p, 2, 1)) && in_i64(fpf_at(f, p, 2, 2))
    &&& in_i64(fxm(q[0] as int, dt)) && in_i64(fxm(q[1] as int, dt)) && in_i64(fxm(q[2] as int, dt))
    &&& in_i64(predict_raw_at(f, p, q, dt, 0, 0)) && in_i64(predict_raw_at(f, p, q, dt, 1, 1)) &&
        in_i64(predict_raw_at(f, p, q, dt, 2, 2))
}

/// Covariance propagation `P' = sym(F * P * F^T + Q * dt)`; `None` exactly
/// when an intermediate does not fit.
pub fn predict_cov3(f: &Mat3, p: &Mat3, q: &Vec3, dt: i64) -> (r: Option<Mat3>)
    ensures
        r matches Some(c) ==> (c[0] as int == predict_at(*f, *p, *q, dt as int, 0, 0) &&
            c[1] as int == predict_at(*f, *p, *q, dt as int, 0, 1) &&
            c[2] as int == predict_at(*f, *p, *q, dt as int, 0, 2) &&
            c[3] as int == predict_at(*f, *p, *q, dt as int, 1, 0) &&
            c[4] as int == predict_at(*f, *p, *q, dt as int, 1, 1) &&
            c[5] as int == predict_at(*f, *p, *q, dt as int, 1, 2) &&
            c[6] as int == predict_at(*f, *p, *q, dt as int, 2, 0) &&
            c[7] as int == predict_at(*f, *p, *q, dt as int, 2, 1) &&
            c[8] as int == predict_at(*f, *p, *q, dt as int, 2, 2)) && is_sym3(c),
        r is Some <==> predict_fits(*f, *p, *q, dt as int),
{
    let fp = match mat3_mul(f, p) {
        Some(v) => v,
        None => {
            return None;
        },
    };
    let ft = mat3_transpose(f);
    let g = match mat3_mul(&fp, &ft) {
        Some(v) => v,
        None => {
            return None;
        },
    };
    let qd0 = match fx_mul(q[0], dt) {
        Some(v) => v,
        None => {
            return None;
        },
    };
    let qd1 = match fx_mul(q[1], dt) {
        Some(v) => v,
        None => {
            return None;
        },
    };
    let qd2 = match fx_mul(q[2], dt) {
        Some(v) => v,
        None => {
            return None;
        },
    };
    let d0 = match g[0].checked_add(qd0) {
        Some(v) => v,
        None => {
            return None;
        },
    };
    let d4 = match g[4].checked_add(qd1) {
        Some(v) => v,
        None => {
            return None;
        },
    };
    let d8 = match g[8].checked_add(qd2) {
        Some(v) => v,
        None => {
            return None;
        },
    };
    let raw: Mat3 = [d0, g[1], g[2], g[3], d4, g[5], g[6], g[7], d8];
    Some(mat3_symmetrize(&raw))
}

/// Through the identity Jacobian, `F * P * F^T` is `P` itself, entry by
/// entry (exactly, including the fixed-point roundings).
pub proof fn lemma_ident_products(p: Mat3)
    ensures
        mm3_at(ident3_spec(), p, 0, 0) == p[0] as int && mm3_at(ident3_spec(), p, 0, 1) == p[1] as int &&
            mm3_at(ident3_spec(), p, 0, 2) == p[2] as int &&
            mm3_at(ident3_spec(), p, 1, 0) == p[3] as int &&
            mm3_at(ident3_spec(), p, 1, 1) == p[4] as int &&
            mm3_at(ident3_spec(), p, 1, 2) == p[5] as int &&
            mm3_at(ident3_spec(), p, 2, 0) == p[6] as int &&
            mm3_at(ident3_spec(), p, 2, 1) == p[7] as int &&
            mm3_at(ident3_spec(), p, 2, 2) == p[8] as int,
        fpf_at(ident3_spec(), p, 0, 0) == p[0] as int && fpf_at(ident3_spec(), p, 0, 1) == p[1] as int &&
            fpf_at(ident3_spec(), p, 0, 2) == p[2] as int &&
            fpf_at(ident3_spec(), p, 1, 0) == p[3] as int &&
            fpf_at(ident3_spec(), p, 1, 1) == p[4] as int &&
            fpf_at(ident3_spec(), p, 1, 2) == p[5] as int &&
            fpf_at(ident3_spec(), p, 2, 0) == p[6] as int &&
            fpf_at(ident3_spec(), p, 2, 1) == p[7] as int &&
            fpf_at(ident3_spec(), p, 2, 2) == p[8] as int,
{
    let f = ident3_spec();
    lemma_fxm_zero(p[0] as int);
    lemma_fxm_zero(p[1] as int);
    lemma_fxm_zero(p[2] as int);
    lemma_fxm_zero(p[3] as int);
    lemma_fxm_zero(p[4] as int);
    lemma_fxm_zero(p[5] as int);
    lemma_fxm_zero(p[6] as int);
    lemma_fxm_zero(p[7] as int);
    lemma_fxm_zero(p[8] as int);
    lemma_fxm_one(p[0] as int);
    lemma_fxm_one(p[1] as int);
    lemma_fxm_one(p[2] as int);
    lemma_fxm_one(p[3] as int);
    lemma_fxm_one(p[4] as int);
    lemma_fxm_one(p[5] as int);
    lemma_fxm_one(p[6] as int);
    lemma_fxm_one(p[7] as int);
    lemma_fxm_one(p[8] as int);
    assert(mm3_at(ident3_spec(), p, 0, 0) == p[0] as int && mm3_at(ident3_spec(), p, 0, 1) == p[1] as int &&
        mm3_at(ident3_spec(), p, 0, 2) == p[2] as int && mm3_at(ident3_spec(), p, 1, 0) == p[3] as int &&
        mm3_at(ident3_spec(), p, 1, 1) == p[4] as int && mm3_at(ident3_spec(), p, 1, 2) == p[5] as int &&
        mm3_at(ident3_spec(), p, 2, 0) == p[6] as int && mm3_at(ident3_spec(), p, 2, 1) == p[7] as int &&
        mm3_at(ident3_spec(), p, 2, 2) == p[8] as int);
    lemma_fxm_zero(mm3_at(f, p, 0, 0));
    lemma_fxm_zero(mm3_at(f, p, 0, 1));
    lemma_fxm_zero(mm3_at(f, p, 0, 2));
    lemma_fxm_zero(mm3_at(f, p, 1, 0));
    lemma_fxm_zero(mm3_at(f, p, 1, 1));
    lemma_fxm_zero(mm3_at(f, p, 1, 2));
    lemma_fxm_zero(mm3_at(f, p, 2, 0));
    lemma_fxm_zero(mm3_at(f, p, 2, 1));
    lemma_fxm_zero(mm3_at(f, p, 2, 2));
    lemma_fxm_one(mm3_at(f, p, 0, 0));
    lemma_fxm_one(mm3_at(f, p, 0, 1));
    lemma_fxm_one(mm3_at(f, p, 0, 2));
    lemma_fxm_one(mm3_at(f, p, 1, 0));
    lemma_fxm_one(mm3_at(f, p, 1, 1));
    lemma_fxm_one(mm3_at(f, p, 1, 2));
    lemma_fxm_one(mm3_at(f, p, 2, 0));
    lemma_fxm_one(mm3_at(f, p, 2, 1));
    lemma_fxm_one(mm3_at(f, p, 2, 2));
}

/// With the identity Jacobian, zero elapsed time and a symmetric
/// covariance, propagation changes nothing: a zero-time predict step is the
/// identity on state and covariance, for every covariance the filters hold.
pub proof fn lemma_predict_ident_zero_dt(p: Mat3, q: Vec3)
    requires
        is_sym3(p),
    ensures
        predict_fits(ident3_spec(), p, q, 0),
        predict_at(ident3_spec(), p, q, 0, 0, 0) == p[0] &&
            predict_at(ident3_spec(), p, q, 0, 0, 1) == p[1] &&
            predict_at(ident3_spec(), p, q, 0, 0, 2) == p[2] &&
            predict_at(ident3_spec(), p, q, 0, 1, 0) == p[3] &&
            predict_at(ident3_spec(), p, q, 0, 1, 1) == p[4] &&
            predict_at(ident3_spec(), p, q, 0, 1, 2) == p[5] &&
            predict_at(ident3_spec(), p, q, 0, 2, 0) == p[6] &&
            predict_at(ident3_spec(), p, q, 0, 2, 1) == p[7] &&
            predict_at(ident3_spec(), p, q, 0, 2, 2) == p[8],
{
    let f = ident3_spec();
    lemma_ident_products(p);
    lemma_fxm_zero(q[0] as int);
    lemma_fxm_zero(q[1] as int);
    lemma_fxm_zero(q[2] as int);
    lemma_tdiv_two(p[0] as int);
    lemma_tdiv_two(p[1] as int);
    lemma_tdiv_two(p[2] as int);
    lemma_tdiv_two(p[3] as int);
    lemma_tdiv_two(p[4] as int);
    lemma_tdiv_two(p[5] as int);
    lemma_tdiv_two(p[6] as int);
    lemma_tdiv_two(p[7] as int);
    lemma_tdiv_two(p[8] as int);
}

/// The innovation variance `h * P * h^T + r` of a scalar update.
pub open spec fn su3_s(p: Mat3, h: Vec3, r: int) -> int {
    fxm(h[0] as int, mv3_at(p, h, 0)) + fxm(h[1] as int, mv3_at(p, h, 1)) + fxm(
        h[2] as int,
        mv3_at(p, h, 2),
    ) + r
}

/// Component `i` of the Kalman gain `P * h^T / s` of a scalar update.
pub open spec fn su3_k(p: Mat3, h: Vec3, r: int, i: int) -> int {
    fxd(mv3_at(p, h, i), su3_s(p, h, r))
}

/// Entry `(i, j)` of the unsymmetrized corrected covariance
/// `(I - k * h^T) * P = P - k * (P * h^T)^T`.
pub open spec fn su3_praw(p: Mat3, h: Vec3, r: int, i: int, j: int) -> int {
    p[3 * i + j] - fxm(su3_k(p, h, r, i), mv3_at(p, h, j))
}

/// Entry `(i, j)` of the symmetrized corrected covariance.
pub open spec fn su3_pnew(p: Mat3, h: Vec3, r: int, i: int, j: int) -> int {
    tdiv(su3_praw(p, h, r, i, j) + su3_praw(p, h, r, j, i), 2)
}

/// Component `i` of the corrected state `x + k * y`.
pub open spec fn su3_xnew(x: Vec3, p: Mat3, h: Vec3, r: int, y: int, i: int) -> int {
    x[i] + fxm(su3_k(p, h, r, i), y)
}

/// Whether the intermediates up to the innovation variance fit an `i64`.
pub open spec fn su3_fits_pre(p: Mat3, h: Vec3, r: int) -> bool {
    &&& in_i64(mv3_at(p, h, 0)) && in_i64(mv3_at(p, h, 1)) && in_i64(mv3_at(p, h, 2))
    &&& in_i64(su3_s(p, h, r) - r)
    &&& in_i64(su3_s(p, h, r))
}

/// Whether the corrected covariance keeps a nonnegative diagonal — the
/// cheap positive-semi-definiteness tolerance the update insists on.
pub open spec fn su3_diag_ok(p: Mat3, h: Vec3, r: int) -> bool {
    su3_pnew(p, h, r, 0, 0) >= 0 && su3_pnew(p, h, r, 1, 1) >= 0 && su3_pnew(p, h, r, 2, 2) >= 0
}

/// Whether the gain, state and covariance intermediates fit an `i64`.
pub open spec fn su3_fits_post(x: Vec3, p: Mat3, h: Vec3, r: int, y: int) -> bool {
    &&& in_i64(su3_k(p, h, r, 0)) && in_i64(su3_k(p, h, r, 1)) && in_i64(su3_k(p, h, r, 2))
    &&& in_i64(fxm(su3_k(p, h, r, 0), y)) && in_i64(fxm(su3_k(p, h, r, 1), y)) && in_i64(
        fxm(su3_k(p, h, r, 2), y),
    )
    &&& in_i64(su3_xnew(x, p, h, r, y, 0)) && in_i64(su3_xnew(x, p, h, r, y, 1)) && in_i64(
        su3_xnew(x, p, h, r, y, 2),
    )
    &&& in_i64(su3_praw(p, h, r, 0, 0)) && in_i64(su3_praw(p, h, r, 0, 1)) &&
        in_i64(su3_praw(p, h, r, 0, 2)) && in_i64(su3_praw(p, h, r, 1, 0)) &&
        in_i64(su3_praw(p, h, r, 1, 1)) && in_i64(su3_praw(p, h, r, 1, 2)) &&
        in_i64(su3_praw(p, h, r, 2, 0)) && in_i64(su3_praw(p, h, r, 2, 1)) &&
        in_i64(su3_praw(p, h, r, 2, 2))
}

/// One scalar sequential Kalman update for a three-dimensional state:
/// innovation variance `s = h * P * h^T + r`, gain `k = P * h^T / s`, state
/// `x + k * y`, covariance `sym((I - k * h^T) * P)`.  The correction is
/// refused, with the state untouched, when `s` falls below `s_min`; a range
/// fault also leaves the state untouched.
pub fn update_scalar3(
    x: &mut Vec3,
    p: &mut Mat3,
    h: &Vec3,
    y: i64,
    r_noise: i64,
    s_min: i64,
) -> (st: KalmanStatus)
    requires
        s_min >= 1,
    ensures
        st == KalmanStatus::Applied <==> su3_fits_pre(*old(p), *h, r_noise as int) && su3_s(
            *old(p),
            *h,
            r_noise as int,
        ) >= s_min && su3_fits_post(*old(x), *old(p), *h, r_noise as int, y as int) && su3_diag_ok(
            *old(p),
            *h,
            r_noise as int,
        ),
        st == KalmanStatus::SkippedSingular <==> su3_fits_pre(*old(p), *h, r_noise as int) && su3_s(
            *old(p),
            *h,
            r_noise as int,
        ) < s_min,
        st == KalmanStatus::SkippedNotPsd <==> su3_fits_pre(*old(p), *h, r_noise as int) && su3_s(
            *old(p),
            *h,
            r_noise as int,
        ) >= s_min && su3_fits_post(*old(x), *old(p), *h, r_noise as int, y as int)
            && !su3_diag_ok(*old(p), *h, r_noise as int),
        st != KalmanStatus::Applied ==> *final(x) == *old(x) && *final(p) == *old(p),
        st == KalmanStatus::Applied ==> (final(x)[0] as int == su3_xnew(*old(x), *old(p), *h, r_noise as int, y as int, 0) &&
            final(x)[1] as int == su3_xnew(*old(x), *old(p), *h, r_noise as int, y as int, 1) &&
            final(x)[2] as int == su3_xnew(*old(x), *old(p), *h, r_noise as int, y as int, 2)) &&
            (final(p)[0] as int == su3_pnew(*old(p), *h, r_noise as int, 0, 0) &&
            final(p)[1] as int == su3_pnew(*old(p), *h, r_noise as int, 0, 1) &&
            final(p)[2] as int == su3_pnew(*old(p), *h, r_noise as int, 0, 2) &&
            final(p)[3] as int == su3_pnew(*old(p), *h, r_noise as int, 1, 0) &&
            final(p)[4] as int == su3_pnew(*old(p), *h, r_noise as int, 1, 1) &&
            final(p)[5] as int == su3_pnew(*old(p), *h, r_noise as int, 1, 2) &&
            final(p)[6] as int == su3_pnew(*old(p), *h, r_noise as int, 2, 0) &&
            final(p)[7] as int == su3_pnew(*old(p), *h, r_noise as int, 2, 1) &&
            final(p)[8] as int == su3_pnew(*old(p), *h, r_noise as int, 2, 2)) && is_sym3(*final(p)),
{
    let pcur: Mat3 = *p;
    let xcur: Vec3 = *x;
    let t = match mat3_vec_mul(&pcur, h) {
        Some(v) => v,
        None => {
            return KalmanStatus::RangeFault;
        },
    };
    let dotv = match dot3(h, &t) {
        Some(v) => v,
        None => {
            return KalmanStatus::RangeFault;
        },
    };
    let s = match dotv.checked_add(r_noise) {
        Some(v) => v,
        None => {
            return KalmanStatus::RangeFault;
        },
    };
    if s < s_min {
        return KalmanStatus::SkippedSingular;
    }
    let k0 = match fx_div(t[0], s) {
        Some(v) => v,
        None => {
            return KalmanStatus::RangeFault;
        },
    };
    let k1 = match fx_div(t[1], s) {
        Some(v) => v,
        None => {
            return KalmanStatus::RangeFault;
        },
    };
    let k2 = match fx_div(t[2], s) {
        Some(v) => v,
        None => {
            return KalmanStatus::RangeFault;
        },
    };
    let g0 = match fx_mul(k0, y) {
        Some(v) => v,
        None => {
            return KalmanStatus::RangeFault;
        },
    };
    let g1 = match fx_mul(k1, y) {
        Some(v) => v,
        None => {
            return KalmanStatus::RangeFault;
        },
    };
    let g2 = match fx_mul(k2, y) {
        Some(v) => v,
        None => {
            return KalmanStatus::RangeFault;
        },
    };
    let nx0 = match xcur[0].checked_add(g0) {
        Some(v) => v,
        None => {
            return KalmanStatus::RangeFault;
        },
    };
    let nx1 = match xcur[1].checked_add(g1) {
        Some(v) => v,
        None => {
            return KalmanStatus::RangeFault;
        },
    };
    let nx2 = match xcur[2].checked_add(g2) {
        Some(v) => v,
        None => {
            return KalmanStatus::RangeFault;
        },
    };
    let k: Vec3 = [k0, k1, k2];
    let praw = match mat3_sub_outer(&pcur, &k, &t) {
        Some(v) => v,
        None => {
            return KalmanStatus::RangeFault;
        },
    };
    let pn = mat3_symmetrize(&praw);
    if pn[0] < 0 || pn[4] < 0 || pn[8] < 0 {
        return KalmanStatus::SkippedNotPsd;
    }
    *x = [nx0, nx1, nx2];
    *p = pn;
    KalmanStatus::Applied
}

} // verus!
