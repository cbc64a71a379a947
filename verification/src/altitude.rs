//! The altitude filter: a one-state extended Kalman filter fusing
//! barometric pressure and a downward range sensor.
//!
//! The state is altitude above sea level (m, Q31.32); the process model is
//! the identity with process noise `q * dt`; the measurement model pairs
//! the troposphere power law with the affine range-sensor calibration, so
//! the innovation covariance is 2x2 and its inverse comes from the guarded
//! 2x2 determinant.  The filter is `Uninitialized` until the first
//! pressure sample seeds the state (avoiding a large initial transient) and
//! `Tracking` afterwards; a fixed-point range fault sends it back to
//! `Uninitialized`, to be re-seeded by the next sample, and every other
//! failure merely skips the correction for that cycle, predict-only.

use vstd::prelude::*;

verus! {

use crate::baro::BaroOut;
use crate::baro::RANGE_INTERCEPT;
use crate::baro::RANGE_SLOPE;
use crate::baro::RangeCal;
use crate::baro::asl_to_baro;
use crate::baro::asl_to_baro_spec;
use crate::baro::baro_slope;
use crate::baro::baro_slope_spec;
use crate::baro::baro_to_asl;
use crate::baro::baro_to_asl_spec;
use crate::fx::FX_ONE;
use crate::kalman::FilterMode;
use crate::mat::Vec2;
use crate::mat::mat2_det;
use crate::fx::abs_i;
use crate::fx::fx_div;
use crate::fx::fx_mul;
use crate::fx::fxd;
use crate::fx::fxm;
use crate::fx::in_i64;
use crate::fx::lemma_fxm_nonneg;
use crate::fx::lemma_fxm_one;
use crate::fx::lemma_fxm_zero;

/// `0.1` in Q31.32: the stock initial covariance.
pub const ALT_DEFAULT_PVAL: i64 = 429496730;

/// `1e-4` in Q31.32: the stock process noise per unit time.
pub const ALT_DEFAULT_Q: i64 = 429497;

/// `0.5` in Q31.32: the stock measurement noise on each channel.
pub const ALT_DEFAULT_R: i64 = 2147483648;

/// `97420 Pa` in Q31.32: the stock baseline pressure.
pub const ALT_DEFAULT_BASELINE: i64 = 418415713976320;

/// Determinant floor for the 2x2 innovation covariance, in raw Q31.32
/// units (about `2.4e-7`): below it the update is judged singular.
pub const ALT_DET_MIN: i64 = 1024;

/// How the last `step` call ended.
#[derive(Clone, Copy, Debug, PartialEq, Eq, Structural)]
pub enum AltStatus {
    /// Nothing has happened yet.
    Idle,
    /// The first sample seeded the state.
    Seeded,
    /// The seeding sample was unusable; still waiting.
    SeedRejected,
    /// Predict and correct both applied.
    Applied,
    /// The pressure model left the troposphere fit; predict only.
    SkippedDomain,
    /// The innovation covariance was judged singular; predict only.
    SkippedSingular,
    /// The corrected variance would have gone negative; predict only.
    SkippedNotPsd,
    /// A fixed-point range fault; the filter returned to `Uninitialized`.
    RangeFault,
}

/// The exact spec-level outcome of the measurement model at a state:
/// expected pressure, expected range reading, and the pressure slope of
/// the Jacobian (the range slope is the calibration constant).
pub enum AltHOut {
    /// Outside the troposphere fit.
    Dom,
    /// An intermediate left the fixed-point range.
    Rng,
    /// Expected pressure, expected range, pressure slope.
    Val(int, int, int),
}

/// The exact spec-level outcome of the correction stage: either a refusal,
/// or the corrected state and variance.
pub enum AltGainOut {
    /// An intermediate left the fixed-point range.
    Rng,
    /// The innovation covariance was judged singular.
    Sing,
    /// The corrected variance would have gone negative.
    NotPsd,
    /// Corrected state and variance.
    Val(int, int),
}

/// The measurement model pipeline at reference pressure `p0`, range
/// calibration `(slope, icept)`, ground altitude `hg` and state `x`.
pub open spec fn alt_h_spec(p0: int, slope: int, icept: int, hg: int, x: int) -> AltHOut {
    match asl_to_baro_spec(p0, x) {
        BaroOut::Dom => AltHOut::Dom,
        BaroOut::Rng => AltHOut::Rng,
        BaroOut::Val(b) => match baro_slope_spec(x) {
            BaroOut::Dom => AltHOut::Dom,
            BaroOut::Rng => AltHOut::Rng,
            BaroOut::Val(dpdx) => {
                if !in_i64(x - hg) {
                    AltHOut::Rng
                } else if !in_i64(fxm(slope, x - hg)) {
                    AltHOut::Rng
                } else if !in_i64(fxm(slope, x - hg) + icept) {
                    AltHOut::Rng
                } else {
                    AltHOut::Val(b, fxm(slope, x - hg) + icept, dpdx)
                }
            },
        },
    }
}

/// The correction pipeline: predicted variance `p1`, state `x0`, expected
/// measurements `b` and `sexp`, Jacobian `(hj0, hj1)`, noise `(r0, r1)`,
/// measurement `(z0, z1)`.  Standard equations: `S = H p H^T + R`,
/// `K = p H^T S^-1`, `x' = x + K y`, `p' = (1 - K H) p`.
pub open spec fn alt_gain_spec(
    p1: int,
    x0: int,
    b: int,
    sexp: int,
    hj0: int,
    hj1: int,
    r0: int,
    r1: int,
    z0: int,
    z1: int,
) -> AltGainOut {
    let ph0 = fxm(p1, hj0);
    let ph1 = fxm(p1, hj1);
    if !in_i64(ph0) || !in_i64(ph1) {
        AltGainOut::Rng
    } else {
        let s00 = fxm(hj0, ph0) + r0;
        let s01 = fxm(hj0, ph1);
        let s11 = fxm(hj1, ph1) + r1;
        if !in_i64(s00) || !in_i64(s01) || !in_i64(s11) {
            AltGainOut::Rng
        } else {
            let det = fxm(s00, s11) - fxm(s01, s01);
            if !in_i64(det) {
                AltGainOut::Rng
            } else if abs_i(det) < ALT_DET_MIN as int {
                AltGainOut::Sing
            } else {
                let i00 = fxd(s11, det);
                let i01n = fxd(s01, det);
                let i11 = fxd(s00, det);
                if !in_i64(i00) || !in_i64(i01n) || i01n == i64::MIN as int || !in_i64(i11) {
                    AltGainOut::Rng
                } else {
                    let k0 = fxm(ph0, i00) + fxm(ph1, -i01n);
                    let k1 = fxm(ph0, -i01n) + fxm(ph1, i11);
                    if !in_i64(k0) || !in_i64(k1) {
                        AltGainOut::Rng
                    } else if !in_i64(z0 - b) || !in_i64(z1 - sexp) {
                        AltGainOut::Rng
                    } else {
                        let dx = fxm(k0, z0 - b) + fxm(k1, z1 - sexp);
                        if !in_i64(dx) || !in_i64(x0 + dx) {
                            AltGainOut::Rng
                        } else {
                            let kh = fxm(k0, hj0) + fxm(k1, hj1);
                            if !in_i64(kh) || !in_i64(FX_ONE - kh) {
                                AltGainOut::Rng
                            } else {
                                let pn = fxm(FX_ONE - kh, p1);
                                if !in_i64(pn) {
                                    AltGainOut::Rng
                                } else if pn < 0 {
                                    AltGainOut::NotPsd
                                } else {
                                    AltGainOut::Val(x0 + dx, pn)
                                }
                            }
                        }
                    }
                }
            }
        }
    }
}

/// Fusor of range and barometric sensors: the altitude EKF.
#[allow(non_camel_case_types)]
pub struct ASL_EKF {
    mode: FilterMode,
    last_status: AltStatus,
    baseline_pressure: i64,
    x: i64,
    p_pre: i64,
    p_post: i64,
    pval: i64,
    q: i64,
    r: [i64; 2],
    range_cal: RangeCal,
    h_ground: i64,
}

impl ASL_EKF {
    /// The filter's persistent well-formedness: positive reference
    /// pressure, nonnegative noise, nonnegative (1x1 positive
    /// semi-definite) covariance.
    pub closed spec fn wf(self) -> bool {
        &&& self.baseline_pressure > 0
        &&& self.pval >= 0
        &&& self.q >= 0
        &&& self.r[0] >= 0
        &&& self.r[1] >= 0
        &&& self.p_pre >= 0
        &&& self.p_post >= 0
    }

    /// The covariance invariant of the one-dimensional filter: a 1x1
    /// covariance is trivially symmetric, and well-formedness keeps it
    /// positive semi-definite (nonnegative) through every predict and
    /// correct cycle.
    pub proof fn lemma_wf_covariance_psd(self)
        requires
            self.wf(),
        ensures
            self.spec_p_pre() >= 0,
            self.spec_p_post() >= 0,
    {
    }

    /// The configuration never changes after construction.
    pub open spec fn same_config(self, o: ASL_EKF) -> bool {
        &&& self.spec_baseline() == o.spec_baseline()
        &&& self.spec_pval() == o.spec_pval()
        &&& self.spec_q() == o.spec_q()
        &&& self.spec_r() == o.spec_r()
        &&& self.spec_slope() == o.spec_slope()
        &&& self.spec_intercept() == o.spec_intercept()
        &&& self.spec_h_ground() == o.spec_h_ground()
    }

    /// Spec view of the state and bookkeeping fields.
    pub closed spec fn spec_mode(self) -> FilterMode {
        self.mode
    }

    pub closed spec fn spec_status(self) -> AltStatus {
        self.last_status
    }

    pub closed spec fn spec_x(self) -> int {
        self.x as int
    }

    pub closed spec fn spec_p_pre(self) -> int {
        self.p_pre as int
    }

    pub closed spec fn spec_p_post(self) -> int {
        self.p_post as int
    }

    pub closed spec fn spec_q(self) -> int {
        self.q as int
    }

    pub closed spec fn spec_r(self) -> [i64; 2] {
        self.r
    }

    pub closed spec fn spec_baseline(self) -> int {
        self.baseline_pressure as int
    }

    pub closed spec fn spec_slope(self) -> int {
        self.range_cal.slope as int
    }

    pub closed spec fn spec_intercept(self) -> int {
        self.range_cal.intercept as int
    }

    pub closed spec fn spec_h_ground(self) -> int {
        self.h_ground as int
    }

    /// The measurement pipeline of this filter at state `x`.
    pub open spec fn h_out(self, x: int) -> AltHOut {
        alt_h_spec(
            self.spec_baseline(),
            self.spec_slope(),
            self.spec_intercept(),
            self.spec_h_ground(),
            x,
        )
    }

    /// Create a new fusor with the stock settings: initial
    /// covariance `0.1`, process noise `1e-4`, measurement noise `0.5` on
    /// both channels, baseline pressure `97420 Pa`, the empirical sonar
    /// calibration, and ground at altitude zero.
    pub fn new() -> (r: ASL_EKF)
        ensures
            r.wf(),
            r.spec_mode() == FilterMode::Uninitialized,
            r.spec_status() == AltStatus::Idle,
            r.spec_x() == 0,
            r.spec_p_post() == ALT_DEFAULT_PVAL as int,
            r.spec_p_pre() == 0,
            r.spec_q() == ALT_DEFAULT_Q as int,
            r.spec_r() == [ALT_DEFAULT_R, ALT_DEFAULT_R],
            r.spec_baseline() == ALT_DEFAULT_BASELINE as int,
            r.spec_slope() == RANGE_SLOPE as int,
            r.spec_intercept() == RANGE_INTERCEPT as int,
            r.spec_h_ground() == 0,
    {
        ASL_EKF {
            mode: FilterMode::Uninitialized,
            last_status: AltStatus::Idle,
            baseline_pressure: ALT_DEFAULT_BASELINE,
            x: 0,
            p_pre: 0,
            p_post: ALT_DEFAULT_PVAL,
            pval: ALT_DEFAULT_PVAL,
            q: ALT_DEFAULT_Q,
            r: [ALT_DEFAULT_R, ALT_DEFAULT_R],
            range_cal: RangeCal { slope: RANGE_SLOPE, intercept: RANGE_INTERCEPT },
            h_ground: 0,
        }
    }

    /// Create a fusor with an explicit configuration: initial covariance
    /// scale, process noise, the two measurement noises, reference
    /// pressure, range calibration and ground altitude.
    pub fn with_config(
        pval: i64,
        q: i64,
        r_pressure: i64,
        r_range: i64,
        baseline_pressure: i64,
        range_cal: RangeCal,
        h_ground: i64,
    ) -> (r: ASL_EKF)
        requires
            pval >= 0,
            q >= 0,
            r_pressure >= 0,
            r_range >= 0,
            baseline_pressure > 0,
        ensures
            r.wf(),
            r.spec_mode() == FilterMode::Uninitialized,
            r.spec_status() == AltStatus::Idle,
            r.spec_x() == 0,
            r.spec_p_post() == pval as int,
            r.spec_p_pre() == 0,
            r.spec_q() == q as int,
            r.spec_r() == [r_pressure, r_range],
            r.spec_baseline() == baseline_pressure as int,
            r.spec_slope() == range_cal.slope as int,
            r.spec_intercept() == range_cal.intercept as int,
            r.spec_h_ground() == h_ground as int,
    {
        ASL_EKF {
            mode: FilterMode::Uninitialized,
            last_status: AltStatus::Idle,
            baseline_pressure,
            x: 0,
            p_pre: 0,
            p_post: pval,
            pval,
            q,
            r: [r_pressure, r_range],
            range_cal,
            h_ground,
        }
    }

    /// The current altitude estimate (m, Q31.32).
    pub fn altitude(&self) -> (r: i64)
        ensures
            r as int == self.spec_x(),
    {
        self.x
    }

    /// The corrected covariance.
    pub fn covariance(&self) -> (r: i64)
        ensures
            r as int == self.spec_p_post(),
    {
        self.p_post
    }

    /// The lifecycle state.
    pub fn mode(&self) -> (r: FilterMode)
        ensures
            r == self.spec_mode(),
    {
        self.mode
    }

    /// How the last step ended.
    pub fn last_status(&self) -> (r: AltStatus)
        ensures
            r == self.spec_status(),
    {
        self.last_status
    }

    /// State transition function: the identity, with Jacobian one.
    pub fn f(&self, x: i64) -> (r: (i64, i64))
        ensures
            r.0 == x,
            r.1 == FX_ONE,
    {
        (x, FX_ONE)
    }

    /// Measurement function at state `x`: the expected pressure and range
    /// readings and the pressure/range rows of the Jacobian.
    pub fn h(&self, x: i64) -> (r: Result<(Vec2, Vec2), crate::baro::BaroError>)
        ensures
            match self.h_out(x as int) {
                AltHOut::Dom => r == Err::<(Vec2, Vec2), crate::baro::BaroError>(
                    crate::baro::BaroError::Domain,
                ),
                AltHOut::Rng => r == Err::<(Vec2, Vec2), crate::baro::BaroError>(
                    crate::baro::BaroError::Range,
                ),
                AltHOut::Val(b, sexp, dpdx) => match r {
                    Ok((hv, hj)) => hv[0] as int == b && hv[1] as int == sexp && hj[0] as int
                        == dpdx && hj[1] as int == self.spec_slope(),
                    Err(_) => false,
                },
            },
    {
        let b = match asl_to_baro(self.baseline_pressure, x) {
            Ok(v) => v,
            Err(e) => {
                return Err(e);
            },
        };
        let dpdx = match baro_slope(x) {
            Ok(v) => v,
            Err(e) => {
                return Err(e);
            },
        };
        let agl = match x.checked_sub(self.h_ground) {
            Some(v) => v,
            None => {
                return Err(crate::baro::BaroError::Range);
            },
        };
        let m = match fx_mul(self.range_cal.slope, agl) {
            Some(v) => v,
            None => {
                return Err(crate::baro::BaroError::Range);
            },
        };
        let sexp = match m.checked_add(self.range_cal.intercept) {
            Some(v) => v,
            None => {
                return Err(crate::baro::BaroError::Range);
            },
        };
        Ok(([b, sexp], [dpdx, self.range_cal.slope]))
    }

    /// The predict step: state unchanged (identity process model),
    /// covariance grows by `q * dt`.  A zero `dt` changes nothing.  On a
    /// range fault the filter returns to `Uninitialized`, untouched
    /// otherwise.
    pub fn predict(&mut self, dt: i64) -> (ok: bool)
        requires
            old(self).wf(),
            dt >= 0,
        ensures
            final(self).wf(),
            final(self).same_config(*old(self)),
            final(self).spec_x() == old(self).spec_x(),
            final(self).spec_status() == old(self).spec_status(),
            ok <==> in_i64(old(self).spec_p_post() + fxm(old(self).spec_q(), dt as int)),
            ok ==> final(self).spec_p_pre() == old(self).spec_p_post() + fxm(
                old(self).spec_q(),
                dt as int,
            ) && final(self).spec_p_post() == final(self).spec_p_pre() && final(self).spec_mode()
                == old(self).spec_mode(),
            !ok ==> final(self).spec_mode() == FilterMode::Uninitialized &&
                final(self).spec_p_pre() == old(self).spec_p_pre() &&
                final(self).spec_p_post() == old(self).spec_p_post(),
            dt == 0 ==> ok && final(self).spec_p_pre() == old(self).spec_p_post() &&
                final(self).spec_p_post() == old(self).spec_p_post(),
    {
        proof {
            lemma_fxm_nonneg(self.q as int, dt as int);
            if dt == 0 {
                lemma_fxm_zero(self.q as int);
            }
        }
        let qd = match fx_mul(self.q, dt) {
            Some(v) => v,
            None => {
                self.mode = FilterMode::Uninitialized;
                return false;
            },
        };
        match self.p_post.checked_add(qd) {
            Some(p1) => {
                self.p_pre = p1;
                self.p_post = p1;
                true
            },
            None => {
                self.mode = FilterMode::Uninitialized;
                false
            },
        }
    }

    /// A predict-only state after a refused correction: covariance grown by
    /// one cycle of process noise, everything else kept.
    pub open spec fn predict_only_to(self, n: ASL_EKF, p1: int, st: AltStatus) -> bool {
        &&& n.spec_mode() == FilterMode::Tracking
        &&& n.spec_status() == st
        &&& n.spec_x() == self.spec_x()
        &&& n.spec_p_pre() == p1
        &&& n.spec_p_post() == p1
    }

    /// A faulted state: back to `Uninitialized`, numerics untouched.
    pub open spec fn fault_to(self, n: ASL_EKF) -> bool {
        &&& n.spec_mode() == FilterMode::Uninitialized
        &&& n.spec_status() == AltStatus::RangeFault
        &&& n.spec_x() == self.spec_x()
        &&& n.spec_p_pre() == self.spec_p_pre()
        &&& n.spec_p_post() == self.spec_p_post()
    }

    /// Initial covariance used at (re-)seeding.
    pub closed spec fn spec_pval(self) -> int {
        self.pval as int
    }

    /// The correction stage on the predicted variance `p1`: build the 2x2
    /// innovation covariance, invert it through the guarded determinant,
    /// and apply gain, state and covariance updates atomically.
    fn correct(&mut self, p1: i64, z: Vec2, hv: Vec2, hj: Vec2) -> (st: AltStatus)
        requires
            old(self).wf(),
            p1 >= 0,
            old(self).spec_mode() == FilterMode::Tracking,
        ensures
            final(self).wf(),
            final(self).same_config(*old(self)),
            final(self).spec_status() == st,
            match alt_gain_spec(
                p1 as int,
                old(self).spec_x(),
                hv[0] as int,
                hv[1] as int,
                hj[0] as int,
                hj[1] as int,
                old(self).spec_r()[0] as int,
                old(self).spec_r()[1] as int,
                z[0] as int,
                z[1] as int,
            ) {
                AltGainOut::Rng => old(self).fault_to(*final(self)) && st == AltStatus::RangeFault,
                AltGainOut::Sing => old(self).predict_only_to(
                    *final(self),
                    p1 as int,
                    AltStatus::SkippedSingular,
                ) && st == AltStatus::SkippedSingular,
                AltGainOut::NotPsd => old(self).predict_only_to(
                    *final(self),
                    p1 as int,
                    AltStatus::SkippedNotPsd,
                ) && st == AltStatus::SkippedNotPsd,
                AltGainOut::Val(xn, pn) => final(self).spec_mode() == FilterMode::Tracking && st
                    == AltStatus::Applied && final(self).spec_x() == xn && final(self).spec_p_pre()
                    == p1 && final(self).spec_p_post() == pn,
            },
    {
        let ph0 = match fx_mul(p1, hj[0]) {
            Some(v) => v,
            None => {
                self.mode = FilterMode::Uninitialized;
                self.last_status = AltStatus::RangeFault;
                return AltStatus::RangeFault;
            },
        };
        let ph1 = match fx_mul(p1, hj[1]) {
            Some(v) => v,
            None => {
                self.mode = FilterMode::Uninitialized;
                self.last_status = AltStatus::RangeFault;
                return AltStatus::RangeFault;
            },
        };
        let s00e: i128 = crate::mat::fxm_i128(hj[0], ph0) + (self.r[0] as i128);
        let s01e: i128 = crate::mat::fxm_i128(hj[0], ph1);
        let s11e: i128 = crate::mat::fxm_i128(hj[1], ph1) + (self.r[1] as i128);
        let s00 = match crate::mat::to_i64(s00e) {
            Some(v) => v,
            None => {
                self.mode = FilterMode::Uninitialized;
                self.last_status = AltStatus::RangeFault;
                return AltStatus::RangeFault;
            },
        };
        let s01 = match crate::mat::to_i64(s01e) {
            Some(v) => v,
            None => {
                self.mode = FilterMode::Uninitialized;
                self.last_status = AltStatus::RangeFault;
                return AltStatus::RangeFault;
            },
        };
        let s11 = match crate::mat::to_i64(s11e) {
            Some(v) => v,
            None => {
                self.mode = FilterMode::Uninitialized;
                self.last_status = AltStatus::RangeFault;
                return AltStatus::RangeFault;
            },
        };
        let smat: crate::mat::Mat2 = [s00, s01, s01, s11];
        let det = match mat2_det(&smat) {
            Some(v) => v,
            None => {
                self.mode = FilterMode::Uninitialized;
                self.last_status = AltStatus::RangeFault;
                return AltStatus::RangeFault;
            },
        };
        if -ALT_DET_MIN < det && det < ALT_DET_MIN {
            self.p_pre = p1;
            self.p_post = p1;
            self.last_status = AltStatus::SkippedSingular;
            return AltStatus::SkippedSingular;
        }
        let i00 = match fx_div(s11, det) {
            Some(v) => v,
            None => {
                self.mode = FilterMode::Uninitialized;
                self.last_status = AltStatus::RangeFault;
                return AltStatus::RangeFault;
            },
        };
        let i01n = match fx_div(s01, det) {
            Some(v) => v,
            None => {
                self.mode = FilterMode::Uninitialized;
                self.last_status = AltStatus::RangeFault;
                return AltStatus::RangeFault;
            },
        };
        if i01n == i64::MIN {
            self.mode = FilterMode::Uninitialized;
            self.last_status = AltStatus::RangeFault;
            return AltStatus::RangeFault;
        }
        let i01: i64 = -i01n;
        let i11 = match fx_div(s00, det) {
            Some(v) => v,
            None => {
                self.mode = FilterMode::Uninitialized;
                self.last_status = AltStatus::RangeFault;
                return AltStatus::RangeFault;
            },
        };
        let k0e: i128 = crate::mat::fxm_i128(ph0, i00) + crate::mat::fxm_i128(ph1, i01);
        let k1e: i128 = crate::mat::fxm_i128(ph0, i01) + crate::mat::fxm_i128(ph1, i11);
        let k0 = match crate::mat::to_i64(k0e) {
            Some(v) => v,
            None => {
                self.mode = FilterMode::Uninitialized;
                self.last_status = AltStatus::RangeFault;
                return AltStatus::RangeFault;
            },
        };
        let k1 = match crate::mat::to_i64(k1e) {
            Some(v) => v,
            None => {
                self.mode = FilterMode::Uninitialized;
                self.last_status = AltStatus::RangeFault;
                return AltStatus::RangeFault;
            },
        };
        let y0 = match z[0].checked_sub(hv[0]) {
            Some(v) => v,
            None => {
                self.mode = FilterMode::Uninitialized;
                self.last_status = AltStatus::RangeFault;
                return AltStatus::RangeFault;
            },
        };
        let y1 = match z[1].checked_sub(hv[1]) {
            Some(v) => v,
            None => {
                self.mode = FilterMode::Uninitialized;
                self.last_status = AltStatus::RangeFault;
                return AltStatus::RangeFault;
            },
        };
        let dxe: i128 = crate::mat::fxm_i128(k0, y0) + crate::mat::fxm_i128(k1, y1);
        let dx = match crate::mat::to_i64(dxe) {
            Some(v) => v,
            None => {
                self.mode = FilterMode::Uninitialized;
                self.last_status = AltStatus::RangeFault;
                return AltStatus::RangeFault;
            },
        };
        let xn = match self.x.checked_add(dx) {
            Some(v) => v,
            None => {
                self.mode = FilterMode::Uninitialized;
                self.last_status = AltStatus::RangeFault;
                return AltStatus::RangeFault;
            },
        };
        let khe: i128 = crate::mat::fxm_i128(k0, hj[0]) + crate::mat::fxm_i128(k1, hj[1]);
        let kh = match crate::mat::to_i64(khe) {
            Some(v) => v,
            None => {
                self.mode = FilterMode::Uninitialized;
                self.last_status = AltStatus::RangeFault;
                return AltStatus::RangeFault;
            },
        };
        let lam = match FX_ONE.checked_sub(kh) {
            Some(v) => v,
            None => {
                self.mode = FilterMode::Uninitialized;
                self.last_status = AltStatus::RangeFault;
                return AltStatus::RangeFault;
            },
        };
        let pn = match fx_mul(lam, p1) {
            Some(v) => v,
            None => {
                self.mode = FilterMode::Uninitialized;
                self.last_status = AltStatus::RangeFault;
                return AltStatus::RangeFault;
            },
        };
        if pn < 0 {
            self.p_pre = p1;
            self.p_post = p1;
            self.last_status = AltStatus::SkippedNotPsd;
            return AltStatus::SkippedNotPsd;
        }
        self.x = xn;
        self.p_pre = p1;
        self.p_post = pn;
        self.last_status = AltStatus::Applied;
        AltStatus::Applied
    }

    /// One filter cycle on a measurement pair `z = [pressure, range]`
    /// (Q31.32): seed from the first usable pressure sample; afterwards
    /// predict over one unit of time and correct with the standard Kalman
    /// equations, falling back to predict-only whenever the pressure model
    /// leaves its domain, the innovation covariance is judged singular, or
    /// the corrected variance would go negative.  A fixed-point range fault
    /// returns the filter to `Uninitialized`.  Returns the altitude
    /// estimate.
    pub fn step(&mut self, z: Vec2) -> (xr: i64)
        requires
            old(self).wf(),
        ensures
            final(self).wf(),
            final(self).same_config(*old(self)),
            xr as int == final(self).spec_x(),
            old(self).spec_mode() == FilterMode::Uninitialized ==> match baro_to_asl_spec(
                old(self).spec_baseline(),
                z[0] as int,
            ) {
                BaroOut::Val(h) => final(self).spec_mode() == FilterMode::Tracking &&
                    final(self).spec_status() == AltStatus::Seeded && final(self).spec_x() == h &&
                    final(self).spec_p_post() == old(self).spec_pval() && final(self).spec_p_pre() == 0,
                _ => final(self).spec_mode() == FilterMode::Uninitialized &&
                    final(self).spec_status() == AltStatus::SeedRejected &&
                    final(self).spec_x() == old(self).spec_x() &&
                    final(self).spec_p_pre() == old(self).spec_p_pre() &&
                    final(self).spec_p_post() == old(self).spec_p_post(),
            },
            old(self).spec_mode() == FilterMode::Tracking ==> {
                let p1 = old(self).spec_p_post() + fxm(old(self).spec_q(), FX_ONE as int);
                if !in_i64(p1) {
                    old(self).fault_to(*final(self))
                } else {
                    match old(self).h_out(old(self).spec_x()) {
                        AltHOut::Dom => old(self).predict_only_to(
                            *final(self),
                            p1,
                            AltStatus::SkippedDomain,
                        ),
                        AltHOut::Rng => old(self).fault_to(*final(self)),
                        AltHOut::Val(b, sexp, dpdx) => match alt_gain_spec(
                            p1,
                            old(self).spec_x(),
                            b,
                            sexp,
                            dpdx,
                            old(self).spec_slope(),
                            old(self).spec_r()[0] as int,
                            old(self).spec_r()[1] as int,
                            z[0] as int,
                            z[1] as int,
                        ) {
                            AltGainOut::Rng => old(self).fault_to(*final(self)),
                            AltGainOut::Sing => old(self).predict_only_to(
                                *final(self),
                                p1,
                                AltStatus::SkippedSingular,
                            ),
                            AltGainOut::NotPsd => old(self).predict_only_to(
                                *final(self),
                                p1,
                                AltStatus::SkippedNotPsd,
                            ),
                            AltGainOut::Val(xn, pn) => final(self).spec_mode()
                                == FilterMode::Tracking && final(self).spec_status()
                                == AltStatus::Applied && final(self).spec_x() == xn &&
                                    final(self).spec_p_pre() == p1 && final(self).spec_p_post() == pn,
                        },
                    }
                }
            },
    {
        match self.mode {
            FilterMode::Uninitialized => {
                match baro_to_asl(self.baseline_pressure, z[0]) {
                    Ok(h0) => {
                        self.x = h0;
                        self.p_post = self.pval;
                        self.p_pre = 0;
                        self.mode = FilterMode::Tracking;
                        self.last_status = AltStatus::Seeded;
                    },
                    Err(_) => {
                        self.last_status = AltStatus::SeedRejected;
                    },
                }
                self.x
            },
            FilterMode::Tracking => {
                proof {
                    lemma_fxm_one(self.q as int);
                    lemma_fxm_nonneg(self.q as int, FX_ONE as int);
                }
                let qd = match fx_mul(self.q, FX_ONE) {
                    Some(v) => v,
                    None => 0,
                };
                let p1 = match self.p_post.checked_add(qd) {
                    Some(v) => v,
                    None => {
                        self.mode = FilterMode::Uninitialized;
                        self.last_status = AltStatus::RangeFault;
                        return self.x;
                    },
                };
                let (hv, hj) = match self.h(self.x) {
                    Ok(v) => v,
                    Err(crate::baro::BaroError::Domain) => {
                        self.p_pre = p1;
                        self.p_post = p1;
                        self.last_status = AltStatus::SkippedDomain;
                        return self.x;
                    },
                    Err(crate::baro::BaroError::Range) => {
                        self.mode = FilterMode::Uninitialized;
                        self.last_status = AltStatus::RangeFault;
                        return self.x;
                    },
                };
                let _ = self.correct(p1, z, hv, hj);
                self.x
            },
        }
    }
}

} // verus!
