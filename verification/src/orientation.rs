//! The orientation filter: a three-state extended Kalman filter over the
//! Euler triplet (roll, pitch, yaw), in Q31.32 radians.
//!
//! The process model integrates the gyroscope rate over `dt` (its Jacobian
//! is exactly the identity); the accelerometer correction compares the
//! normalized specific-force sample against the gravity direction the
//! current attitude implies, one component at a time (sequential scalar
//! updates, so only scalar inversions are needed); the magnetometer
//! correction tilt-compensates the field and corrects the yaw toward the
//! measured heading with its own, typically larger, noise.  A zero-length
//! accelerometer sample (free fall, glitch) skips the correction for that
//! cycle; a fixed-point range fault sends the filter back to
//! `Uninitialized`, to be re-seeded from the next accelerometer sample.

use vstd::prelude::*;

verus! {

use crate::fx::FX_ONE;
use crate::fx::abs_i;
use crate::fx::fx_div;
use crate::fx::fx_mul;
use crate::fx::fxd;
use crate::fx::fxm;
use crate::fx::in_i64;
use crate::fx::lemma_fxm_nonneg;
use crate::fx::lemma_fxm_zero;
use crate::fx::lemma_tdiv_two;
use crate::kalman::FilterMode;
use crate::kalman::KalmanStatus;
use crate::kalman::lemma_ident_products;
use vstd::arithmetic::div_mod::lemma_mod_bound;
use crate::kalman::lemma_predict_ident_zero_dt;
use crate::kalman::predict_cov3;
use crate::kalman::predict_at;
use crate::kalman::predict_fits;
use crate::kalman::su3_diag_ok;
use crate::kalman::su3_fits_post;
use crate::kalman::su3_fits_pre;
use crate::kalman::su3_pnew;
use crate::kalman::su3_s;
use crate::kalman::su3_xnew;
use crate::kalman::update_scalar3;
use crate::mat::Mat3;
use crate::mat::Vec3;
use crate::mat::ident3_spec;
use crate::mat::is_sym3;
use crate::powf::lemma_sqrt_floor_unique;
use crate::powf::sqrt_floor;
use crate::sqrt::isqrt_u128;
use crate::trig::FX_PI;
use crate::trig::FX_TWO_PI;
use crate::trig::atan2_fx;
use crate::trig::atan2_spec;
use crate::trig::cos_fx;
use crate::trig::cos_spec;
use crate::trig::lemma_wrap_identity;
use crate::trig::sin_fx;
use crate::trig::sin_spec;
use crate::trig::wrap_angle;
use crate::trig::wrap_spec;

/// Accelerometer vectors shorter than this (Q31.32, about `0.01`) carry no
/// usable gravity direction and are skipped.
pub const ACCEL_MIN_NORM: i64 = 42949673;

/// Horizontal magnetic fields with both components below this magnitude
/// (Q31.32, about `0.001`) carry no usable heading and are skipped.
pub const MAG_MIN_HORIZ: i64 = 4294967;

/// Innovation-variance floor of the scalar updates.
pub const ORI_S_MIN: i64 = 16;

/// `1.0` in Q31.32: the stock initial covariance per axis.
pub const ORI_DEFAULT_PVAL: i64 = 4294967296;

/// `0.003` in Q31.32: the stock process noise per axis.
pub const ORI_DEFAULT_Q: i64 = 12884902;

/// `0.03` in Q31.32: the stock accelerometer noise.
pub const ORI_DEFAULT_R_ACCEL: i64 = 128849019;

/// `0.1` in Q31.32: the stock magnetometer noise (heading is trusted
/// less, as the design prescribes for interference-prone fields).
pub const ORI_DEFAULT_R_MAG: i64 = 429496730;

/// How the last orientation update ended.
#[derive(Clone, Copy, Debug, PartialEq, Eq, Structural)]
pub enum OriStatus {
    /// Nothing has happened yet.
    Idle,
    /// The first accelerometer sample seeded the attitude.
    Seeded,
    /// The seeding sample was unusable; still waiting.
    SeedRejected,
    /// The correction was applied (singular axes, if any, skipped).
    Applied,
    /// The sample was degenerate (no direction in it); state untouched.
    SkippedDegenerate,
    /// The filter has no attitude yet; the correction needs a seed first.
    SkippedUnseeded,
    /// A fixed-point range fault; the filter returned to `Uninitialized`.
    RangeFault,
}

/// The measurement Jacobian row for gravity component `c` at attitude `a`:
/// the partial derivatives of the expected body-frame gravity direction
/// with respect to (roll, pitch, yaw).  Yaw is unobservable from gravity,
/// so the third column is always zero.
pub open spec fn grav_h(a: Vec3, c: int) -> Vec3 {
    let sr = sin_spec(a[0] as int);
    let cr = cos_spec(a[0] as int);
    let sp = sin_spec(a[1] as int);
    let cp = cos_spec(a[1] as int);
    if c == 0 {
        [0i64, (-cp) as i64, 0i64]
    } else if c == 1 {
        [fxm(cr, cp) as i64, (-fxm(sr, sp)) as i64, 0i64]
    } else {
        [(-fxm(sr, cp)) as i64, (-fxm(cr, sp)) as i64, 0i64]
    }
}

/// Component `c` of the gravity direction the attitude `a` expects in the
/// body frame: the world up-vector rotated by the inverse attitude.
pub open spec fn grav_e(a: Vec3, c: int) -> int {
    let sr = sin_spec(a[0] as int);
    let cr = cos_spec(a[0] as int);
    let sp = sin_spec(a[1] as int);
    let cp = cos_spec(a[1] as int);
    if c == 0 {
        -sp
    } else if c == 1 {
        fxm(sr, cp)
    } else {
        fxm(cr, cp)
    }
}

/// The normalized component `c` of an accelerometer sample: the component
/// over the floor of the euclidean norm.
pub open spec fn accel_unit(acc: Vec3, c: int) -> int {
    fxd(
        acc[c] as int,
        sqrt_floor(
            acc[0] as int * acc[0] as int + acc[1] as int * acc[1] as int + acc[2] as int * acc[2]
                as int,
        ),
    )
}

/// The outcome of one scalar correction, at spec level: either the exact
/// next state, or a fixed-point range fault.
pub enum AxisOut {
    /// An intermediate left the fixed-point range.
    Fault,
    /// The state after the axis: corrected, or kept unchanged when the
    /// update was refused (singular variance or non-PSD result).
    Next(Vec3, Mat3),
}

/// One scalar update on the Jacobian row `h` with innovation `y`, as a
/// total function of the state: the Kalman equations with re-wrapped
/// angles when every intermediate fits and the variance floor and the PSD
/// tolerance allow it; the state kept on a refusal; a fault otherwise.
pub open spec fn scalar_axis_out(a0: Vec3, p0: Mat3, h: Vec3, y: int, rn: i64) -> AxisOut {
    let applied = su3_fits_pre(p0, h, rn as int) && su3_s(p0, h, rn as int) >= ORI_S_MIN
        && su3_fits_post(a0, p0, h, rn as int, y) && su3_diag_ok(p0, h, rn as int);
    let refused = (su3_fits_pre(p0, h, rn as int) && su3_s(p0, h, rn as int) < ORI_S_MIN) || (
    su3_fits_pre(p0, h, rn as int) && su3_s(p0, h, rn as int) >= ORI_S_MIN && su3_fits_post(
        a0,
        p0,
        h,
        rn as int,
        y,
    ) && !su3_diag_ok(p0, h, rn as int));
    if applied {
        AxisOut::Next(
            [
                wrap_spec(su3_xnew(a0, p0, h, rn as int, y, 0)) as i64,
                wrap_spec(su3_xnew(a0, p0, h, rn as int, y, 1)) as i64,
                wrap_spec(su3_xnew(a0, p0, h, rn as int, y, 2)) as i64,
            ],
            [
                su3_pnew(p0, h, rn as int, 0, 0) as i64,
                su3_pnew(p0, h, rn as int, 0, 1) as i64,
                su3_pnew(p0, h, rn as int, 0, 2) as i64,
                su3_pnew(p0, h, rn as int, 1, 0) as i64,
                su3_pnew(p0, h, rn as int, 1, 1) as i64,
                su3_pnew(p0, h, rn as int, 1, 2) as i64,
                su3_pnew(p0, h, rn as int, 2, 0) as i64,
                su3_pnew(p0, h, rn as int, 2, 1) as i64,
                su3_pnew(p0, h, rn as int, 2, 2) as i64,
            ],
        )
    } else if refused {
        AxisOut::Next(a0, p0)
    } else {
        AxisOut::Fault
    }
}

/// The accelerometer correction on component `c`, linearized at `a0`.
pub open spec fn accel_axis_out(a0: Vec3, p0: Mat3, acc: Vec3, racc: i64, c: int) -> AxisOut {
    scalar_axis_out(a0, p0, grav_h(a0, c), accel_unit(acc, c) - grav_e(a0, c), racc)
}

/// The whole accelerometer correction: the three components in sequence,
/// each linearized at the state the previous one left.
pub enum OriStepOut {
    /// A fault, carrying the state the filter stood at when it hit.
    Fault(Vec3, Mat3),
    /// All three components done (refused ones counted as done, unchanged).
    Done(Vec3, Mat3),
}

/// The exact outcome of a full accelerometer correction from `(a0, p0)`.
pub open spec fn accel_update_out(a0: Vec3, p0: Mat3, acc: Vec3, racc: i64) -> OriStepOut {
    match accel_axis_out(a0, p0, acc, racc, 0) {
        AxisOut::Fault => OriStepOut::Fault(a0, p0),
        AxisOut::Next(a1, p1) => match accel_axis_out(a1, p1, acc, racc, 1) {
            AxisOut::Fault => OriStepOut::Fault(a1, p1),
            AxisOut::Next(a2, p2) => match accel_axis_out(a2, p2, acc, racc, 2) {
                AxisOut::Fault => OriStepOut::Fault(a2, p2),
                AxisOut::Next(a3, p3) => OriStepOut::Done(a3, p3),
            },
        },
    }
}

/// The exact outcome of a yaw correction toward the measured heading
/// `yaw_m`: one scalar update on the yaw row, innovation wrapped the short
/// way around the circle.
pub open spec fn mag_update_out(a0: Vec3, p0: Mat3, yaw_m: int, rmag: i64) -> AxisOut {
    scalar_axis_out(a0, p0, [0i64, 0i64, FX_ONE], wrap_spec(yaw_m - a0[2] as int), rmag)
}

/// The orientation EKF over the Euler triplet.
pub struct OrientationEkf {
    mode: FilterMode,
    last_status: OriStatus,
    ang: Vec3,
    p: Mat3,
    pval: i64,
    q: Vec3,
    r_accel: i64,
    r_mag: i64,
}

impl OrientationEkf {
    /// Persistent well-formedness: symmetric covariance (the covariance
    /// symmetry invariant of the design) and wrapped angles.
    pub closed spec fn wf(self) -> bool {
        &&& is_sym3(self.p)
        &&& self.p[0] >= 0 && self.p[4] >= 0 && self.p[8] >= 0
        &&& FX_PI - FX_TWO_PI < self.ang[0] as int <= FX_PI as int
        &&& FX_PI - FX_TWO_PI < self.ang[1] as int <= FX_PI as int
        &&& FX_PI - FX_TWO_PI < self.ang[2] as int <= FX_PI as int
        &&& self.pval >= 0
        &&& self.q[0] >= 0 && self.q[1] >= 0 && self.q[2] >= 0
        &&& self.r_accel >= 0
        &&& self.r_mag >= 0
    }

    /// The configuration never changes after construction.
    pub open spec fn same_config(self, o: OrientationEkf) -> bool {
        &&& self.spec_pval() == o.spec_pval()
        &&& self.spec_q() == o.spec_q()
        &&& self.spec_r_accel() == o.spec_r_accel()
        &&& self.spec_r_mag() == o.spec_r_mag()
    }

    /// The covariance symmetry invariant: a well-formed filter's covariance
    /// always equals its transpose, whatever sequence of predict and update
    /// calls produced it, since every method keeps `wf`.
    pub proof fn lemma_wf_covariance_symmetric(self)
        requires
            self.wf(),
        ensures
            is_sym3(self.spec_p()),
            self.spec_p()[0] >= 0,
            self.spec_p()[4] >= 0,
            self.spec_p()[8] >= 0,
    {
    }

    /// Everything except the status report is unchanged.
    pub open spec fn same_state(self, o: OrientationEkf) -> bool {
        &&& self.spec_ang() == o.spec_ang()
        &&& self.spec_p() == o.spec_p()
        &&& self.spec_mode() == o.spec_mode()
    }

    pub closed spec fn spec_mode(self) -> FilterMode {
        self.mode
    }

    pub closed spec fn spec_status(self) -> OriStatus {
        self.last_status
    }

    pub closed spec fn spec_ang(self) -> Vec3 {
        self.ang
    }

    pub closed spec fn spec_p(self) -> Mat3 {
        self.p
    }

    pub closed spec fn spec_q(self) -> Vec3 {
        self.q
    }

    pub closed spec fn spec_pval(self) -> int {
        self.pval as int
    }

    pub closed spec fn spec_r_accel(self) -> i64 {
        self.r_accel
    }

    pub closed spec fn spec_r_mag(self) -> i64 {
        self.r_mag
    }

    /// Create the filter with the stock settings: initial covariance `1.0`
    /// per axis, process noise `0.003`, accelerometer noise `0.03`,
    /// magnetometer noise `0.1`.
    pub fn new() -> (r: OrientationEkf)
        ensures
            r.wf(),
            r.spec_mode() == FilterMode::Uninitialized,
            r.spec_status() == OriStatus::Idle,
            r.spec_ang() == [0i64, 0i64, 0i64],
            r.spec_pval() == ORI_DEFAULT_PVAL as int,
            r.spec_q() == [ORI_DEFAULT_Q, ORI_DEFAULT_Q, ORI_DEFAULT_Q],
            r.spec_r_accel() == ORI_DEFAULT_R_ACCEL,
            r.spec_r_mag() == ORI_DEFAULT_R_MAG,
    {
        OrientationEkf {
            mode: FilterMode::Uninitialized,
            last_status: OriStatus::Idle,
            ang: [0, 0, 0],
            p: [0, 0, 0, 0, 0, 0, 0, 0, 0],
            pval: ORI_DEFAULT_PVAL,
            q: [ORI_DEFAULT_Q, ORI_DEFAULT_Q, ORI_DEFAULT_Q],
            r_accel: ORI_DEFAULT_R_ACCEL,
            r_mag: ORI_DEFAULT_R_MAG,
        }
    }

    /// Create the filter with an explicit configuration: initial covariance
    /// scale, per-axis process noise, and the two measurement noises.
    pub fn with_config(pval: i64, q: Vec3, r_accel: i64, r_mag: i64) -> (r: OrientationEkf)
        requires
            pval >= 0,
            q[0] >= 0 && q[1] >= 0 && q[2] >= 0,
            r_accel >= 0,
            r_mag >= 0,
        ensures
            r.wf(),
            r.spec_mode() == FilterMode::Uninitialized,
            r.spec_status() == OriStatus::Idle,
            r.spec_ang() == [0i64, 0i64, 0i64],
            r.spec_pval() == pval as int,
            r.spec_q() == q,
            r.spec_r_accel() == r_accel,
            r.spec_r_mag() == r_mag,
    {
        OrientationEkf {
            mode: FilterMode::Uninitialized,
            last_status: OriStatus::Idle,
            ang: [0, 0, 0],
            p: [0, 0, 0, 0, 0, 0, 0, 0, 0],
            pval,
            q,
            r_accel,
            r_mag,
        }
    }

    /// The Euler angles (roll, pitch, yaw), Q31.32 radians.
    pub fn euler(&self) -> (r: Vec3)
        ensures
            r == self.spec_ang(),
    {
        self.ang
    }

    /// The covariance matrix, row-major.
    pub fn covariance(&self) -> (r: Mat3)
        ensures
            r == self.spec_p(),
    {
        self.p
    }

    /// The lifecycle state.
    pub fn mode(&self) -> (r: FilterMode)
        ensures
            r == self.spec_mode(),
    {
        self.mode
    }

    /// How the last update ended.
    pub fn last_status(&self) -> (r: OriStatus)
        ensures
            r == self.spec_status(),
    {
        self.last_status
    }

    /// The predict step: integrate the gyro rate (rad/s, Q31.32) over `dt`
    /// (s, Q31.32) into the angles and propagate the covariance through the
    /// identity Jacobian with process noise `q * dt`.  A zero `dt` changes
    /// nothing.  Before the first seed this is a no-op; on a fixed-point
    /// fault the filter returns to `Uninitialized` and reports `false`.
    pub fn predict(&mut self, gyro: &Vec3, dt: i64) -> (ok: bool)
        requires
            old(self).wf(),
            dt >= 0,
        ensures
            final(self).wf(),
            final(self).same_config(*old(self)),
            final(self).spec_status() == old(self).spec_status(),
            old(self).spec_mode() == FilterMode::Uninitialized ==> ok && *final(self) == *old(self),
            old(self).spec_mode() == FilterMode::Tracking && ok ==> {
                &&& final(self).spec_mode() == FilterMode::Tracking
                &&& final(self).spec_ang()[0] as int == wrap_spec(
                    old(self).spec_ang()[0] + fxm(gyro[0] as int, dt as int),
                )
                &&& final(self).spec_ang()[1] as int == wrap_spec(
                    old(self).spec_ang()[1] + fxm(gyro[1] as int, dt as int),
                )
                &&& final(self).spec_ang()[2] as int == wrap_spec(
                    old(self).spec_ang()[2] + fxm(gyro[2] as int, dt as int),
                )
                &&& forall|i: int, j: int|
                    0 <= i < 3 && 0 <= j < 3 ==> final(self).spec_p()[3 * i + j]
                        as int == #[trigger] predict_at(
                        ident3_spec(),
                        old(self).spec_p(),
                        old(self).spec_q(),
                        dt as int,
                        i,
                        j,
                    )
            },
            old(self).spec_mode() == FilterMode::Tracking ==> (ok <==> in_i64(
                fxm(gyro[0] as int, dt as int),
            ) && in_i64(fxm(gyro[1] as int, dt as int)) && in_i64(fxm(gyro[2] as int, dt as int))
                && in_i64(old(self).spec_ang()[0] + fxm(gyro[0] as int, dt as int)) && in_i64(
                old(self).spec_ang()[1] + fxm(gyro[1] as int, dt as int),
            ) && in_i64(old(self).spec_ang()[2] + fxm(gyro[2] as int, dt as int)) && predict_fits(
                ident3_spec(),
                old(self).spec_p(),
                old(self).spec_q(),
                dt as int,
            )),
            !ok ==> final(self).spec_mode() == FilterMode::Uninitialized && final(self).spec_ang()
                == old(self).spec_ang() && final(self).spec_p() == old(self).spec_p(),
            dt == 0 ==> ok && final(self).spec_ang() == old(self).spec_ang() && final(self).spec_p()
                == old(self).spec_p(),
    {
        if let FilterMode::Uninitialized = self.mode {
            return true;
        }
        proof {
            if dt == 0 {
                lemma_fxm_zero(gyro[0] as int);
                lemma_fxm_zero(gyro[1] as int);
                lemma_fxm_zero(gyro[2] as int);
                lemma_wrap_identity(self.ang[0] as int);
                lemma_wrap_identity(self.ang[1] as int);
                lemma_wrap_identity(self.ang[2] as int);
                lemma_predict_ident_zero_dt(self.p, self.q);
            }
        }
        let d0 = match fx_mul(gyro[0], dt) {
            Some(v) => v,
            None => {
                self.mode = FilterMode::Uninitialized;
                return false;
            },
        };
        let d1 = match fx_mul(gyro[1], dt) {
            Some(v) => v,
            None => {
                self.mode = FilterMode::Uninitialized;
                return false;
            },
        };
        let d2 = match fx_mul(gyro[2], dt) {
            Some(v) => v,
            None => {
                self.mode = FilterMode::Uninitialized;
                return false;
            },
        };
        let s0 = match self.ang[0].checked_add(d0) {
            Some(v) => v,
            None => {
                self.mode = FilterMode::Uninitialized;
                return false;
            },
        };
        let s1 = match self.ang[1].checked_add(d1) {
            Some(v) => v,
            None => {
                self.mode = FilterMode::Uninitialized;
                return false;
            },
        };
        let s2 = match self.ang[2].checked_add(d2) {
            Some(v) => v,
            None => {
                self.mode = FilterMode::Uninitialized;
                return false;
            },
        };
        let ident: Mat3 = [FX_ONE, 0, 0, 0, FX_ONE, 0, 0, 0, FX_ONE];
        let pn = match predict_cov3(&ident, &self.p, &self.q, dt) {
            Some(v) => v,
            None => {
                self.mode = FilterMode::Uninitialized;
                return false;
            },
        };
        proof {
            lemma_ident_products(self.p);
            lemma_fxm_nonneg(self.q[0] as int, dt as int);
            lemma_fxm_nonneg(self.q[1] as int, dt as int);
            lemma_fxm_nonneg(self.q[2] as int, dt as int);
            lemma_tdiv_two(self.p[0] as int + fxm(self.q[0] as int, dt as int));
            lemma_tdiv_two(self.p[4] as int + fxm(self.q[1] as int, dt as int));
            lemma_tdiv_two(self.p[8] as int + fxm(self.q[2] as int, dt as int));
        }
        self.ang = [wrap_angle(s0), wrap_angle(s1), wrap_angle(s2)];
        self.p = pn;
        true
    }
    /// Fixed-point product of two trig values (both within `[-1, 1]`);
    /// total, result within `[-1, 1]`.
    fn tmul(a: i64, b: i64) -> (r: i64)
        requires
            -FX_ONE <= a <= FX_ONE,
            -FX_ONE <= b <= FX_ONE,
        ensures
            r as int == fxm(a as int, b as int),
            -FX_ONE <= r <= FX_ONE,
    {
        proof {
            crate::fx::lemma_mul_abs_le(a as int, b as int, FX_ONE as int, FX_ONE as int);
            crate::fx::lemma_tdiv_range(
                a as int * b as int,
                FX_ONE as int,
                -(FX_ONE as int),
                FX_ONE as int,
            );
        }
        match fx_mul(a, b) {
            Some(v) => v,
            None => 0,
        }
    }

    /// One sequential scalar accelerometer correction on component `c`.
    /// Leaves the state untouched unless the update applied; the caller
    /// handles a range fault by re-seeding.
    #[verifier::rlimit(100)]
    #[verifier::spinoff_prover]
    fn accel_axis(&mut self, n: &Vec3, acc: Ghost<Vec3>, c: usize) -> (st: KalmanStatus)
        requires
            old(self).wf(),
            old(self).spec_mode() == FilterMode::Tracking,
            c < 3,
            n[0] as int == accel_unit(acc@, 0),
            n[1] as int == accel_unit(acc@, 1),
            n[2] as int == accel_unit(acc@, 2),
            -FX_ONE <= n[0] <= FX_ONE,
            -FX_ONE <= n[1] <= FX_ONE,
            -FX_ONE <= n[2] <= FX_ONE,
        ensures
            final(self).wf(),
            final(self).same_config(*old(self)),
            final(self).spec_mode() == old(self).spec_mode(),
            final(self).spec_status() == old(self).spec_status(),
            match accel_axis_out(
                old(self).spec_ang(),
                old(self).spec_p(),
                acc@,
                old(self).spec_r_accel(),
                c as int,
            ) {
                AxisOut::Fault => st == KalmanStatus::RangeFault && *final(self) == *old(self),
                AxisOut::Next(a, p) => st != KalmanStatus::RangeFault && final(self).spec_ang()
                    == a && final(self).spec_p() == p,
            },
    {
        let sr = sin_fx(self.ang[0]);
        let cr = cos_fx(self.ang[0]);
        let sp = sin_fx(self.ang[1]);
        let cp = cos_fx(self.ang[1]);
        let h: Vec3 = if c == 0 {
            [0, -cp, 0]
        } else if c == 1 {
            [Self::tmul(cr, cp), -Self::tmul(sr, sp), 0]
        } else {
            [-Self::tmul(sr, cp), -Self::tmul(cr, sp), 0]
        };
        let e: i64 = if c == 0 {
            -sp
        } else if c == 1 {
            Self::tmul(sr, cp)
        } else {
            Self::tmul(cr, cp)
        };
        proof {
            assert(h == grav_h(old(self).spec_ang(), c as int));
            assert(e as int == grav_e(old(self).spec_ang(), c as int));
        }
        let y: i64 = n[c] - e;
        let ghost out = accel_axis_out(
            old(self).spec_ang(),
            old(self).spec_p(),
            acc@,
            old(self).spec_r_accel(),
            c as int,
        );
        let ghost a0v = self.ang;
        let ghost p0v = self.p;
        let ghost ri = self.r_accel as int;
        let st = update_scalar3(&mut self.ang, &mut self.p, &h, y, self.r_accel, ORI_S_MIN);
        match st {
            KalmanStatus::Applied => {
                self.ang[0] = wrap_angle(self.ang[0]);
                self.ang[1] = wrap_angle(self.ang[1]);
                self.ang[2] = wrap_angle(self.ang[2]);
                proof {
                    lemma_mod_bound(su3_xnew(a0v, p0v, h, ri, y as int, 0), FX_TWO_PI as int);
                    lemma_mod_bound(su3_xnew(a0v, p0v, h, ri, y as int, 1), FX_TWO_PI as int);
                    lemma_mod_bound(su3_xnew(a0v, p0v, h, ri, y as int, 2), FX_TWO_PI as int);
                    match out {
                        AxisOut::Next(av, pv) => {
                            assert(self.ang =~= av);
                            assert(self.p =~= pv);
                        },
                        AxisOut::Fault => {
                            assert(false);
                        },
                    }
                }
                KalmanStatus::Applied
            },
            KalmanStatus::SkippedSingular => KalmanStatus::SkippedSingular,
            KalmanStatus::SkippedNotPsd => KalmanStatus::SkippedNotPsd,
            KalmanStatus::RangeFault => KalmanStatus::RangeFault,
        }
    }

    /// The accelerometer correction.  Before the first seed, the sample's
    /// gravity direction seeds the attitude (roll and pitch from the
    /// arctangents, yaw zero, covariance reset to its initial scale).
    /// Afterwards the normalized sample corrects the attitude one component
    /// at a time; a near-zero sample (free fall, glitch) is skipped with
    /// the state untouched, and a fixed-point fault re-enters
    /// `Uninitialized`.
    #[verifier::rlimit(100)]
    #[verifier::spinoff_prover]
    pub fn update_accel(&mut self, accel: &Vec3) -> (st: OriStatus)
        requires
            old(self).wf(),
        ensures
            final(self).wf(),
            final(self).same_config(*old(self)),
            final(self).spec_status() == st,
            st == OriStatus::RangeFault ==> final(self).spec_mode() == FilterMode::Uninitialized,
            old(self).spec_mode() == FilterMode::Uninitialized ==> {
                let s = accel[0] as int * accel[0] as int + accel[1] as int * accel[1] as int
                    + accel[2] as int * accel[2] as int;
                let hyp = sqrt_floor(
                    accel[1] as int * accel[1] as int + accel[2] as int * accel[2] as int,
                );
                if sqrt_floor(s) > i64::MAX as int || sqrt_floor(s) < ACCEL_MIN_NORM as int || accel[0]
                    == i64::MIN {
                    st == OriStatus::SeedRejected && final(self).same_state(*old(self))
                } else {
                    &&& st == OriStatus::Seeded
                    &&& final(self).spec_mode() == FilterMode::Tracking
                    &&& final(self).spec_ang()[0] as int == wrap_spec(
                        atan2_spec(accel[1] as int, accel[2] as int),
                    )
                    &&& final(self).spec_ang()[1] as int == wrap_spec(
                        atan2_spec(-(accel[0] as int), hyp),
                    )
                    &&& final(self).spec_ang()[2] == 0
                    &&& final(self).spec_p() == [
                        final(self).spec_pval() as i64,
                        0i64,
                        0i64,
                        0i64,
                        final(self).spec_pval() as i64,
                        0i64,
                        0i64,
                        0i64,
                        final(self).spec_pval() as i64,
                    ]
                }
            },
            old(self).spec_mode() == FilterMode::Tracking ==> {
                let s = accel[0] as int * accel[0] as int + accel[1] as int * accel[1] as int
                    + accel[2] as int * accel[2] as int;
                &&& (st == OriStatus::SkippedDegenerate <==> sqrt_floor(s) <= i64::MAX as int
                    && sqrt_floor(s) < ACCEL_MIN_NORM as int)
                &&& (st == OriStatus::SkippedDegenerate ==> final(self).same_state(*old(self)))
                &&& (sqrt_floor(s) > i64::MAX as int ==> st == OriStatus::RangeFault && final(self).spec_ang() == old(self).spec_ang() && final(self).spec_p() == old(self).spec_p())
                &&& (sqrt_floor(s) <= i64::MAX as int && sqrt_floor(s) >= ACCEL_MIN_NORM as int
                    ==> match accel_update_out(
                    old(self).spec_ang(),
                    old(self).spec_p(),
                    *accel,
                    old(self).spec_r_accel(),
                ) {
                    OriStepOut::Done(a, p) => st == OriStatus::Applied && final(self).spec_mode()
                        == FilterMode::Tracking && final(self).spec_ang() == a && final(self).spec_p() == p,
                    OriStepOut::Fault(a, p) => st == OriStatus::RangeFault && final(self).spec_mode() == FilterMode::Uninitialized && final(self).spec_ang() == a
                        && final(self).spec_p() == p,
                })
            },
    {
        let s128 = crate::sqrt::norm3_sq(accel);
        let nv64 = isqrt_u128(s128);
        let ghost s = accel[0] as int * accel[0] as int + accel[1] as int * accel[1] as int
            + accel[2] as int * accel[2] as int;
        proof {
            lemma_sqrt_floor_unique(s, nv64 as int);
        }
        if let FilterMode::Uninitialized = self.mode {
            if nv64 > i64::MAX as u64 || (nv64 as i64) < ACCEL_MIN_NORM || accel[0] == i64::MIN {
                self.last_status = OriStatus::SeedRejected;
                return OriStatus::SeedRejected;
            }
            let a1 = crate::sqrt::abs_u64(accel[1]);
            let a2 = crate::sqrt::abs_u64(accel[2]);
            proof {
                crate::fx::lemma_abs_mul(accel[1] as int, accel[1] as int);
                crate::fx::lemma_abs_mul(accel[2] as int, accel[2] as int);
                assert(accel[1] as int * accel[1] as int >= 0) by (nonlinear_arith);
                assert(accel[2] as int * accel[2] as int >= 0) by (nonlinear_arith);
                assert(a1 as int * a1 as int + a2 as int * a2 as int <= u128::MAX
                    as int) by (nonlinear_arith)
                    requires
                        0 <= a1 as int <= 0x8000_0000_0000_0000 as int,
                        0 <= a2 as int <= 0x8000_0000_0000_0000 as int,
                ;
            }
            let h128: u128 = (a1 as u128) * (a1 as u128) + (a2 as u128) * (a2 as u128);
            let hyp64 = isqrt_u128(h128);
            proof {
                assert(h128 as int == accel[1] as int * accel[1] as int + accel[2] as int * accel[2]
                    as int);
                lemma_sqrt_floor_unique(h128 as int, hyp64 as int);
                assert(accel[0] as int * accel[0] as int >= 0) by (nonlinear_arith);
                if hyp64 > nv64 {
                    assert((hyp64 as int) * (hyp64 as int) >= (nv64 as int + 1) * (nv64 as int + 1))
                        by (nonlinear_arith)
                        requires
                            hyp64 as int >= nv64 as int + 1,
                            nv64 as int >= 0,
                    ;
                }
            }
            let hyp: i64 = hyp64 as i64;
            let roll = atan2_fx(accel[1], accel[2]);
            let pitch = atan2_fx(-accel[0], hyp);
            self.ang = [wrap_angle(roll), wrap_angle(pitch), 0];
            self.p = [self.pval, 0, 0, 0, self.pval, 0, 0, 0, self.pval];
            self.mode = FilterMode::Tracking;
            self.last_status = OriStatus::Seeded;
            return OriStatus::Seeded;
        }
        if nv64 > i64::MAX as u64 {
            self.mode = FilterMode::Uninitialized;
            self.last_status = OriStatus::RangeFault;
            return OriStatus::RangeFault;
        }
        let nv: i64 = nv64 as i64;
        if nv < ACCEL_MIN_NORM {
            self.last_status = OriStatus::SkippedDegenerate;
            return OriStatus::SkippedDegenerate;
        }
        proof {
            assert(accel[0] as int * accel[0] as int >= 0) by (nonlinear_arith);
            assert(accel[1] as int * accel[1] as int >= 0) by (nonlinear_arith);
            assert(accel[2] as int * accel[2] as int >= 0) by (nonlinear_arith);
            assert forall|c: int| 0 <= c < 3 implies abs_i(accel[c] as int) <= nv as int by {
                assert(accel[c] as int * accel[c] as int <= s) by (nonlinear_arith)
                    requires
                        s == accel[0] as int * accel[0] as int + accel[1] as int * accel[1] as int
                            + accel[2] as int * accel[2] as int,
                        0 <= c < 3,
                        accel[0] as int * accel[0] as int >= 0,
                        accel[1] as int * accel[1] as int >= 0,
                        accel[2] as int * accel[2] as int >= 0,
                ;
                if abs_i(accel[c] as int) > nv as int {
                    assert(accel[c] as int * accel[c] as int >= (nv as int + 1) * (nv as int + 1))
                        by (nonlinear_arith)
                        requires
                            abs_i(accel[c] as int) >= nv as int + 1,
                            nv as int >= 0,
                            abs_i(accel[c] as int) == if accel[c] as int >= 0 {
                                accel[c] as int
                            } else {
                                -(accel[c] as int)
                            },
                    ;
                }
            }
            crate::fx::lemma_mul_abs_le(accel[0] as int, FX_ONE as int, nv as int, FX_ONE as int);
            crate::fx::lemma_tdiv_range(
                accel[0] as int * (FX_ONE as int),
                nv as int,
                -(FX_ONE as int),
                FX_ONE as int,
            );
            crate::fx::lemma_mul_abs_le(accel[1] as int, FX_ONE as int, nv as int, FX_ONE as int);
            crate::fx::lemma_tdiv_range(
                accel[1] as int * (FX_ONE as int),
                nv as int,
                -(FX_ONE as int),
                FX_ONE as int,
            );
            crate::fx::lemma_mul_abs_le(accel[2] as int, FX_ONE as int, nv as int, FX_ONE as int);
            crate::fx::lemma_tdiv_range(
                accel[2] as int * (FX_ONE as int),
                nv as int,
                -(FX_ONE as int),
                FX_ONE as int,
            );
        }
        let n0 = match fx_div(accel[0], nv) {
            Some(v) => v,
            None => 0,
        };
        let n1 = match fx_div(accel[1], nv) {
            Some(v) => v,
            None => 0,
        };
        let n2 = match fx_div(accel[2], nv) {
            Some(v) => v,
            None => 0,
        };
        let n: Vec3 = [n0, n1, n2];
        let ghost a0 = self.ang;
        let ghost p0 = self.p;
        let st0 = self.accel_axis(&n, Ghost(*accel), 0);
        if let KalmanStatus::RangeFault = st0 {
            self.mode = FilterMode::Uninitialized;
            self.last_status = OriStatus::RangeFault;
            return OriStatus::RangeFault;
        }
        let ghost m1a = self.ang;
        let ghost m1p = self.p;
        let st1 = self.accel_axis(&n, Ghost(*accel), 1);
        if let KalmanStatus::RangeFault = st1 {
            self.mode = FilterMode::Uninitialized;
            self.last_status = OriStatus::RangeFault;
            return OriStatus::RangeFault;
        }
        let ghost m2a = self.ang;
        let ghost m2p = self.p;
        let st2 = self.accel_axis(&n, Ghost(*accel), 2);
        if let KalmanStatus::RangeFault = st2 {
            self.mode = FilterMode::Uninitialized;
            self.last_status = OriStatus::RangeFault;
            return OriStatus::RangeFault;
        }
        proof {
            assert(accel_update_out(a0, p0, *accel, old(self).spec_r_accel()) matches
                OriStepOut::Done(a, p) && a == self.ang && p == self.p);
        }
        self.last_status = OriStatus::Applied;
        OriStatus::Applied
    }

    /// The exact spec-level outcome of the tilt-compensated heading.
    pub open spec fn mag_heading(a: Vec3, m: Vec3) -> crate::baro::BaroOut {
        let sr = sin_spec(a[0] as int);
        let cr = cos_spec(a[0] as int);
        let sp = sin_spec(a[1] as int);
        let cp = cos_spec(a[1] as int);
        let e1 = fxm(m[1] as int, sr);
        let e2 = fxm(m[2] as int, cr);
        if !in_i64(e1) || !in_i64(e2) || !in_i64(e1 + e2) {
            crate::baro::BaroOut::Rng
        } else {
            let e3 = fxm(e1 + e2, sp);
            let e4 = fxm(m[0] as int, cp);
            if !in_i64(e3) || !in_i64(e4) || !in_i64(e4 + e3) {
                crate::baro::BaroOut::Rng
            } else {
                let mhx = e4 + e3;
                let e5 = fxm(m[1] as int, cr);
                let e6 = fxm(m[2] as int, sr);
                if !in_i64(e5) || !in_i64(e6) || !in_i64(e5 - e6) {
                    crate::baro::BaroOut::Rng
                } else {
                    let mhy = e5 - e6;
                    if abs_i(mhx) < MAG_MIN_HORIZ as int && abs_i(mhy) < MAG_MIN_HORIZ as int {
                        crate::baro::BaroOut::Dom
                    } else if mhy == i64::MIN as int {
                        crate::baro::BaroOut::Rng
                    } else {
                        crate::baro::BaroOut::Val(atan2_spec(-mhy, mhx))
                    }
                }
            }
        }
    }

    /// The magnetometer correction: tilt-compensate the (already
    /// calibrated) field with the current attitude, measure the heading,
    /// and correct the yaw toward it.  A horizontally negligible field
    /// (poles, interference) is skipped with the state untouched; before
    /// the first seed nothing happens.
    #[verifier::rlimit(100)]
    #[verifier::spinoff_prover]
    pub fn update_mag(&mut self, mag: &Vec3) -> (st: OriStatus)
        requires
            old(self).wf(),
        ensures
            final(self).wf(),
            final(self).same_config(*old(self)),
            final(self).spec_status() == st,
            st == OriStatus::RangeFault ==> final(self).spec_mode() == FilterMode::Uninitialized,
            old(self).spec_mode() == FilterMode::Uninitialized ==> st == OriStatus::SkippedUnseeded
                && final(self).spec_ang() == old(self).spec_ang() &&
                    final(self).spec_p() == old(self).spec_p() &&
                    final(self).spec_mode() == FilterMode::Uninitialized,
            old(self).spec_mode() == FilterMode::Tracking ==> match Self::mag_heading(
                old(self).spec_ang(),
                *mag,
            ) {
                crate::baro::BaroOut::Rng => st == OriStatus::RangeFault && final(self).spec_ang()
                    == old(self).spec_ang() && final(self).spec_p() == old(self).spec_p(),
                crate::baro::BaroOut::Dom => st == OriStatus::SkippedDegenerate &&
                    final(self).spec_ang() == old(self).spec_ang() &&
                    final(self).spec_p() == old(self).spec_p()
                    && final(self).spec_mode() == FilterMode::Tracking,
                crate::baro::BaroOut::Val(ym) => match mag_update_out(
                    old(self).spec_ang(),
                    old(self).spec_p(),
                    ym,
                    old(self).spec_r_mag(),
                ) {
                    AxisOut::Next(a, p) => st == OriStatus::Applied && final(self).spec_mode()
                        == FilterMode::Tracking && final(self).spec_ang() == a && final(self).spec_p() == p,
                    AxisOut::Fault => st == OriStatus::RangeFault && final(self).spec_mode()
                        == FilterMode::Uninitialized && final(self).spec_ang() == old(self).spec_ang() && final(self).spec_p() == old(self).spec_p(),
                },
            },
    {
        if let FilterMode::Uninitialized = self.mode {
            self.last_status = OriStatus::SkippedUnseeded;
            return OriStatus::SkippedUnseeded;
        }
        let sr = sin_fx(self.ang[0]);
        let cr = cos_fx(self.ang[0]);
        let sp = sin_fx(self.ang[1]);
        let cp = cos_fx(self.ang[1]);
        let e1 = match fx_mul(mag[1], sr) {
            Some(v) => v,
            None => {
                self.mode = FilterMode::Uninitialized;
                self.last_status = OriStatus::RangeFault;
                return OriStatus::RangeFault;
            },
        };
        let e2 = match fx_mul(mag[2], cr) {
            Some(v) => v,
            None => {
                self.mode = FilterMode::Uninitialized;
                self.last_status = OriStatus::RangeFault;
                return OriStatus::RangeFault;
            },
        };
        let inner = match e1.checked_add(e2) {
            Some(v) => v,
            None => {
                self.mode = FilterMode::Uninitialized;
                self.last_status = OriStatus::RangeFault;
                return OriStatus::RangeFault;
            },
        };
        let e3 = match fx_mul(inner, sp) {
            Some(v) => v,
            None => {
                self.mode = FilterMode::Uninitialized;
                self.last_status = OriStatus::RangeFault;
                return OriStatus::RangeFault;
            },
        };
        let e4 = match fx_mul(mag[0], cp) {
            Some(v) => v,
            None => {
                self.mode = FilterMode::Uninitialized;
                self.last_status = OriStatus::RangeFault;
                return OriStatus::RangeFault;
            },
        };
        let mhx = match e4.checked_add(e3) {
            Some(v) => v,
            None => {
                self.mode = FilterMode::Uninitialized;
                self.last_status = OriStatus::RangeFault;
                return OriStatus::RangeFault;
            },
        };
        let e5 = match fx_mul(mag[1], cr) {
            Some(v) => v,
            None => {
                self.mode = FilterMode::Uninitialized;
                self.last_status = OriStatus::RangeFault;
                return OriStatus::RangeFault;
            },
        };
        let e6 = match fx_mul(mag[2], sr) {
            Some(v) => v,
            None => {
                self.mode = FilterMode::Uninitialized;
                self.last_status = OriStatus::RangeFault;
                return OriStatus::RangeFault;
            },
        };
        let mhy = match e5.checked_sub(e6) {
            Some(v) => v,
            None => {
                self.mode = FilterMode::Uninitialized;
                self.last_status = OriStatus::RangeFault;
                return OriStatus::RangeFault;
            },
        };
        if -MAG_MIN_HORIZ < mhx && mhx < MAG_MIN_HORIZ && -MAG_MIN_HORIZ < mhy && mhy
            < MAG_MIN_HORIZ {
            self.last_status = OriStatus::SkippedDegenerate;
            return OriStatus::SkippedDegenerate;
        }
        if mhy == i64::MIN {
            self.mode = FilterMode::Uninitialized;
            self.last_status = OriStatus::RangeFault;
            return OriStatus::RangeFault;
        }
        let yaw_m = atan2_fx(-mhy, mhx);
        let diff: i64 = yaw_m - self.ang[2];
        let y = wrap_angle(diff);
        let h: Vec3 = [0, 0, FX_ONE];
        let ghost out = mag_update_out(
            old(self).spec_ang(),
            old(self).spec_p(),
            yaw_m as int,
            old(self).spec_r_mag(),
        );
        let ghost a0v = self.ang;
        let ghost p0v = self.p;
        let ghost ri = self.r_mag as int;
        let st = update_scalar3(&mut self.ang, &mut self.p, &h, y, self.r_mag, ORI_S_MIN);
        match st {
            KalmanStatus::Applied => {
                self.ang[0] = wrap_angle(self.ang[0]);
                self.ang[1] = wrap_angle(self.ang[1]);
                self.ang[2] = wrap_angle(self.ang[2]);
                proof {
                    lemma_mod_bound(su3_xnew(a0v, p0v, h, ri, y as int, 0), FX_TWO_PI as int);
                    lemma_mod_bound(su3_xnew(a0v, p0v, h, ri, y as int, 1), FX_TWO_PI as int);
                    lemma_mod_bound(su3_xnew(a0v, p0v, h, ri, y as int, 2), FX_TWO_PI as int);
                    match out {
                        AxisOut::Next(av, pv) => {
                            assert(self.ang =~= av);
                            assert(self.p =~= pv);
                        },
                        AxisOut::Fault => {
                            assert(false);
                        },
                    }
                }
                self.last_status = OriStatus::Applied;
                OriStatus::Applied
            },
            KalmanStatus::SkippedSingular => {
                self.last_status = OriStatus::Applied;
                OriStatus::Applied
            },
            KalmanStatus::SkippedNotPsd => {
                self.last_status = OriStatus::Applied;
                OriStatus::Applied
            },
            KalmanStatus::RangeFault => {
                self.mode = FilterMode::Uninitialized;
                self.last_status = OriStatus::RangeFault;
                OriStatus::RangeFault
            },
        }
    }
}

} // verus!
