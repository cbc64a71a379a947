//! The fixed-gain complementary fallback: the same predict/correct shape as
//! the orientation filter, with a constant blend instead of a Kalman gain,
//! for deployments where covariance bookkeeping is too costly.
//!
//! Prediction integrates the gyro rate over `dt`; correction blends roll
//! and pitch toward the accelerometer-implied tilt by a fixed factor.  Yaw
//! has no reference here and is integrated only.  Both this filter and the
//! Kalman instance produce wrapped Euler angles, so they are
//! interchangeable at the output boundary.

use vstd::prelude::*;

verus! {

use crate::fx::FX_ONE;
use crate::fx::fx_mul;
use crate::fx::fxm;
use crate::fx::in_i64;
use crate::fx::lemma_fxm_zero;
use crate::mat::Vec3;
use crate::orientation::ACCEL_MIN_NORM;
use crate::powf::lemma_sqrt_floor_unique;
use crate::powf::sqrt_floor;
use crate::sqrt::isqrt_u128;
use crate::sqrt::norm3_sq;
use crate::trig::FX_PI;
use crate::trig::FX_TWO_PI;
use crate::trig::atan2_fx;
use crate::trig::atan2_spec;
use crate::trig::wrap_angle;
use crate::trig::wrap_spec;

/// The exact spec-level outcome of one complementary update.
pub enum CompOut {
    /// An intermediate left the fixed-point range; state untouched.
    Rng,
    /// The new (roll, pitch, yaw).
    Val(int, int, int),
}

/// The gyro-predicted angle for one axis: the old angle advanced by
/// `rate * dt` and wrapped.
pub open spec fn comp_predict(a: int, g: int, dt: int) -> int {
    wrap_spec(a + fxm(g, dt))
}

/// One blended axis: the predicted angle pulled toward the measured one by
/// the fixed gain, shortest way around the circle.
pub open spec fn comp_blend(pred: int, meas: int, gain: int) -> int {
    wrap_spec(pred + fxm(wrap_spec(meas - pred), gain))
}

/// The exact outcome of one update of the complementary filter.
pub open spec fn comp_spec(ang: Vec3, gain: i64, gyro: Vec3, acc: Vec3, dt: int) -> CompOut {
    if !in_i64(fxm(gyro[0] as int, dt)) || !in_i64(fxm(gyro[1] as int, dt)) || !in_i64(
        fxm(gyro[2] as int, dt),
    ) || !in_i64(ang[0] + fxm(gyro[0] as int, dt)) || !in_i64(ang[1] + fxm(gyro[1] as int, dt))
        || !in_i64(ang[2] + fxm(gyro[2] as int, dt)) {
        CompOut::Rng
    } else {
        let p0 = comp_predict(ang[0] as int, gyro[0] as int, dt);
        let p1 = comp_predict(ang[1] as int, gyro[1] as int, dt);
        let p2 = comp_predict(ang[2] as int, gyro[2] as int, dt);
        let s = acc[0] as int * acc[0] as int + acc[1] as int * acc[1] as int + acc[2] as int
            * acc[2] as int;
        if sqrt_floor(s) > i64::MAX as int || acc[0] == i64::MIN {
            CompOut::Rng
        } else if sqrt_floor(s) < ACCEL_MIN_NORM as int {
            CompOut::Val(p0, p1, p2)
        } else {
            let hyp = sqrt_floor(acc[1] as int * acc[1] as int + acc[2] as int * acc[2] as int);
            let roll_a = atan2_spec(acc[1] as int, acc[2] as int);
            let pitch_a = atan2_spec(-(acc[0] as int), hyp);
            CompOut::Val(comp_blend(p0, roll_a, gain as int), comp_blend(p1, pitch_a, gain as int), p2)
        }
    }
}

/// `0.05` in Q31.32: the stock blend factor.
pub const COMP_DEFAULT_GAIN: i64 = 214748365;

/// The fixed-gain complementary orientation integrator.
pub struct ComplementaryFilter {
    ang: Vec3,
    gain: i64,
}

impl ComplementaryFilter {
    /// Wrapped angles and a blend factor within `[0, 1]`.
    pub closed spec fn wf(self) -> bool {
        &&& FX_PI - FX_TWO_PI < self.ang[0] as int <= FX_PI as int
        &&& FX_PI - FX_TWO_PI < self.ang[1] as int <= FX_PI as int
        &&& FX_PI - FX_TWO_PI < self.ang[2] as int <= FX_PI as int
        &&& 0 <= self.gain <= FX_ONE
    }

    pub closed spec fn spec_ang(self) -> Vec3 {
        self.ang
    }

    pub closed spec fn spec_gain(self) -> i64 {
        self.gain
    }

    /// A level filter with the stock blend factor `0.05`.
    pub fn new() -> (r: ComplementaryFilter)
        ensures
            r.wf(),
            r.spec_ang() == [0i64, 0i64, 0i64],
            r.spec_gain() == COMP_DEFAULT_GAIN,
    {
        ComplementaryFilter { ang: [0, 0, 0], gain: COMP_DEFAULT_GAIN }
    }

    /// A level filter with an explicit blend factor in `[0, 1]`.
    pub fn with_gain(gain: i64) -> (r: ComplementaryFilter)
        requires
            0 <= gain <= FX_ONE,
        ensures
            r.wf(),
            r.spec_ang() == [0i64, 0i64, 0i64],
            r.spec_gain() == gain,
    {
        ComplementaryFilter { ang: [0, 0, 0], gain }
    }

    /// The Euler angles (roll, pitch, yaw), Q31.32 radians.
    pub fn euler(&self) -> (r: Vec3)
        ensures
            r == self.spec_ang(),
    {
        self.ang
    }

    /// One cycle: integrate the gyro rate over `dt`, then blend roll and
    /// pitch toward the accelerometer tilt; a near-zero accelerometer
    /// sample skips the blend (gyro-only that cycle); `None` on a
    /// fixed-point range fault, with the state untouched.
    pub fn update(&mut self, gyro: &Vec3, accel: &Vec3, dt: i64) -> (r: Option<Vec3>)
        requires
            old(self).wf(),
            dt >= 0,
        ensures
            final(self).wf(),
            final(self).spec_gain() == old(self).spec_gain(),
            match comp_spec(old(self).spec_ang(), old(self).spec_gain(), *gyro, *accel, dt as int) {
                CompOut::Rng => r is None && final(self).spec_ang() == old(self).spec_ang(),
                CompOut::Val(r0, r1, r2) => match r {
                    Some(v) => v == final(self).spec_ang() && final(self).spec_ang()[0] as int == r0
                        && final(self).spec_ang()[1] as int == r1 && final(self).spec_ang()[2]
                        as int == r2,
                    None => false,
                },
            },
    {
        proof {
            if dt == 0 {
                lemma_fxm_zero(gyro[0] as int);
                lemma_fxm_zero(gyro[1] as int);
                lemma_fxm_zero(gyro[2] as int);
            }
        }
        let d0 = match fx_mul(gyro[0], dt) {
            Some(v) => v,
            None => {
                return None;
            },
        };
        let d1 = match fx_mul(gyro[1], dt) {
            Some(v) => v,
            None => {
                return None;
            },
        };
        let d2 = match fx_mul(gyro[2], dt) {
            Some(v) => v,
            None => {
                return None;
            },
        };
        let s0 = match self.ang[0].checked_add(d0) {
            Some(v) => v,
            None => {
                return None;
            },
        };
        let s1 = match self.ang[1].checked_add(d1) {
            Some(v) => v,
            None => {
                return None;
            },
        };
        let s2 = match self.ang[2].checked_add(d2) {
            Some(v) => v,
            None => {
                return None;
            },
        };
        let p0 = wrap_angle(s0);
        let p1 = wrap_angle(s1);
        let p2 = wrap_angle(s2);
        let s128 = norm3_sq(accel);
        let nv64 = isqrt_u128(s128);
        proof {
            lemma_sqrt_floor_unique(s128 as int, nv64 as int);
        }
        if nv64 > i64::MAX as u64 || accel[0] == i64::MIN {
            return None;
        }
        if (nv64 as i64) < ACCEL_MIN_NORM {
            self.ang = [p0, p1, p2];
            return Some(self.ang);
        }
        let a1m = crate::sqrt::abs_u64(accel[1]);
        let a2m = crate::sqrt::abs_u64(accel[2]);
        proof {
            crate::fx::lemma_abs_mul(accel[1] as int, accel[1] as int);
            crate::fx::lemma_abs_mul(accel[2] as int, accel[2] as int);
            assert(accel[1] as int * accel[1] as int >= 0) by (nonlinear_arith);
            assert(accel[2] as int * accel[2] as int >= 0) by (nonlinear_arith);
            assert(a1m as int * a1m as int + a2m as int * a2m as int <= u128::MAX
                as int) by (nonlinear_arith)
                requires
                    0 <= a1m as int <= 0x8000_0000_0000_0000 as int,
                    0 <= a2m as int <= 0x8000_0000_0000_0000 as int,
            ;
            assert(accel[0] as int * accel[0] as int >= 0) by (nonlinear_arith);
        }
        let h128: u128 = (a1m as u128) * (a1m as u128) + (a2m as u128) * (a2m as u128);
        let hyp64 = isqrt_u128(h128);
        proof {
            lemma_sqrt_floor_unique(h128 as int, hyp64 as int);
            if hyp64 > nv64 {
                assert((hyp64 as int) * (hyp64 as int) >= (nv64 as int + 1) * (nv64 as int + 1))
                    by (nonlinear_arith)
                    requires
                        hyp64 as int >= nv64 as int + 1,
                        nv64 as int >= 0,
                ;
            }
        }
        let hyp: i64 = hyp64 as i64;
        let roll_a = atan2_fx(accel[1], accel[2]);
        let pitch_a = atan2_fx(-accel[0], hyp);
        let e0 = wrap_angle(roll_a - p0);
        let e1 = wrap_angle(pitch_a - p1);
        proof {
            crate::fx::lemma_mul_abs_le(e0 as int, self.gain as int, FX_TWO_PI as int, FX_ONE as int);
            crate::fx::lemma_tdiv_range(
                e0 as int * self.gain as int,
                FX_ONE as int,
                -(FX_TWO_PI as int),
                FX_TWO_PI as int,
            );
            crate::fx::lemma_mul_abs_le(e1 as int, self.gain as int, FX_TWO_PI as int, FX_ONE as int);
            crate::fx::lemma_tdiv_range(
                e1 as int * self.gain as int,
                FX_ONE as int,
                -(FX_TWO_PI as int),
                FX_TWO_PI as int,
            );
        }
        let c0 = match fx_mul(e0, self.gain) {
            Some(v) => v,
            None => 0,
        };
        let c1 = match fx_mul(e1, self.gain) {
            Some(v) => v,
            None => 0,
        };
        let n0 = wrap_angle(p0 + c0);
        let n1 = wrap_angle(p1 + c1);
        self.ang = [n0, n1, p2];
        Some(self.ang)
    }
}

} // verus!
