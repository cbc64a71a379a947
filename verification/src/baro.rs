//! The barometric pressure <-> altitude model and the affine range-sensor
//! model, in Q31.32.
//!
//! Pressure over altitude follows the troposphere power law
//! `p(h) = p0 * (1 - 2.25577e-5 * h)^5.25588`; its inverse uses the
//! exponent `0.190295` and the scale `44330 m`.  The derivative used as the
//! pressure row of the measurement Jacobian is
//! `-0.120131 * (1 - 2.2577e-7 * h)^4.25588`; note that its inner
//! coefficient differs from the forward model's `2.25577e-5` by two orders
//! of magnitude.  That asymmetry is deliberately not "fixed": whether it is
//! a near-zero-altitude approximation or an error in the fitted constants
//! is an open question, and the filter only needs the sign and rough scale
//! of the slope.

use vstd::prelude::*;

verus! {

use crate::fx::FX_ONE;
use crate::fx::fx_div;
use crate::fx::fx_mul;
use crate::fx::fxd;
use crate::fx::fxm;
use crate::fx::in_i64;
use crate::fx::lemma_fxm_nonneg;
use crate::fx::lemma_fxm_unit_range;
use crate::fx::lemma_mul_abs_le;
use crate::fx::lemma_tdiv_range;
use crate::powf::log2_spec;
use crate::powf::pow_fx;
use crate::powf::pow_spec;

/// `2.25577e-5` in Q31.32: the forward pressure model's lapse coefficient.
pub const BARO_LAPSE: i64 = 96885;

/// `5.25588` in Q31.32: the forward pressure model's exponent.
pub const BARO_EXP: i64 = 22573832712;

/// `0.190295` in Q31.32: the inverse model's exponent.
pub const BARO_INV_EXP: i64 = 817310802;

/// `44330 m` in Q31.32: the inverse model's altitude scale.
pub const BARO_INV_SCALE: i64 = 190395900231680;

/// `101325 Pa` in Q31.32: standard sea-level pressure, the default
/// reference.
pub const BARO_SEA_LEVEL: i64 = 435187561267200;

/// `0.120131` in Q31.32: magnitude of the Jacobian pressure slope.
pub const BARO_DERIV_A: i64 = 515958716;

/// `2.2577e-7` in Q31.32: the Jacobian slope's inner coefficient (see the
/// module note on its asymmetry with `BARO_LAPSE`).
pub const BARO_DERIV_LAPSE: i64 = 970;

/// `4.25588` in Q31.32: the Jacobian slope's exponent.
pub const BARO_DERIV_EXP: i64 = 18278865416;

/// `0.933` in Q31.32: empirical slope of the range sensor.
pub const RANGE_SLOPE: i64 = 4007204487;

/// `-2.894` in Q31.32: empirical intercept of the range sensor.
pub const RANGE_INTERCEPT: i64 = -12429635355;

/// Why a barometric conversion was refused.
#[derive(Clone, Copy, Debug, PartialEq, Eq, Structural)]
pub enum BaroError {
    /// The power law's base was not positive: the input lies outside the
    /// troposphere fit, where a fractional power is undefined.
    Domain,
    /// An intermediate value left the `i64` fixed-point range.
    Range,
}

/// The exact outcome of a barometric conversion, as a spec value: either a
/// refusal or the produced fixed-point value.
pub enum BaroOut {
    /// Refused: outside the troposphere fit.
    Dom,
    /// Refused: an intermediate left the fixed-point range.
    Rng,
    /// The exact value produced.
    Val(int),
}

/// Whether an executable conversion result matches a spec outcome.
pub open spec fn baro_out_is(o: BaroOut, r: Result<i64, BaroError>) -> bool {
    match o {
        BaroOut::Dom => r == Err::<i64, BaroError>(BaroError::Domain),
        BaroOut::Rng => r == Err::<i64, BaroError>(BaroError::Range),
        BaroOut::Val(v) => match r {
            Ok(x) => x as int == v,
            Err(_) => false,
        },
    }
}

/// Whether the power function succeeds on this base and exponent.
pub open spec fn pow_fits(b: int, e: int) -> bool {
    in_i64(fxm(e, log2_spec(b))) && pow_spec(b, e) <= i64::MAX as int
}

/// The base of the forward power law: `1 - 2.25577e-5 * h`.
pub open spec fn baro_base(h: int) -> int {
    FX_ONE - fxm(BARO_LAPSE as int, h)
}

/// The base of the Jacobian power law: `1 - 2.2577e-7 * h`.
pub open spec fn baro_deriv_base(h: int) -> int {
    FX_ONE - fxm(BARO_DERIV_LAPSE as int, h)
}

/// The exact outcome of the forward pressure model.
pub open spec fn asl_to_baro_spec(p0: int, h: int) -> BaroOut {
    let base = baro_base(h);
    if base <= 0 {
        BaroOut::Dom
    } else if !pow_fits(base, BARO_EXP as int) {
        BaroOut::Rng
    } else if !in_i64(fxm(p0, pow_spec(base, BARO_EXP as int))) {
        BaroOut::Rng
    } else {
        BaroOut::Val(fxm(p0, pow_spec(base, BARO_EXP as int)))
    }
}

/// The forward pressure model: altitude above sea level (m, Q31.32) to
/// barometric pressure (Pa, Q31.32) under the reference pressure `p0`.
pub fn asl_to_baro(p0: i64, h: i64) -> (r: Result<i64, BaroError>)
    ensures
        baro_out_is(asl_to_baro_spec(p0 as int, h as int), r),
{
    proof {
        lemma_mul_abs_le(BARO_LAPSE as int, h as int, BARO_LAPSE as int, 0x8000_0000_0000_0000);
        lemma_tdiv_range(
            BARO_LAPSE as int * h as int,
            FX_ONE as int,
            -0x2_0000_0000_0000,
            0x2_0000_0000_0000,
        );
    }
    let lapse = match fx_mul(BARO_LAPSE, h) {
        Some(v) => v,
        None => 0,
    };
    let t: i64 = FX_ONE - lapse;
    if t <= 0 {
        return Err(BaroError::Domain);
    }
    let pw = match pow_fx(t, BARO_EXP) {
        Some(v) => v,
        None => {
            return Err(BaroError::Range);
        },
    };
    match fx_mul(p0, pw) {
        Some(v) => Ok(v),
        None => Err(BaroError::Range),
    }
}

/// The exact outcome of the inverse pressure model.
pub open spec fn baro_to_asl_spec(p0: int, p: int) -> BaroOut {
    if p <= 0 {
        BaroOut::Dom
    } else if !in_i64(fxd(p, p0)) {
        BaroOut::Rng
    } else if fxd(p, p0) <= 0 {
        BaroOut::Dom
    } else if !pow_fits(fxd(p, p0), BARO_INV_EXP as int) {
        BaroOut::Rng
    } else if !in_i64(
        fxm(FX_ONE - pow_spec(fxd(p, p0), BARO_INV_EXP as int), BARO_INV_SCALE as int),
    ) {
        BaroOut::Rng
    } else {
        BaroOut::Val(fxm(FX_ONE - pow_spec(fxd(p, p0), BARO_INV_EXP as int), BARO_INV_SCALE as int))
    }
}

/// The inverse pressure model: barometric pressure (Pa, Q31.32) to altitude
/// above sea level (m, Q31.32) under the reference pressure `p0`:
/// `(1 - (p / p0)^0.190295) * 44330`.
pub fn baro_to_asl(p0: i64, p: i64) -> (r: Result<i64, BaroError>)
    requires
        p0 > 0,
    ensures
        baro_out_is(baro_to_asl_spec(p0 as int, p as int), r),
{
    if p <= 0 {
        return Err(BaroError::Domain);
    }
    let ratio = match fx_div(p, p0) {
        Some(v) => v,
        None => {
            return Err(BaroError::Range);
        },
    };
    if ratio <= 0 {
        return Err(BaroError::Domain);
    }
    let t = match pow_fx(ratio, BARO_INV_EXP) {
        Some(v) => v,
        None => {
            return Err(BaroError::Range);
        },
    };
    let d: i64 = FX_ONE - t;
    match fx_mul(d, BARO_INV_SCALE) {
        Some(v) => Ok(v),
        None => Err(BaroError::Range),
    }
}

/// The exact outcome of the Jacobian pressure slope.
pub open spec fn baro_slope_spec(h: int) -> BaroOut {
    let base = baro_deriv_base(h);
    if base <= 0 {
        BaroOut::Dom
    } else if !pow_fits(base, BARO_DERIV_EXP as int) {
        BaroOut::Rng
    } else if !in_i64(fxm(BARO_DERIV_A as int, pow_spec(base, BARO_DERIV_EXP as int))) {
        BaroOut::Rng
    } else {
        BaroOut::Val(-fxm(BARO_DERIV_A as int, pow_spec(base, BARO_DERIV_EXP as int)))
    }
}

/// The pressure row of the measurement Jacobian:
/// `dp/dh = -0.120131 * (1 - 2.2577e-7 * h)^4.25588`.
pub fn baro_slope(h: i64) -> (r: Result<i64, BaroError>)
    ensures
        baro_out_is(baro_slope_spec(h as int), r),
        r matches Ok(v) ==> v <= 0,
{
    proof {
        lemma_mul_abs_le(
            BARO_DERIV_LAPSE as int,
            h as int,
            BARO_DERIV_LAPSE as int,
            0x8000_0000_0000_0000,
        );
        lemma_tdiv_range(
            BARO_DERIV_LAPSE as int * h as int,
            FX_ONE as int,
            -0x8000_0000_0000,
            0x8000_0000_0000,
        );
    }
    let lapse = match fx_mul(BARO_DERIV_LAPSE, h) {
        Some(v) => v,
        None => 0,
    };
    let t: i64 = FX_ONE - lapse;
    if t <= 0 {
        return Err(BaroError::Domain);
    }
    let pw = match pow_fx(t, BARO_DERIV_EXP) {
        Some(v) => v,
        None => {
            return Err(BaroError::Range);
        },
    };
    let m = match fx_mul(BARO_DERIV_A, pw) {
        Some(v) => v,
        None => {
            return Err(BaroError::Range);
        },
    };
    proof {
        lemma_fxm_nonneg(BARO_DERIV_A as int, pw as int);
    }
    Ok(-m)
}

/// Empirical calibration of a downward range sensor: reading =
/// `slope * height_above_ground + intercept`, both in Q31.32.
pub struct RangeCal {
    /// The sensor's scale, near one.
    pub slope: i64,
    /// The sensor's offset at zero height.
    pub intercept: i64,
}

impl RangeCal {
    /// The empirical calibration of the sonar this model was fitted against.
    pub fn sonar_default() -> (r: RangeCal)
        ensures
            r.slope == RANGE_SLOPE,
            r.intercept == RANGE_INTERCEPT,
    {
        RangeCal { slope: RANGE_SLOPE, intercept: RANGE_INTERCEPT }
    }

    /// The reading this sensor is expected to give at a height above ground
    /// (m, Q31.32); `None` exactly when a value does not fit.
    pub fn agl_to_range(&self, agl: i64) -> (r: Option<i64>)
        ensures
            r matches Some(v) ==> v as int == fxm(self.slope as int, agl as int)
                + self.intercept as int,
            r is Some <==> in_i64(fxm(self.slope as int, agl as int)) && in_i64(
                fxm(self.slope as int, agl as int) + self.intercept as int,
            ),
    {
        let m = match fx_mul(self.slope, agl) {
            Some(v) => v,
            None => {
                return None;
            },
        };
        m.checked_add(self.intercept)
    }
}

/// The empirically fitted sonar response to a true height above ground:
/// `0.933 * agl - 2.894`; `None` exactly when the value does not fit.
pub fn sonarfun(agl: i64) -> (r: Option<i64>)
    ensures
        r matches Some(v) ==> v as int == fxm(RANGE_SLOPE as int, agl as int) + RANGE_INTERCEPT
            as int,
        r is Some <==> in_i64(fxm(RANGE_SLOPE as int, agl as int) + RANGE_INTERCEPT as int),
{
    proof {
        lemma_fxm_unit_range(agl as int, RANGE_SLOPE as int);
    }
    let m = match fx_mul(RANGE_SLOPE, agl) {
        Some(v) => v,
        None => 0,
    };
    m.checked_add(RANGE_INTERCEPT)
}

} // verus!
