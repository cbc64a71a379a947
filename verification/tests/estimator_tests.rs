//! End-to-end tests of the estimation core: exact fixed-point arithmetic,
//! accuracy of the transcendental kernels against double precision, the
//! documented filter scenarios, and the register codecs.

use estimator::altitude::{ASL_EKF, AltStatus};
use estimator::baro::{BARO_SEA_LEVEL, BaroError, RangeCal, asl_to_baro, baro_slope, baro_to_asl, sonarfun};
use estimator::bmp280::{Config, Control, Filter, Oversampling, PowerMode, Standby, Status};
use estimator::bmp288;
use estimator::complementary::ComplementaryFilter;
use estimator::fx::{FX_ONE, dt_from_ticks, fx_avg, fx_clamp, fx_div, fx_from_int, fx_from_milli, fx_mul, fx_trunc, lerp};
use estimator::handlers::default_handler;
use estimator::kalman::{FilterMode, KalmanStatus, predict_cov3, update_scalar3};
use estimator::magcal::calibrated_sample;
use estimator::orientation::{OriStatus, OrientationEkf};
use estimator::powf::{exp2_fx, log2_fx, pow_fx};
use estimator::rangefinder::{Error, RANGEFINDER_ID, check_device_id};
use estimator::sqrt::{isqrt_u128, norm3_fx, sqrt_fx};
use estimator::trig::{FX_PI, atan2_fx, cos_fx, sin_fx, wrap_angle};

fn q(v: f64) -> i64 {
    (v * 4294967296.0).round() as i64
}

fn fv(v: i64) -> f64 {
    v as f64 / 4294967296.0
}

#[test]
fn fx_mul_exact_values() {
    assert_eq!(fx_mul(q(2.5), q(4.0)), Some(q(10.0)));
    assert_eq!(fx_mul(q(-1.5), q(3.0)), Some(q(-4.5)));
    assert_eq!(fx_mul(q(0.0), i64::MAX), Some(0));
    assert_eq!(fx_mul(i64::MAX, i64::MAX), None);
}

#[test]
fn fx_div_exact_values() {
    assert_eq!(fx_div(q(10.0), q(4.0)), Some(q(2.5)));
    assert_eq!(fx_div(q(-10.0), q(4.0)), Some(q(-2.5)));
    assert_eq!(fx_div(1, i64::MAX), Some(0));
    assert_eq!(fx_div(i64::MAX, 1), None);
}

#[test]
fn fx_avg_truncates_toward_zero() {
    assert_eq!(fx_avg(3, 4), 3);
    assert_eq!(fx_avg(-3, -4), -3);
    assert_eq!(fx_avg(i64::MAX, i64::MAX), i64::MAX);
}

#[test]
fn fx_clamp_bounds() {
    assert_eq!(fx_clamp(10, -5, 5), 5);
    assert_eq!(fx_clamp(-10, -5, 5), -5);
    assert_eq!(fx_clamp(3, -5, 5), 3);
}

#[test]
fn lerp_midpoint() {
    assert_eq!(lerp(q(0.5), q(2.0), q(4.0)), Some(q(3.0)));
    assert_eq!(lerp(0, q(2.0), q(4.0)), Some(q(2.0)));
    assert_eq!(lerp(FX_ONE, q(2.0), q(4.0)), Some(q(4.0)));
}

#[test]
fn fx_conversions() {
    assert_eq!(fx_from_int(5), Some(5 * FX_ONE));
    assert_eq!(fx_from_int(i64::MAX), None);
    assert_eq!(fx_from_milli(1500), Some(q(1.5)));
    assert_eq!(fx_trunc(q(-2.7)), -2);
    assert_eq!(fx_trunc(q(2.7)), 2);
}

#[test]
fn isqrt_edges() {
    assert_eq!(isqrt_u128(0), 0);
    assert_eq!(isqrt_u128(15), 3);
    assert_eq!(isqrt_u128(16), 4);
    assert_eq!(isqrt_u128(u128::MAX), u64::MAX);
}

#[test]
fn sqrt_fx_values() {
    assert_eq!(sqrt_fx(0), 0);
    assert!((fv(sqrt_fx(q(4.0))) - 2.0).abs() < 1e-9);
    assert!((fv(sqrt_fx(q(2.0))) - 2.0f64.sqrt()).abs() < 1e-9);
}

#[test]
fn norm3_pythagorean() {
    let n = norm3_fx(&[q(3.0), q(4.0), 0]).unwrap();
    assert!((fv(n) - 5.0).abs() < 1e-9);
    assert_eq!(norm3_fx(&[0, 0, 0]), Some(0));
}

#[test]
fn sine_cosine_accuracy() {
    let mut d = -720i32;
    while d <= 720 {
        let rad = (d as f64).to_radians();
        let s = fv(sin_fx(q(rad)));
        let c = fv(cos_fx(q(rad)));
        assert!((s - rad.sin()).abs() < 3e-4, "sin at {} deg: {} vs {}", d, s, rad.sin());
        assert!((c - rad.cos()).abs() < 3e-4, "cos at {} deg: {} vs {}", d, c, rad.cos());
        d += 37;
    }
}

#[test]
fn atan2_accuracy() {
    let cases = [(1.0, 1.0), (1.0, -1.0), (-0.3, 0.7), (5.0, 0.001), (-2.0, -3.0), (0.0, 1.0), (1.0, 0.0)];
    for (y, x) in cases {
        let got = fv(atan2_fx(q(y), q(x)));
        let want = y.atan2(x);
        assert!((got - want).abs() < 1e-4, "atan2({}, {}): {} vs {}", y, x, got, want);
    }
    assert_eq!(atan2_fx(0, 0), 0);
}

#[test]
fn wrap_angle_range() {
    let w = wrap_angle(q(3.0 * std::f64::consts::PI));
    // three half-turns land on the turn's boundary; either sign of pi is the
    // same angle
    assert!((fv(w).abs() - std::f64::consts::PI).abs() < 1e-6);
    assert_eq!(wrap_angle(q(-0.5)), q(-0.5));
    assert_eq!(wrap_angle(FX_PI), FX_PI);
    assert_eq!(wrap_angle(0), 0);
    assert!(wrap_angle(q(100.0)) <= FX_PI);
}

#[test]
fn log2_exp2_pow_accuracy() {
    assert!((fv(log2_fx(q(8.0))) - 3.0).abs() < 1e-6);
    assert!((fv(log2_fx(q(0.5))) + 1.0).abs() < 1e-6);
    assert!((fv(exp2_fx(q(3.0)).unwrap()) - 8.0).abs() < 1e-6);
    assert!((fv(exp2_fx(q(-2.5)).unwrap()) - 2.0f64.powf(-2.5)).abs() < 1e-6);
    assert_eq!(exp2_fx(q(40.0)), None);
    let p = fv(pow_fx(q(0.9922), q(5.25588)).unwrap());
    assert!((p - 0.9922f64.powf(5.25588)).abs() < 1e-6);
    let r = fv(pow_fx(q(2.0), q(0.5)).unwrap());
    assert!((r - 2.0f64.sqrt()).abs() < 1e-6);
}

#[test]
fn pressure_model_at_reference() {
    // at altitude zero the power law returns the reference exactly
    assert_eq!(asl_to_baro(BARO_SEA_LEVEL, 0), Ok(BARO_SEA_LEVEL));
}

#[test]
fn pressure_model_accuracy() {
    let p = asl_to_baro(BARO_SEA_LEVEL, q(1000.0)).unwrap();
    let want = 101325.0 * (1.0f64 - 2.25577e-5 * 1000.0).powf(5.25588);
    assert!((fv(p) - want).abs() / want < 1e-5, "{} vs {}", fv(p), want);
}

#[test]
fn pressure_model_domain_guard() {
    assert_eq!(asl_to_baro(BARO_SEA_LEVEL, q(50000.0)), Err(BaroError::Domain));
    assert_eq!(baro_to_asl(BARO_SEA_LEVEL, q(-1.0)), Err(BaroError::Domain));
    assert_eq!(baro_to_asl(BARO_SEA_LEVEL, 0), Err(BaroError::Domain));
}

#[test]
fn pressure_model_round_trip() {
    let p = asl_to_baro(BARO_SEA_LEVEL, q(500.0)).unwrap();
    let h = baro_to_asl(BARO_SEA_LEVEL, p).unwrap();
    assert!((fv(h) - 500.0).abs() < 0.1, "round trip gave {}", fv(h));
}

#[test]
fn pressure_slope_value() {
    let d = baro_slope(0).unwrap();
    assert!((fv(d) + 0.120131).abs() < 1e-6);
    assert!(d <= 0);
}

#[test]
fn sonar_response_values() {
    let s = sonarfun(q(50.0)).unwrap();
    assert!((fv(s) - (0.933 * 50.0 - 2.894)).abs() < 1e-6);
}

#[test]
fn altitude_seeds_from_first_sample() {
    let mut ekf = ASL_EKF::new();
    assert_eq!(ekf.mode(), FilterMode::Uninitialized);
    let x = ekf.step([q(97420.0 - 100.0), q(0.933 * 100.0 - 2.894)]);
    assert_eq!(ekf.last_status(), AltStatus::Seeded);
    assert_eq!(ekf.mode(), FilterMode::Tracking);
    assert_eq!(x, ekf.altitude());
}

#[test]
fn altitude_seed_rejects_bad_pressure() {
    let mut ekf = ASL_EKF::new();
    ekf.step([q(-5.0), 0]);
    assert_eq!(ekf.last_status(), AltStatus::SeedRejected);
    assert_eq!(ekf.mode(), FilterMode::Uninitialized);
}

#[test]
fn altitude_concrete_scenario() {
    // baseline pressure 97420 Pa; height = 100 + 50 sin(i * pi / 180),
    // pressure = base - height, range consistent with the sonar calibration;
    // the estimate closes on the true height with shrinking residual
    let mut ekf = ASL_EKF::with_config(
        q(0.1),
        q(0.01),
        q(400.0),
        q(0.1),
        q(97420.0),
        RangeCal::sonar_default(),
        0,
    );
    let mut residuals = Vec::new();
    for i in 0..100 {
        let height = 100.0 + 50.0 * ((i as f64) * std::f64::consts::PI / 180.0).sin();
        let pressure = 97420.0 - height;
        let sonar = 0.933 * height - 2.894;
        let x = ekf.step([q(pressure), q(sonar)]);
        residuals.push((height - fv(x)).abs());
    }
    assert!(residuals[1] < 50.0, "early residual {}", residuals[1]);
    assert!(residuals[5] < residuals[1]);
    assert!(residuals[10] < residuals[5]);
    assert!(residuals[10] < 5.0, "residual at ten {}", residuals[10]);
    assert!(residuals[99] < 0.5, "final residual {}", residuals[99]);
    assert!(ekf.covariance() >= 0);
}

#[test]
fn altitude_tracks_sinusoid() {
    // pressure swings as a sine around the baseline; with a consistent
    // range reading the estimate follows the implied altitude closely
    let mut ekf = ASL_EKF::new();
    let mut sq_err = Vec::new();
    for i in 0..5000 {
        let sine = ((i as f64) / 5000.0 * 2.0 * std::f64::consts::PI).sin();
        let pressure = 97420.0 + 20.0 * sine;
        let truth = (1.0 - (pressure / 97420.0).powf(0.190295)) * 44330.0;
        let sonar = 0.933 * truth - 2.894;
        let x = ekf.step([q(pressure), q(sonar)]);
        sq_err.push((truth - fv(x)) * (truth - fv(x)));
    }
    let rms = (sq_err[4500..].iter().sum::<f64>() / 500.0).sqrt();
    assert!(rms < 0.2, "rms of the last tenth was {}", rms);
}

#[test]
fn altitude_zero_dt_predict_changes_nothing() {
    let mut ekf = ASL_EKF::new();
    ekf.step([q(97420.0), q(-2.894)]);
    let x = ekf.altitude();
    let p = ekf.covariance();
    assert!(ekf.predict(0));
    assert_eq!(ekf.altitude(), x);
    assert_eq!(ekf.covariance(), p);
}

#[test]
fn altitude_singular_update_skipped() {
    // zero covariance, zero noise: the innovation covariance vanishes and
    // the correction must be refused, predict-only
    let mut ekf = ASL_EKF::with_config(0, 0, 0, 0, q(97420.0), RangeCal::sonar_default(), 0);
    ekf.step([q(97420.0 - 100.0), 0]);
    assert_eq!(ekf.last_status(), AltStatus::Seeded);
    let x = ekf.step([q(97420.0 - 100.0), 0]);
    assert_eq!(ekf.last_status(), AltStatus::SkippedSingular);
    assert_eq!(x, ekf.altitude());
}

#[test]
fn orientation_converges_on_stationary_truth() {
    // seed deliberately wrong (a strongly tilted first sample), then feed a
    // stationary, level device; the estimate must close on gravity-aligned
    // attitude and a heading fixed by the field
    let mut ekf = OrientationEkf::new();
    let tilted = [q(4.9), q(-3.0), q(7.8)];
    assert_eq!(ekf.update_accel(&tilted), OriStatus::Seeded);
    let level = [0, 0, q(9.80665)];
    let mag = [q(0.3), 0, q(-0.4)];
    let dt = q(0.02);
    for _ in 0..400 {
        assert!(ekf.predict(&[0, 0, 0], dt));
        let st = ekf.update_accel(&level);
        assert!(st == OriStatus::Applied, "accel update: {:?}", st);
        let st = ekf.update_mag(&mag);
        assert!(st == OriStatus::Applied, "mag update: {:?}", st);
    }
    let e = ekf.euler();
    assert!(fv(e[0]).abs() < 0.01, "roll {}", fv(e[0]));
    assert!(fv(e[1]).abs() < 0.01, "pitch {}", fv(e[1]));
    assert!(fv(e[2]).abs() < 0.01, "yaw {}", fv(e[2]));
}

#[test]
fn orientation_covariance_stays_symmetric() {
    let mut ekf = OrientationEkf::new();
    ekf.update_accel(&[q(1.0), q(2.0), q(9.0)]);
    for i in 0..50 {
        let w = ((i * 7) % 13) as f64 * 0.01;
        ekf.predict(&[q(w), q(-w), q(0.5 * w)], q(0.02));
        ekf.update_accel(&[q(0.3), q(-0.2), q(9.7)]);
        ekf.update_mag(&[q(0.25), q(0.05), q(-0.4)]);
        let p = ekf.covariance();
        assert_eq!(p[1], p[3]);
        assert_eq!(p[2], p[6]);
        assert_eq!(p[5], p[7]);
    }
}

#[test]
fn orientation_degenerate_accel_skipped() {
    let mut ekf = OrientationEkf::new();
    ekf.update_accel(&[0, 0, q(9.8)]);
    let e = ekf.euler();
    let p = ekf.covariance();
    let st = ekf.update_accel(&[0, 0, 0]);
    assert_eq!(st, OriStatus::SkippedDegenerate);
    assert_eq!(ekf.euler(), e);
    assert_eq!(ekf.covariance(), p);
    let p2 = ekf.covariance();
    assert_eq!(p2[1], p2[3]);
    assert_eq!(p2[2], p2[6]);
    assert_eq!(p2[5], p2[7]);
}

#[test]
fn orientation_zero_dt_predict_changes_nothing() {
    let mut ekf = OrientationEkf::new();
    ekf.update_accel(&[q(2.0), q(1.0), q(9.0)]);
    let e = ekf.euler();
    let p = ekf.covariance();
    assert!(ekf.predict(&[q(0.5), q(-0.25), q(1.0)], 0));
    assert_eq!(ekf.euler(), e);
    assert_eq!(ekf.covariance(), p);
}

#[test]
fn orientation_seed_matches_tilt() {
    let mut ekf = OrientationEkf::new();
    // thirty degrees of roll: gravity appears at atan2(ay, az)
    let ay = 9.80665 * (30.0f64).to_radians().sin();
    let az = 9.80665 * (30.0f64).to_radians().cos();
    assert_eq!(ekf.update_accel(&[0, q(ay), q(az)]), OriStatus::Seeded);
    let e = ekf.euler();
    assert!((fv(e[0]) - (30.0f64).to_radians()).abs() < 1e-3, "roll {}", fv(e[0]));
    assert!(fv(e[1]).abs() < 1e-3);
    assert_eq!(e[2], 0);
}

#[test]
fn orientation_mag_needs_seed() {
    let mut ekf = OrientationEkf::new();
    assert_eq!(ekf.update_mag(&[q(0.3), 0, q(-0.4)]), OriStatus::SkippedUnseeded);
}

#[test]
fn complementary_converges_to_tilt() {
    let mut f = ComplementaryFilter::new();
    let ay = 9.80665 * (30.0f64).to_radians().sin();
    let az = 9.80665 * (30.0f64).to_radians().cos();
    for _ in 0..300 {
        f.update(&[0, 0, 0], &[0, q(ay), q(az)], q(0.02)).unwrap();
    }
    let e = f.euler();
    assert!((fv(e[0]) - (30.0f64).to_radians()).abs() < 0.01, "roll {}", fv(e[0]));
    assert!(fv(e[1]).abs() < 0.01);
    assert_eq!(e[2], 0);
}

#[test]
fn complementary_integrates_gyro_when_accel_degenerate() {
    let mut f = ComplementaryFilter::new();
    for _ in 0..10 {
        f.update(&[q(0.5), 0, 0], &[0, 0, 0], q(0.1)).unwrap();
    }
    let e = f.euler();
    assert!((fv(e[0]) - 0.5).abs() < 1e-6, "roll {}", fv(e[0]));
    assert_eq!(e[1], 0);
    assert_eq!(e[2], 0);
}

#[test]
fn complementary_zero_inputs_change_nothing() {
    let mut f = ComplementaryFilter::new();
    let before = f.euler();
    f.update(&[0, 0, 0], &[0, 0, 0], q(0.02)).unwrap();
    assert_eq!(f.euler(), before);
}

#[test]
fn magcal_affine_correction() {
    let ident = [FX_ONE, 0, 0, 0, FX_ONE, 0, 0, 0, FX_ONE];
    let b = [q(1.0), q(2.0), q(3.0)];
    let sample = [q(2.0), q(4.0), q(6.0)];
    assert_eq!(calibrated_sample(&sample, &ident, &b), Some([q(1.0), q(2.0), q(3.0)]));
    // a soft-iron matrix that swaps two axes
    let swap = [0, FX_ONE, 0, FX_ONE, 0, 0, 0, 0, FX_ONE];
    assert_eq!(calibrated_sample(&sample, &swap, &b), Some([q(2.0), q(1.0), q(3.0)]));
}

#[test]
fn kalman_scalar_update_exact() {
    let mut x = [0i64, 0, 0];
    let mut p = [FX_ONE, 0, 0, 0, FX_ONE, 0, 0, 0, FX_ONE];
    let h = [FX_ONE, 0, 0];
    let st = update_scalar3(&mut x, &mut p, &h, q(1.0), FX_ONE, 16);
    assert_eq!(st, KalmanStatus::Applied);
    assert_eq!(x, [q(0.5), 0, 0]);
    assert_eq!(p[0], q(0.5));
    assert_eq!(p[4], FX_ONE);
    assert_eq!(p[8], FX_ONE);
    assert_eq!(p[1], p[3]);
}

#[test]
fn kalman_singular_update_refused() {
    let mut x = [q(1.0), 0, 0];
    let mut p = [0i64; 9];
    let h = [FX_ONE, 0, 0];
    let st = update_scalar3(&mut x, &mut p, &h, q(1.0), 0, 16);
    assert_eq!(st, KalmanStatus::SkippedSingular);
    assert_eq!(x, [q(1.0), 0, 0]);
    assert_eq!(p, [0i64; 9]);
}

#[test]
fn kalman_predict_adds_process_noise() {
    let ident = [FX_ONE, 0, 0, 0, FX_ONE, 0, 0, 0, FX_ONE];
    let p = [FX_ONE, 0, 0, 0, FX_ONE, 0, 0, 0, FX_ONE];
    let qn = [q(0.1), q(0.1), q(0.1)];
    let c = predict_cov3(&ident, &p, &qn, FX_ONE).unwrap();
    assert_eq!(c[0], q(1.1));
    assert_eq!(c[4], q(1.1));
    assert_eq!(c[8], q(1.1));
    assert_eq!(c[1], 0);
}

#[test]
fn bmp280_config_codec() {
    let c = Config::from_byte(0b101_011_00);
    assert_eq!(c.t_sb, Standby::ms1000);
    assert_eq!(c.filter, Filter::c8);
    assert_eq!(c.to_byte(), 0b101_011_00);
    let c2 = Config { t_sb: Standby::ms62_5, filter: Filter::c16 };
    assert_eq!(Config::from_byte(c2.to_byte()), c2);
}

#[test]
fn bmp280_control_codec() {
    let c = Control::from_byte(0b010_100_11);
    assert_eq!(c.osrs_t, Oversampling::x2);
    assert_eq!(c.osrs_p, Oversampling::x8);
    assert_eq!(c.mode, PowerMode::Normal);
    assert_eq!(c.to_byte(), 0b010_100_11);
    assert_eq!(Oversampling::from_bits(7), Oversampling::x16);
    assert_eq!(PowerMode::from_bits(2), PowerMode::Forced);
    assert_eq!(Standby::from_bits(9), Standby::unknown);
    assert_eq!(Filter::from_bits(5), Filter::unknown);
}

#[test]
fn bmp280_status_decode() {
    // both flags test the masked field for the value one, so the measuring
    // flag (mask bit three) never reads true
    let s = Status::from_byte(0x08);
    assert!(!s.measuring);
    assert!(!s.im_update);
    let s = Status::from_byte(0x01);
    assert!(!s.measuring);
    assert!(s.im_update);
}

#[test]
fn bmp288_status_decode() {
    let s = bmp288::Status::from_byte(0x01);
    assert!(!s.measuring);
    assert!(s.im_update);
    let s = bmp288::Status::from_byte(0x00);
    assert!(!s.measuring);
    assert!(!s.im_update);
}

#[test]
fn rangefinder_identity_check() {
    assert!(check_device_id::<u8>(RANGEFINDER_ID).is_ok());
    match check_device_id::<u8>(0x42) {
        Err(Error::InvalidDevice(v)) => assert_eq!(v, 0x42),
        _ => panic!("expected an identity rejection"),
    }
}

#[test]
fn default_handler_message() {
    assert_eq!(default_handler(33).as_str(), "Unhandled exception (IRQn = 33)");
    assert_eq!(default_handler(0).as_str(), "Unhandled exception (IRQn = 0)");
    assert_eq!(default_handler(-7).as_str(), "Unhandled exception (IRQn = -7)");
    assert_eq!(default_handler(i16::MIN).as_str(), "Unhandled exception (IRQn = -32768)");
}

#[test]
fn altitude_model_functions() {
    let ekf = ASL_EKF::new();
    let (x, f_jac) = ekf.f(q(123.0));
    assert_eq!(x, q(123.0));
    assert_eq!(f_jac, FX_ONE);
    let (hv, hj) = ekf.h(q(100.0)).unwrap();
    // expected pressure near the baseline, expected range per calibration
    assert!((fv(hv[0]) - 97420.0 * (1.0 - 2.25577e-5 * 100.0f64).powf(5.25588)).abs() < 1.0);
    assert!((fv(hv[1]) - (0.933 * 100.0 - 2.894)).abs() < 1e-4);
    assert!(hj[0] < 0);
    assert!((fv(hj[1]) - 0.933).abs() < 1e-6);
}

#[test]
fn pressure_model_range_guard() {
    // far below sea level the power-law base explodes and the fixed-point
    // range runs out
    assert_eq!(asl_to_baro(BARO_SEA_LEVEL, q(-1.0e9)), Err(BaroError::Range));
}

#[test]
fn kalman_update_range_fault_leaves_state() {
    let mut x = [i64::MAX, 0, 0];
    let mut p = [FX_ONE, 0, 0, 0, FX_ONE, 0, 0, 0, FX_ONE];
    let h = [FX_ONE, 0, 0];
    let st = update_scalar3(&mut x, &mut p, &h, q(10.0), 0, 16);
    assert_eq!(st, KalmanStatus::RangeFault);
    assert_eq!(x, [i64::MAX, 0, 0]);
    assert_eq!(p, [FX_ONE, 0, 0, 0, FX_ONE, 0, 0, 0, FX_ONE]);
}

#[test]
fn kalman_update_refuses_negative_variance() {
    // strong off-diagonal correlation would drive a diagonal entry of the
    // corrected covariance negative; the update must refuse
    let mut x = [0i64, 0, 0];
    let mut p = [FX_ONE, -2 * FX_ONE, 0, -2 * FX_ONE, FX_ONE, 0, 0, 0, FX_ONE];
    let before = p;
    let h = [FX_ONE, 0, 0];
    let st = update_scalar3(&mut x, &mut p, &h, q(0.5), 0, 16);
    assert_eq!(st, KalmanStatus::SkippedNotPsd);
    assert_eq!(x, [0, 0, 0]);
    assert_eq!(p, before);
}

#[test]
fn orientation_predict_fault_reseeds() {
    let mut ekf = OrientationEkf::new();
    ekf.update_accel(&[0, 0, q(9.8)]);
    assert!(!ekf.predict(&[i64::MAX, 0, 0], i64::MAX));
    assert_eq!(ekf.mode(), FilterMode::Uninitialized);
}

#[test]
fn altitude_predict_fault_reseeds() {
    let mut ekf = ASL_EKF::with_config(
        i64::MAX,
        i64::MAX,
        0,
        0,
        q(97420.0),
        RangeCal::sonar_default(),
        0,
    );
    ekf.step([q(97420.0), 0]);
    assert_eq!(ekf.last_status(), AltStatus::Seeded);
    ekf.step([q(97420.0), 0]);
    assert_eq!(ekf.last_status(), AltStatus::RangeFault);
    assert_eq!(ekf.mode(), FilterMode::Uninitialized);
}

#[test]
fn complementary_fault_leaves_state() {
    let mut f = ComplementaryFilter::new();
    let before = f.euler();
    assert_eq!(f.update(&[i64::MAX, 0, 0], &[0, 0, q(9.8)], i64::MAX), None);
    assert_eq!(f.euler(), before);
}

#[test]
fn tick_delta_tolerates_wraparound() {
    // twenty milliseconds, truncated toward zero in fixed point
    assert_eq!(dt_from_ticks(1020, 1000), 20 * FX_ONE / 1000);
    // a reading taken just after the counter rolled over
    assert_eq!(dt_from_ticks(5, u32::MAX - 14), 20 * FX_ONE / 1000);
    assert_eq!(dt_from_ticks(7, 7), 0);
}
