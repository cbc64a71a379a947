//! A fixed-point multi-sensor state-estimation core.
//!
//! The crate turns calibrated, unit-converted sensor samples (angular rate,
//! specific force, magnetic field, barometric pressure, range distance) into
//! orientation and altitude estimates.  All arithmetic is deterministic
//! Q31.32 fixed-point on `i64`, so every step is exactly specified and
//! verified: no heap allocation, no recursion without a bound, no panic.
//!
//! Layering, leaves first:
//! - [`fx`]: scalar fixed-point kernel (multiply, divide, clamping, lerp);
//! - [`sqrt`], [`trig`], [`powf`]: square root, sine/cosine/arctangent and
//!   the binary-logarithm/exponential pair used by the barometric model;
//! - [`mat`]: fixed-dimension vector/matrix operations (3-vectors, 3x3 and
//!   2x2 matrices, transpose, outer product, the guarded 2x2 determinant);
//! - [`kalman`]: the predict/correct engine shared by both filters;
//! - [`baro`]: the barometric pressure <-> altitude model and the affine
//!   range-sensor model;
//! - [`orientation`], [`altitude`]: the two filter instances;
//! - [`complementary`]: the fixed-gain fallback orientation integrator;
//! - [`magcal`]: magnetometer hard-iron/soft-iron sample correction;
//! - [`bmp280`], [`bmp288`], [`rangefinder`]: plain data types for the
//!   sensor front ends (register images, device errors) whose bus traffic
//!   lives outside this crate;
//! - [`handlers`]: diagnostic text for unhandled interrupts.

pub mod fx;
pub mod sqrt;
pub mod trig;
pub mod powf;
pub mod mat;
pub mod kalman;
pub mod baro;
pub mod altitude;
pub mod orientation;
pub mod complementary;
pub mod magcal;
pub mod bmp280;
pub mod bmp288;
pub mod rangefinder;
pub mod handlers;
