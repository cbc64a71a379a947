//! Magnetometer calibration: the affine correction applied to every raw
//! field sample upstream of the orientation filter — hard-iron offset
//! subtraction followed by the soft-iron linear transform.

use vstd::prelude::*;

verus! {

use crate::fx::in_i64;
use crate::mat::Mat3;
use crate::mat::Vec3;
use crate::mat::mat3_vec_mul;
use crate::mat::mv3_at;

/// The hard-iron-corrected sample: componentwise `sample - b`.
pub open spec fn iron_shift(sample: Vec3, b: Vec3, i: int) -> int {
    sample[i] - b[i]
}

/// Apply the affine magnetometer calibration to a raw sample: subtract the
/// hard-iron offset `b`, then multiply by the soft-iron matrix `a_1`
/// (row-major, Q31.32).  `None` exactly when a value does not fit.
pub fn calibrated_sample(sample: &Vec3, a_1: &Mat3, b: &Vec3) -> (r: Option<Vec3>)
    ensures
        r matches Some(v) ==> {
            &&& in_i64(iron_shift(*sample, *b, 0)) && in_i64(iron_shift(*sample, *b, 1)) && in_i64(
                iron_shift(*sample, *b, 2),
            )
            &&& v[0] as int == mv3_at(
                *a_1,
                [
                    iron_shift(*sample, *b, 0) as i64,
                    iron_shift(*sample, *b, 1) as i64,
                    iron_shift(*sample, *b, 2) as i64,
                ],
                0,
            )
            &&& v[1] as int == mv3_at(
                *a_1,
                [
                    iron_shift(*sample, *b, 0) as i64,
                    iron_shift(*sample, *b, 1) as i64,
                    iron_shift(*sample, *b, 2) as i64,
                ],
                1,
            )
            &&& v[2] as int == mv3_at(
                *a_1,
                [
                    iron_shift(*sample, *b, 0) as i64,
                    iron_shift(*sample, *b, 1) as i64,
                    iron_shift(*sample, *b, 2) as i64,
                ],
                2,
            )
        },
        r is None <==> {
            let sb = [
                iron_shift(*sample, *b, 0) as i64,
                iron_shift(*sample, *b, 1) as i64,
                iron_shift(*sample, *b, 2) as i64,
            ];
            !(in_i64(iron_shift(*sample, *b, 0)) && in_i64(iron_shift(*sample, *b, 1)) && in_i64(
                iron_shift(*sample, *b, 2),
            ) && in_i64(mv3_at(*a_1, sb, 0)) && in_i64(mv3_at(*a_1, sb, 1)) && in_i64(
                mv3_at(*a_1, sb, 2),
            ))
        },
{
    let s0 = match sample[0].checked_sub(b[0]) {
        Some(v) => v,
        None => {
            return None;
        },
    };
    let s1 = match sample[1].checked_sub(b[1]) {
        Some(v) => v,
        None => {
            return None;
        },
    };
    let s2 = match sample[2].checked_sub(b[2]) {
        Some(v) => v,
        None => {
            return None;
        },
    };
    let sb: Vec3 = [s0, s1, s2];
    mat3_vec_mul(a_1, &sb)
}

} // verus!
