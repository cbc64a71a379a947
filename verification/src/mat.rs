//! Fixed-dimension vector/matrix kernel in Q31.32: 3-vectors, row-major
//! 3x3 and 2x2 matrices, with multiplication, transpose, outer product,
//! symmetrization and the guarded 2x2 determinant.  Inversion is kept to
//! what the filters need: scalars through the guarded quotient, 2x2 through
//! the determinant; nothing larger, and nothing here allocates.

use vstd::prelude::*;

verus! {

use crate::fx::FX_ONE;
use crate::fx::fxm;
use crate::fx::fx_avg;
use crate::fx::in_i64;
use crate::fx::lemma_abs_mul;
use crate::fx::lemma_mul_sign;
use crate::fx::tdiv;
use crate::sqrt::abs_u64;
use vstd::arithmetic::div_mod::lemma_div_is_ordered;
use vstd::arithmetic::div_mod::lemma_div_pos_is_pos;

/// A 3-vector of Q31.32 values.
pub type Vec3 = [i64; 3];

/// A row-major 3x3 matrix of Q31.32 values.
pub type Mat3 = [i64; 9];

/// A 2-vector of Q31.32 values.
pub type Vec2 = [i64; 2];

/// A row-major 2x2 matrix of Q31.32 values.
pub type Mat2 = [i64; 4];

/// Row `i` of the matrix-vector product `m * v`.
pub open spec fn mv3_at(m: Mat3, v: Vec3, i: int) -> int {
    fxm(m[3 * i] as int, v[0] as int) + fxm(m[3 * i + 1] as int, v[1] as int) + fxm(
        m[3 * i + 2] as int,
        v[2] as int,
    )
}

/// The inner product of two 3-vectors.
pub open spec fn dot3_spec(a: Vec3, b: Vec3) -> int {
    fxm(a[0] as int, b[0] as int) + fxm(a[1] as int, b[1] as int) + fxm(a[2] as int, b[2] as int)
}

/// Entry `(i, j)` of the matrix product `a * b`.
pub open spec fn mm3_at(a: Mat3, b: Mat3, i: int, j: int) -> int {
    fxm(a[3 * i] as int, b[j] as int) + fxm(a[3 * i + 1] as int, b[3 + j] as int) + fxm(
        a[3 * i + 2] as int,
        b[6 + j] as int,
    )
}

/// Entry `(i, j)` of the outer product `a * b^T`.
pub open spec fn outer3_at(a: Vec3, b: Vec3, i: int, j: int) -> int {
    fxm(a[i] as int, b[j] as int)
}

/// Whether a 3x3 matrix equals its transpose.
pub open spec fn is_sym3(m: Mat3) -> bool {
    m[1] == m[3] && m[2] == m[6] && m[5] == m[7]
}

/// The identity matrix.
pub open spec fn ident3_spec() -> Mat3 {
    [FX_ONE, 0i64, 0, 0, FX_ONE, 0, 0, 0, FX_ONE]
}

/// Fixed-point product carried in 128 bits, which cannot overflow.
pub(crate) fn fxm_i128(a: i64, b: i64) -> (r: i128)
    ensures
        r as int == fxm(a as int, b as int),
        -0x8000_0000_0000_0000_0000_0000 <= r as int <= 0x8000_0000_0000_0000_0000_0000,
{
    let neg: bool = (a < 0) != (b < 0);
    let aa = abs_u64(a);
    let bb = abs_u64(b);
    proof {
        lemma_abs_mul(a as int, b as int);
        lemma_mul_sign(a as int, b as int);
        assert((aa as int) * (bb as int) <= 0x8000_0000_0000_0000 * 0x8000_0000_0000_0000)
            by (nonlinear_arith)
            requires
                0 <= aa as int <= 0x8000_0000_0000_0000,
                0 <= bb as int <= 0x8000_0000_0000_0000,
        ;
        lemma_div_pos_is_pos((aa as int) * (bb as int), FX_ONE as int);
        lemma_div_is_ordered(
            (aa as int) * (bb as int),
            0x4000_0000_0000_0000_0000_0000_0000_0000 as int,
            FX_ONE as int,
        );
    }
    let pp: u128 = (aa as u128) * (bb as u128);
    let qq: u128 = pp / 0x1_0000_0000u128;
    if neg {
        -(qq as i128)
    } else {
        qq as i128
    }
}

/// Narrowing to `i64`; `None` exactly when the value does not fit.
pub(crate) fn to_i64(v: i128) -> (r: Option<i64>)
    ensures
        r matches Some(x) ==> x as int == v as int,
        r is Some <==> in_i64(v as int),
{
    if i64::MIN as i128 <= v && v <= i64::MAX as i128 {
        Some(v as i64)
    } else {
        None
    }
}

/// Matrix-vector product; `None` exactly when an entry does not fit.
pub fn mat3_vec_mul(m: &Mat3, v: &Vec3) -> (r: Option<Vec3>)
    ensures
        r matches Some(w) ==> w[0] as int == mv3_at(*m, *v, 0) && w[1] as int == mv3_at(*m, *v, 1)
            && w[2] as int == mv3_at(*m, *v, 2),
        r is Some <==> in_i64(mv3_at(*m, *v, 0)) && in_i64(mv3_at(*m, *v, 1)) && in_i64(
            mv3_at(*m, *v, 2),
        ),
{
    let e0: i128 = fxm_i128(m[0], v[0]) + fxm_i128(m[1], v[1]) + fxm_i128(m[2], v[2]);
    let e1: i128 = fxm_i128(m[3], v[0]) + fxm_i128(m[4], v[1]) + fxm_i128(m[5], v[2]);
    let e2: i128 = fxm_i128(m[6], v[0]) + fxm_i128(m[7], v[1]) + fxm_i128(m[8], v[2]);
    match (to_i64(e0), to_i64(e1), to_i64(e2)) {
        (Some(a), Some(b), Some(c)) => Some([a, b, c]),
        _ => None,
    }
}

/// Inner product; `None` exactly when it does not fit.
pub fn dot3(a: &Vec3, b: &Vec3) -> (r: Option<i64>)
    ensures
        r matches Some(x) ==> x as int == dot3_spec(*a, *b),
        r is Some <==> in_i64(dot3_spec(*a, *b)),
{
    let s: i128 = fxm_i128(a[0], b[0]) + fxm_i128(a[1], b[1]) + fxm_i128(a[2], b[2]);
    to_i64(s)
}

/// Matrix product; `None` exactly when an entry does not fit.
pub fn mat3_mul(a: &Mat3, b: &Mat3) -> (r: Option<Mat3>)
    ensures
        r matches Some(c) ==> c[0] as int == mm3_at(*a, *b, 0, 0) && c[1] as int == mm3_at(*a, *b, 0, 1) &&
            c[2] as int == mm3_at(*a, *b, 0, 2) && c[3] as int == mm3_at(*a, *b, 1, 0) &&
            c[4] as int == mm3_at(*a, *b, 1, 1) && c[5] as int == mm3_at(*a, *b, 1, 2) &&
            c[6] as int == mm3_at(*a, *b, 2, 0) && c[7] as int == mm3_at(*a, *b, 2, 1) &&
            c[8] as int == mm3_at(*a, *b, 2, 2),
        r is Some <==> in_i64(mm3_at(*a, *b, 0, 0)) && in_i64(mm3_at(*a, *b, 0, 1)) &&
            in_i64(mm3_at(*a, *b, 0, 2)) && in_i64(mm3_at(*a, *b, 1, 0)) && in_i64(mm3_at(*a, *b, 1, 1)) &&
            in_i64(mm3_at(*a, *b, 1, 2)) && in_i64(mm3_at(*a, *b, 2, 0)) && in_i64(mm3_at(*a, *b, 2, 1)) &&
            in_i64(mm3_at(*a, *b, 2, 2)),
{
    let e0: i128 = fxm_i128(a[0], b[0]) + fxm_i128(a[1], b[3]) + fxm_i128(a[2], b[6]);
    let e1: i128 = fxm_i128(a[0], b[1]) + fxm_i128(a[1], b[4]) + fxm_i128(a[2], b[7]);
    let e2: i128 = fxm_i128(a[0], b[2]) + fxm_i128(a[1], b[5]) + fxm_i128(a[2], b[8]);
    let e3: i128 = fxm_i128(a[3], b[0]) + fxm_i128(a[4], b[3]) + fxm_i128(a[5], b[6]);
    let e4: i128 = fxm_i128(a[3], b[1]) + fxm_i128(a[4], b[4]) + fxm_i128(a[5], b[7]);
    let e5: i128 = fxm_i128(a[3], b[2]) + fxm_i128(a[4], b[5]) + fxm_i128(a[5], b[8]);
    let e6: i128 = fxm_i128(a[6], b[0]) + fxm_i128(a[7], b[3]) + fxm_i128(a[8], b[6]);
    let e7: i128 = fxm_i128(a[6], b[1]) + fxm_i128(a[7], b[4]) + fxm_i128(a[8], b[7]);
    let e8: i128 = fxm_i128(a[6], b[2]) + fxm_i128(a[7], b[5]) + fxm_i128(a[8], b[8]);
    match (to_i64(e0), to_i64(e1), to_i64(e2), to_i64(e3), to_i64(e4), to_i64(e5), to_i64(e6), to_i64(e7), to_i64(e8)) {
        (Some(v0), Some(v1), Some(v2), Some(v3), Some(v4), Some(v5), Some(v6), Some(v7), Some(v8)) => Some([v0, v1, v2, v3, v4, v5, v6, v7, v8]),
        _ => None,
    }
}

/// Transpose (total).
pub fn mat3_transpose(m: &Mat3) -> (r: Mat3)
    ensures
        r[0] == m[0] && r[1] == m[3] && r[2] == m[6],
        r[3] == m[1] && r[4] == m[4] && r[5] == m[7],
        r[6] == m[2] && r[7] == m[5] && r[8] == m[8],
{
    [m[0], m[3], m[6], m[1], m[4], m[7], m[2], m[5], m[8]]
}

/// Entrywise difference minus an outer product: `m - k * t^T`, the shape of
/// the covariance correction; `None` exactly when an entry does not fit.
pub fn mat3_sub_outer(m: &Mat3, k: &Vec3, t: &Vec3) -> (r: Option<Mat3>)
    ensures
        r matches Some(c) ==> c[0] as int == m[0] - outer3_at(*k, *t, 0, 0) &&
            c[1] as int == m[1] - outer3_at(*k, *t, 0, 1) &&
            c[2] as int == m[2] - outer3_at(*k, *t, 0, 2) &&
            c[3] as int == m[3] - outer3_at(*k, *t, 1, 0) &&
            c[4] as int == m[4] - outer3_at(*k, *t, 1, 1) &&
            c[5] as int == m[5] - outer3_at(*k, *t, 1, 2) &&
            c[6] as int == m[6] - outer3_at(*k, *t, 2, 0) &&
            c[7] as int == m[7] - outer3_at(*k, *t, 2, 1) &&
            c[8] as int == m[8] - outer3_at(*k, *t, 2, 2),
        r is Some <==> in_i64(m[0] - outer3_at(*k, *t, 0, 0)) && in_i64(m[1] - outer3_at(*k, *t, 0, 1)) &&
            in_i64(m[2] - outer3_at(*k, *t, 0, 2)) && in_i64(m[3] - outer3_at(*k, *t, 1, 0)) &&
            in_i64(m[4] - outer3_at(*k, *t, 1, 1)) && in_i64(m[5] - outer3_at(*k, *t, 1, 2)) &&
            in_i64(m[6] - outer3_at(*k, *t, 2, 0)) && in_i64(m[7] - outer3_at(*k, *t, 2, 1)) &&
            in_i64(m[8] - outer3_at(*k, *t, 2, 2)),
{
    let e0: i128 = (m[0] as i128) - fxm_i128(k[0], t[0]);
    let e1: i128 = (m[1] as i128) - fxm_i128(k[0], t[1]);
    let e2: i128 = (m[2] as i128) - fxm_i128(k[0], t[2]);
    let e3: i128 = (m[3] as i128) - fxm_i128(k[1], t[0]);
    let e4: i128 = (m[4] as i128) - fxm_i128(k[1], t[1]);
    let e5: i128 = (m[5] as i128) - fxm_i128(k[1], t[2]);
    let e6: i128 = (m[6] as i128) - fxm_i128(k[2], t[0]);
    let e7: i128 = (m[7] as i128) - fxm_i128(k[2], t[1]);
    let e8: i128 = (m[8] as i128) - fxm_i128(k[2], t[2]);
    match (to_i64(e0), to_i64(e1), to_i64(e2), to_i64(e3), to_i64(e4), to_i64(e5), to_i64(e6), to_i64(e7), to_i64(e8)) {
        (Some(v0), Some(v1), Some(v2), Some(v3), Some(v4), Some(v5), Some(v6), Some(v7), Some(v8)) => Some([v0, v1, v2, v3, v4, v5, v6, v7, v8]),
        _ => None,
    }
}

/// Symmetrization by entrywise averaging with the transpose (total).  This
/// is how the filters keep their covariance symmetric after every update.
pub fn mat3_symmetrize(m: &Mat3) -> (r: Mat3)
    ensures
        r[0] as int == tdiv(m[0] + m[0] as int, 2),
        r[1] as int == tdiv(m[1] + m[3] as int, 2),
        r[2] as int == tdiv(m[2] + m[6] as int, 2),
        r[3] as int == tdiv(m[3] + m[1] as int, 2),
        r[4] as int == tdiv(m[4] + m[4] as int, 2),
        r[5] as int == tdiv(m[5] + m[7] as int, 2),
        r[6] as int == tdiv(m[6] + m[2] as int, 2),
        r[7] as int == tdiv(m[7] + m[5] as int, 2),
        r[8] as int == tdiv(m[8] + m[8] as int, 2),
        is_sym3(r),
{
    let r: Mat3 = [
        fx_avg(m[0], m[0]),
        fx_avg(m[1], m[3]),
        fx_avg(m[2], m[6]),
        fx_avg(m[3], m[1]),
        fx_avg(m[4], m[4]),
        fx_avg(m[5], m[7]),
        fx_avg(m[6], m[2]),
        fx_avg(m[7], m[5]),
        fx_avg(m[8], m[8]),
    ];
    r
}

/// The determinant of a 2x2 matrix, in Q31.32.
pub open spec fn det2_spec(s: Mat2) -> int {
    fxm(s[0] as int, s[3] as int) - fxm(s[1] as int, s[2] as int)
}

/// Determinant of a 2x2 matrix; `None` exactly when it does not fit.
pub fn mat2_det(s: &Mat2) -> (r: Option<i64>)
    ensures
        r matches Some(d) ==> d as int == det2_spec(*s),
        r is Some <==> in_i64(det2_spec(*s)),
{
    let d: i128 = fxm_i128(s[0], s[3]) - fxm_i128(s[1], s[2]);
    to_i64(d)
}

} // verus!
