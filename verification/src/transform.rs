//! The case analysis of the similarity fit: which sign the second singular
//! direction takes in the rotation and in the scale.
//!
//! The fit factors the covariance of the landmarks and the template as
//! `U * diag(s0, s1) * V^T`. The rotation is `U * diag(1, r) * V^T` and the
//! scale `(s0 + e * s1) / variance`, with the signs `r` and `e` chosen here.

use crate::error::MlError;
use crate::error::MlResult;
use vstd::prelude::*;

verus! {

/// The signs of the second singular direction, each `1` or `-1`.
#[derive(Clone, Copy, Debug, PartialEq, Eq, Structural)]
pub struct ReflectionSigns {
    /// Sign in the rotation.
    pub rotation: i8,
    /// Sign in the scale.
    pub scale: i8,
}

/// Sign in the scale: negative exactly when the covariance mirrors, that is
/// when its determinant is negative.
pub open spec fn scale_sign(mirrors: bool) -> int {
    if mirrors {
        -1
    } else {
        1
    }
}

/// Sign in the rotation. With two singular values that count it is the sign
/// in the scale. With one, the factors decide: the sign is positive exactly
/// when the determinants of `U` and `V` have a positive product.
pub open spec fn rotation_sign(rank: nat, mirrors: bool, bases_agree: bool) -> int {
    if rank == 1 {
        if bases_agree {
            1
        } else {
            -1
        }
    } else {
        scale_sign(mirrors)
    }
}

/// Chooses the signs for a covariance of the given rank, the number of its
/// singular values that count. `mirrors` says whether its determinant is
/// negative, `bases_agree` whether the determinants of `U` and `V` have a
/// positive product. Fails with `Postprocess` exactly when no singular value
/// counts: the landmarks coincide and no transform fits them.
pub fn correct_reflection(rank: usize, mirrors: bool, bases_agree: bool) -> (signs: MlResult<
    ReflectionSigns,
>)
    ensures
        signs is Ok <==> rank > 0,
        signs matches Ok(s) ==> s.rotation == rotation_sign(rank as nat, mirrors, bases_agree)
            && s.scale == scale_sign(mirrors),
        signs matches Err(e) ==> e is Postprocess,
{
    if rank == 0 {
        return Err(
            MlError::Postprocess("failed to estimate similarity transform (rank=0)".to_string()),
        );
    }
    let scale: i8 = if mirrors { -1 } else { 1 };
    let rotation: i8 = if rank == 1 {
        if bases_agree { 1 } else { -1 }
    } else {
        scale
    };
    Ok(ReflectionSigns { rotation, scale })
}

/// The fitted rotation is proper: its determinant, the product of the
/// determinants of `U` and `V` and of the rotation's sign, is one. This holds
/// for factors `U` and `V` of determinant `1` or `-1`, where with two
/// singular values that count the covariance mirrors exactly when those
/// determinants differ. With one singular value the sign in the rotation may
/// differ from the sign in the scale, which follows the covariance alone.
pub proof fn lemma_fitted_rotation_is_proper(rank: nat, mirrors: bool, det_u: int, det_v: int)
    requires
        rank >= 1,
        det_u == 1 || det_u == -1,
        det_v == 1 || det_v == -1,
        rank >= 2 ==> (mirrors <==> det_u * det_v < 0),
    ensures
        det_u * rotation_sign(rank, mirrors, det_u * det_v > 0) * det_v == 1,
{
    if det_u == det_v {
        assert(det_u * det_v == 1) by (nonlinear_arith)
            requires
                det_u == det_v,
                det_u == 1 || det_u == -1,
        ;
        assert(det_u * 1 * det_v == 1) by (nonlinear_arith)
            requires
                det_u * det_v == 1,
        ;
    } else {
        assert(det_u * det_v == -1) by (nonlinear_arith)
            requires
                det_u == -det_v,
                det_u == 1 || det_u == -1,
        ;
        assert(det_u * (-1) * det_v == 1) by (nonlinear_arith)
            requires
                det_u * det_v == -1,
        ;
    }
}

/// Determinant of the 2 by 2 matrix with the rows `(m.0, m.1)` and
/// `(m.2, m.3)`.
pub open spec fn determinant(m: (int, int, int, int)) -> int {
    m.0 * m.3 - m.1 * m.2
}

/// The rotation `U * diag(1, sign) * V^T` as a matrix, from `U` and `V^T`.
pub open spec fn fitted_rotation(u: (int, int, int, int), sign: int, v_t: (int, int, int, int)) -> (
    int,
    int,
    int,
    int,
) {
    (
        u.0 * v_t.0 + u.1 * sign * v_t.2,
        u.0 * v_t.1 + u.1 * sign * v_t.3,
        u.2 * v_t.0 + u.3 * sign * v_t.2,
        u.2 * v_t.1 + u.3 * sign * v_t.3,
    )
}

/// The determinant of the rotation is the product of the determinants of the
/// factors and of the sign. The entries are integers here; both sides are
/// polynomials in them, and the identity is one of polynomials.
pub proof fn lemma_determinant_of_fitted_rotation(
    u: (int, int, int, int),
    sign: int,
    v_t: (int, int, int, int),
)
    ensures
        determinant(fitted_rotation(u, sign, v_t)) == determinant(u) * sign * determinant(v_t),
{
    let (a, b, c, d) = u;
    let (e, f, g, h) = v_t;
    let bs = b * sign;
    let ds = d * sign;
    assert(u.1 * sign * v_t.2 == bs * g && u.1 * sign * v_t.3 == bs * h && u.3 * sign * v_t.2
        == ds * g && u.3 * sign * v_t.3 == ds * h);
    lemma_product_of_sums(a * e, bs * g, c * f, ds * h);
    lemma_product_of_sums(a * f, bs * h, c * e, ds * g);
    lemma_product_of_differences(a * ds, bs * c, e * h, f * g);
    lemma_regrouped(a, e, c, f);
    lemma_regrouped(bs, g, ds, h);
    lemma_regrouped(a, e, ds, h);
    lemma_regrouped(bs, g, c, f);
    lemma_regrouped(a, f, ds, g);
    lemma_regrouped(bs, h, c, e);
    assert(a * ds - bs * c == (a * d - b * c) * sign) by (nonlinear_arith)
        requires
            bs == b * sign,
            ds == d * sign,
    ;
}

proof fn lemma_product_of_sums(p: int, q: int, r: int, s: int)
    by (nonlinear_arith)
    ensures
        (p + q) * (r + s) == p * r + p * s + q * r + q * s,
{
}

proof fn lemma_product_of_differences(p: int, q: int, r: int, s: int)
    by (nonlinear_arith)
    ensures
        (p - q) * (r - s) == p * r - p * s - q * r + q * s,
{
}

proof fn lemma_regrouped(w: int, x: int, y: int, z: int)
    by (nonlinear_arith)
    ensures
        (w * x) * (y * z) == (w * y) * (x * z),
        (w * x) * (y * z) == (w * z) * (x * y),
        (w * x) * (y * z) == (w * y) * (z * x),
        (w * x) * (y * z) == (y * x) * (w * z),
{
}

/// The matrix fitted from factors of determinant `1` or `-1` has determinant
/// one, whatever the rank above zero: it is never a reflection.
pub proof fn lemma_fitted_matrix_is_proper(
    rank: nat,
    mirrors: bool,
    u: (int, int, int, int),
    v_t: (int, int, int, int),
)
    requires
        rank >= 1,
        determinant(u) == 1 || determinant(u) == -1,
        determinant(v_t) == 1 || determinant(v_t) == -1,
        rank >= 2 ==> (mirrors <==> determinant(u) * determinant(v_t) < 0),
    ensures
        determinant(
            fitted_rotation(
                u,
                rotation_sign(rank, mirrors, determinant(u) * determinant(v_t) > 0),
                v_t,
            ),
        ) == 1,
{
    let sign = rotation_sign(rank, mirrors, determinant(u) * determinant(v_t) > 0);
    lemma_determinant_of_fitted_rotation(u, sign, v_t);
    lemma_fitted_rotation_is_proper(rank, mirrors, determinant(u), determinant(v_t));
}

} // verus!
