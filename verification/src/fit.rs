//! The exact moments of the landmarks against the canonical template, from
//! which the similarity transform is fitted.

use crate::error::MlError;
use crate::error::MlResult;
use crate::pose::AbsoluteLandmarks;
use crate::pose::FaceDetection;
use crate::pose::LANDMARK_UNIT;
use vstd::prelude::*;

verus! {

/// What one unit of the canonical face is divided into: a template
/// coordinate `n` stands for `n / TEMPLATE_UNIT` of the face's side.
pub const TEMPLATE_UNIT: i64 = 1_120_000;

/// The canonical landmarks of a frontal face, `[x, y]` each, in the order
/// left eye, right eye, nose, left mouth corner, right mouth corner.
pub const TEMPLATE: [[i64; 2]; 5] = [
    [382_946, 516_963],
    [735_318, 515_014],
    [560_252, 717_366],
    [415_493, 923_655],
    [707_299, 922_041],
];

/// Largest magnitude of a landmark coordinate that the moments are taken of:
/// `LANDMARK_UNIT` times `2^32`, beyond every pixel of the largest image.
pub const LANDMARK_LIMIT: i64 = 0x0100_0000_0000_0000;

/// Coordinate `axis` (0 for x, 1 for y) of the template's landmark `i`.
pub open spec fn template_coordinate(i: int, axis: int) -> int {
    TEMPLATE[i][axis] as int
}

/// Sum of the template's coordinates along `axis`.
pub open spec fn template_sum(axis: int) -> int {
    template_coordinate(0, axis) + template_coordinate(1, axis) + template_coordinate(2, axis)
        + template_coordinate(3, axis) + template_coordinate(4, axis)
}

/// Five times the deviation of the template's landmark `i` from the
/// template's centroid, along `axis`.
pub open spec fn template_deviation(i: int, axis: int) -> int {
    5 * template_coordinate(i, axis) - template_sum(axis)
}

/// Coordinate `axis` (0 for x, 1 for y) of landmark `i` of a face.
pub open spec fn coordinate(face: AbsoluteLandmarks, i: int, axis: int) -> int {
    face.keypoints[i][axis] as int
}

/// Whether every coordinate of the face is within [`LANDMARK_LIMIT`].
pub open spec fn within_limit(face: AbsoluteLandmarks) -> bool {
    forall|i: int, axis: int|
        0 <= i < 5 && 0 <= axis < 2 ==> -LANDMARK_LIMIT <= #[trigger] coordinate(face, i, axis)
            <= LANDMARK_LIMIT
}

/// Sum of the face's coordinates along `axis`.
pub open spec fn source_sum(face: AbsoluteLandmarks, axis: int) -> int {
    coordinate(face, 0, axis) + coordinate(face, 1, axis) + coordinate(face, 2, axis) + coordinate(
        face,
        3,
        axis,
    ) + coordinate(face, 4, axis)
}

/// Five times the deviation of the face's landmark `i` from the face's
/// centroid, along `axis`.
pub open spec fn source_deviation(face: AbsoluteLandmarks, i: int, axis: int) -> int {
    5 * coordinate(face, i, axis) - source_sum(face, axis)
}

/// Sum over the first `n` landmarks of the template's deviation along
/// `template_axis` times the face's deviation along `source_axis`.
pub open spec fn cross_upto(
    face: AbsoluteLandmarks,
    template_axis: int,
    source_axis: int,
    n: int,
) -> int
    decreases n,
{
    if n <= 0 {
        0
    } else {
        cross_upto(face, template_axis, source_axis, n - 1) + template_deviation(
            n - 1,
            template_axis,
        ) * source_deviation(face, n - 1, source_axis)
    }
}

/// Sum over the first `n` landmarks of the squared length of the face's
/// deviation.
pub open spec fn spread_upto(face: AbsoluteLandmarks, n: int) -> int
    decreases n,
{
    if n <= 0 {
        0
    } else {
        spread_upto(face, n - 1) + source_deviation(face, n - 1, 0) * source_deviation(
            face,
            n - 1,
            0,
        ) + source_deviation(face, n - 1, 1) * source_deviation(face, n - 1, 1)
    }
}

/// Entry of the covariance of template and face, times 125: the mean over
/// the five landmarks of the product of the deviations from the centroids.
pub open spec fn cross_moment(face: AbsoluteLandmarks, template_axis: int, source_axis: int) -> int {
    cross_upto(face, template_axis, source_axis, 5)
}

/// Variance of the face's landmarks, times 125: the mean over the five
/// landmarks of the squared distance from the centroid.
pub open spec fn spread(face: AbsoluteLandmarks) -> int {
    spread_upto(face, 5)
}

/// The sums that the fit starts from. With `u` for `LANDMARK_UNIT` and `t`
/// for `TEMPLATE_UNIT`, the template's centroid is `template_sum / (5 t)`,
/// the face's centroid `source_sum / (5 u)` pixels, the covariance of
/// template and face `cross / (125 t u)`, and the variance of the face
/// `spread / (125 u u)`.
#[derive(Clone, Copy, Debug)]
pub struct LandmarkMoments {
    /// Sums of the template's `x` and `y`.
    pub template_sum: [i64; 2],
    /// Sums of the face's `x` and `y`.
    pub source_sum: [i64; 2],
    /// Covariance sums, first index the template's axis, second the face's.
    pub cross: [[i128; 2]; 2],
    /// Variance sum.
    pub spread: i128,
}

proof fn lemma_template_deviation_bound(i: int, axis: int)
    requires
        0 <= i < 5,
        0 <= axis < 2,
    ensures
        -0x10_0000 <= template_deviation(i, axis) <= 0x10_0000,
{
}

proof fn lemma_source_deviation_bound(face: AbsoluteLandmarks, i: int, axis: int)
    requires
        within_limit(face),
        0 <= i < 5,
        0 <= axis < 2,
    ensures
        -10 * LANDMARK_LIMIT <= source_deviation(face, i, axis) <= 10 * LANDMARK_LIMIT,
        -5 * LANDMARK_LIMIT <= source_sum(face, axis) <= 5 * LANDMARK_LIMIT,
{
    assert(-LANDMARK_LIMIT <= coordinate(face, 0, axis) <= LANDMARK_LIMIT);
    assert(-LANDMARK_LIMIT <= coordinate(face, 1, axis) <= LANDMARK_LIMIT);
    assert(-LANDMARK_LIMIT <= coordinate(face, 2, axis) <= LANDMARK_LIMIT);
    assert(-LANDMARK_LIMIT <= coordinate(face, 3, axis) <= LANDMARK_LIMIT);
    assert(-LANDMARK_LIMIT <= coordinate(face, 4, axis) <= LANDMARK_LIMIT);
    assert(-LANDMARK_LIMIT <= coordinate(face, i, axis) <= LANDMARK_LIMIT);
}

fn sum_along(face: &AbsoluteLandmarks, axis: usize) -> (sum: i64)
    requires
        within_limit(*face),
        axis < 2,
    ensures
        sum == source_sum(*face, axis as int),
{
    proof {
        lemma_source_deviation_bound(*face, 0, axis as int);
    }
    let k = &face.keypoints;
    k[0][axis] + k[1][axis] + k[2][axis] + k[3][axis] + k[4][axis]
}

fn deviation(face: &AbsoluteLandmarks, sum: i64, i: usize, axis: usize) -> (d: i128)
    requires
        within_limit(*face),
        i < 5,
        axis < 2,
        sum == source_sum(*face, axis as int),
    ensures
        d == source_deviation(*face, i as int, axis as int),
        -10 * LANDMARK_LIMIT <= d <= 10 * LANDMARK_LIMIT,
{
    proof {
        lemma_source_deviation_bound(*face, i as int, axis as int);
    }
    5 * (face.keypoints[i][axis] as i128) - (sum as i128)
}

fn template_sum_along(axis: usize) -> (sum: i64)
    requires
        axis < 2,
    ensures
        sum == template_sum(axis as int),
{
    TEMPLATE[0][axis] + TEMPLATE[1][axis] + TEMPLATE[2][axis] + TEMPLATE[3][axis] + TEMPLATE[4][axis]
}

fn cross_sum(face: &AbsoluteLandmarks, sum: i64, template_axis: usize, source_axis: usize) -> (cross:
    i128)
    requires
        within_limit(*face),
        template_axis < 2,
        source_axis < 2,
        sum == source_sum(*face, source_axis as int),
    ensures
        cross == cross_moment(*face, template_axis as int, source_axis as int),
{
    let template_total = template_sum_along(template_axis);
    let mut cross: i128 = 0;
    let mut i: usize = 0;
    while i < 5
        invariant
            within_limit(*face),
            template_axis < 2,
            source_axis < 2,
            sum == source_sum(*face, source_axis as int),
            template_total == template_sum(template_axis as int),
            i <= 5,
            cross == cross_upto(*face, template_axis as int, source_axis as int, i as int),
            -i * 0xA0_0000_0000_0000_0000_0000 <= cross <= i * 0xA0_0000_0000_0000_0000_0000,
        decreases 5 - i,
    {
        proof {
            lemma_template_deviation_bound(i as int, template_axis as int);
        }
        let t = 5 * (TEMPLATE[i][template_axis] as i128) - (template_total as i128);
        let d = deviation(face, sum, i, source_axis);
        assert(-0xA0_0000_0000_0000_0000_0000 <= t * d <= 0xA0_0000_0000_0000_0000_0000)
            by (nonlinear_arith)
            requires
                -0x10_0000 <= t <= 0x10_0000,
                -0x0A00_0000_0000_0000 <= d <= 0x0A00_0000_0000_0000,
        ;
        cross = cross + t * d;
        i += 1;
    }
    cross
}

fn landmarks_within_limit(face: &AbsoluteLandmarks) -> (within: bool)
    ensures
        within == within_limit(*face),
{
    let mut i: usize = 0;
    while i < 5
        invariant
            i <= 5,
            forall|k: int, axis: int|
                0 <= k < i && 0 <= axis < 2 ==> -LANDMARK_LIMIT <= #[trigger] coordinate(
                    *face,
                    k,
                    axis,
                ) <= LANDMARK_LIMIT,
        decreases 5 - i,
    {
        let x = face.keypoints[i][0];
        let y = face.keypoints[i][1];
        if x < -LANDMARK_LIMIT || x > LANDMARK_LIMIT || y < -LANDMARK_LIMIT || y > LANDMARK_LIMIT {
            proof {
                let axis: int = if x < -LANDMARK_LIMIT || x > LANDMARK_LIMIT { 0 } else { 1 };
                assert(!(-LANDMARK_LIMIT <= coordinate(*face, i as int, axis) <= LANDMARK_LIMIT));
            }
            return false;
        }
        i += 1;
    }
    true
}

/// Takes the moments of a face's landmarks against the canonical template.
/// Fails with `Postprocess` exactly when a coordinate is beyond
/// [`LANDMARK_LIMIT`], where the sums would leave 128 bits.
pub fn landmark_moments(src_points: &AbsoluteLandmarks) -> (moments: MlResult<LandmarkMoments>)
    ensures
        moments is Ok <==> within_limit(*src_points),
        moments matches Ok(m) ==> {
            &&& m.template_sum[0] == template_sum(0)
            &&& m.template_sum[1] == template_sum(1)
            &&& m.source_sum[0] == source_sum(*src_points, 0)
            &&& m.source_sum[1] == source_sum(*src_points, 1)
            &&& forall|template_axis: int, source_axis: int|
                0 <= template_axis < 2 && 0 <= source_axis < 2
                    ==> m.cross[template_axis][source_axis] == #[trigger] cross_moment(
                    *src_points,
                    template_axis,
                    source_axis,
                )
            &&& m.spread == spread(*src_points)
        },
        moments matches Err(e) ==> e is Postprocess,
{
    if !landmarks_within_limit(src_points) {
        return Err(MlError::Postprocess("landmark coordinates out of range".to_string()));
    }
    let sum_x = sum_along(src_points, 0);
    let sum_y = sum_along(src_points, 1);
    let mut spread: i128 = 0;
    let mut i: usize = 0;
    while i < 5
        invariant
            within_limit(*src_points),
            sum_x == source_sum(*src_points, 0),
            sum_y == source_sum(*src_points, 1),
            i <= 5,
            spread == spread_upto(*src_points, i as int),
            0 <= spread <= i * 0xC8_0000_0000_0000_0000_0000_0000_0000,
        decreases 5 - i,
    {
        let dx = deviation(src_points, sum_x, i, 0);
        let dy = deviation(src_points, sum_y, i, 1);
        assert(0 <= dx * dx <= 0x64_0000_0000_0000_0000_0000_0000_0000 && 0 <= dy * dy
            <= 0x64_0000_0000_0000_0000_0000_0000_0000) by (nonlinear_arith)
            requires
                -0x0A00_0000_0000_0000 <= dx <= 0x0A00_0000_0000_0000,
                -0x0A00_0000_0000_0000 <= dy <= 0x0A00_0000_0000_0000,
        ;
        spread = spread + dx * dx + dy * dy;
        i += 1;
    }
    Ok(
        LandmarkMoments {
            template_sum: [template_sum_along(0), template_sum_along(1)],
            source_sum: [sum_x, sum_y],
            cross: [
                [cross_sum(src_points, sum_x, 0, 0), cross_sum(src_points, sum_y, 0, 1)],
                [cross_sum(src_points, sum_x, 1, 0), cross_sum(src_points, sum_y, 1, 1)],
            ],
            spread,
        },
    )
}

/// Landmarks that lie in their image, or no further from its left and upper
/// edge than its own extent, are within the limit once they are scaled to
/// pixels, whatever the size of the image: their moments can always be taken.
pub proof fn lemma_landmarks_near_the_image_are_within_limit(
    detection: FaceDetection,
    image_width: u32,
    image_height: u32,
    absolute: AbsoluteLandmarks,
)
    requires
        forall|i: int|
            0 <= i < 5 ==> -LANDMARK_UNIT <= #[trigger] detection.x(i) <= LANDMARK_UNIT
                && -LANDMARK_UNIT <= detection.y(i) <= LANDMARK_UNIT,
        forall|i: int|
            0 <= i < 5 ==> #[trigger] absolute.x(i) == detection.x(i) * image_width && absolute.y(i)
                == detection.y(i) * image_height,
    ensures
        within_limit(absolute),
{
    assert forall|i: int, axis: int| 0 <= i < 5 && 0 <= axis < 2 implies -LANDMARK_LIMIT
        <= #[trigger] coordinate(absolute, i, axis) <= LANDMARK_LIMIT by {
        let relative = if axis == 0 { detection.x(i) } else { detection.y(i) };
        let extent: int = if axis == 0 { image_width as int } else { image_height as int };
        assert(absolute.x(i) == detection.x(i) * image_width);
        assert(coordinate(absolute, i, axis) == relative * extent);
        assert(-0x0100_0000_0000_0000 <= relative * extent <= 0x0100_0000_0000_0000)
            by (nonlinear_arith)
            requires
                -0x0100_0000 <= relative <= 0x0100_0000,
                0 <= extent <= 0xffff_ffff,
        ;
    }
}

/// Landmarks that all coincide have no covariance with the template and no
/// variance: every moment is zero, so no singular value counts and no
/// transform fits them.
pub proof fn lemma_coincident_landmarks_have_no_moments(face: AbsoluteLandmarks)
    requires
        forall|i: int, axis: int|
            0 <= i < 5 && 0 <= axis < 2 ==> #[trigger] coordinate(face, i, axis) == coordinate(
                face,
                0,
                axis,
            ),
    ensures
        forall|template_axis: int, source_axis: int|
            0 <= template_axis < 2 && 0 <= source_axis < 2 ==> #[trigger] cross_moment(
                face,
                template_axis,
                source_axis,
            ) == 0,
        spread(face) == 0,
{
    assert forall|i: int, axis: int| 0 <= i < 5 && 0 <= axis < 2 implies #[trigger] source_deviation(
        face,
        i,
        axis,
    ) == 0 by {
        assert(coordinate(face, 1, axis) == coordinate(face, 0, axis));
        assert(coordinate(face, 2, axis) == coordinate(face, 0, axis));
        assert(coordinate(face, 3, axis) == coordinate(face, 0, axis));
        assert(coordinate(face, 4, axis) == coordinate(face, 0, axis));
        assert(coordinate(face, i, axis) == coordinate(face, 0, axis));
    }
    assert forall|template_axis: int, source_axis: int|
        0 <= template_axis < 2 && 0 <= source_axis < 2 implies #[trigger] cross_moment(
        face,
        template_axis,
        source_axis,
    ) == 0 by {
        reveal_with_fuel(cross_upto, 6);
        assert(source_deviation(face, 0, source_axis) == 0);
        assert(source_deviation(face, 1, source_axis) == 0);
        assert(source_deviation(face, 2, source_axis) == 0);
        assert(source_deviation(face, 3, source_axis) == 0);
        assert(source_deviation(face, 4, source_axis) == 0);
    }
    assert(spread(face) == 0) by {
        reveal_with_fuel(spread_upto, 6);
        assert(source_deviation(face, 0, 0) == 0 && source_deviation(face, 0, 1) == 0);
        assert(source_deviation(face, 1, 0) == 0 && source_deviation(face, 1, 1) == 0);
        assert(source_deviation(face, 2, 0) == 0 && source_deviation(face, 2, 1) == 0);
        assert(source_deviation(face, 3, 0) == 0 && source_deviation(face, 3, 1) == 0);
        assert(source_deviation(face, 4, 0) == 0 && source_deviation(face, 4, 1) == 0);
    }
}

/// Moment of the template against itself: the sum over its landmarks of the
/// product of its deviations along the two axes.
pub open spec fn template_moment(first_axis: int, second_axis: int) -> int {
    template_deviation(0, first_axis) * template_deviation(0, second_axis) + template_deviation(
        1,
        first_axis,
    ) * template_deviation(1, second_axis) + template_deviation(2, first_axis)
        * template_deviation(2, second_axis) + template_deviation(3, first_axis)
        * template_deviation(3, second_axis) + template_deviation(4, first_axis)
        * template_deviation(4, second_axis)
}

/// Whether the face is the template enlarged by `p / q` and moved by
/// `(tx / q, ty / q)`, in the units of the two.
pub open spec fn is_scaled_template(face: AbsoluteLandmarks, p: int, q: int, tx: int, ty: int) -> bool {
    forall|i: int|
        0 <= i < 5 ==> q * #[trigger] coordinate(face, i, 0) == p * template_coordinate(i, 0) + tx
            && q * coordinate(face, i, 1) == p * template_coordinate(i, 1) + ty
}

proof fn lemma_scaled_product(a: int, d: int, e: int, p: int, q: int)
    by (nonlinear_arith)
    requires
        q * d == p * e,
    ensures
        q * (a * d) == p * (a * e),
        q * q * (d * d) == p * p * (e * e),
{
}

proof fn lemma_scaled_difference(k: int, x: int, sum: int)
    by (nonlinear_arith)
    ensures
        k * (5 * x - sum) == 5 * (k * x) - k * sum,
{
}

proof fn lemma_distributes_over_five(k: int, x0: int, x1: int, x2: int, x3: int, x4: int)
    by (nonlinear_arith)
    ensures
        k * (x0 + x1 + x2 + x3 + x4) == k * x0 + k * x1 + k * x2 + k * x3 + k * x4,
{
}

proof fn lemma_scaled_deviation(
    face: AbsoluteLandmarks,
    p: int,
    q: int,
    tx: int,
    ty: int,
    i: int,
    axis: int,
)
    requires
        is_scaled_template(face, p, q, tx, ty),
        0 <= i < 5,
        0 <= axis < 2,
    ensures
        q * source_deviation(face, i, axis) == p * template_deviation(i, axis),
{
    let t = if axis == 0 { tx } else { ty };
    let c0 = coordinate(face, 0, axis);
    let c1 = coordinate(face, 1, axis);
    let c2 = coordinate(face, 2, axis);
    let c3 = coordinate(face, 3, axis);
    let c4 = coordinate(face, 4, axis);
    let ci = coordinate(face, i, axis);
    let m0 = template_coordinate(0, axis);
    let m1 = template_coordinate(1, axis);
    let m2 = template_coordinate(2, axis);
    let m3 = template_coordinate(3, axis);
    let m4 = template_coordinate(4, axis);
    let mi = template_coordinate(i, axis);
    assert(q * coordinate(face, 0, 0) == p * template_coordinate(0, 0) + tx);
    assert(q * coordinate(face, 1, 0) == p * template_coordinate(1, 0) + tx);
    assert(q * coordinate(face, 2, 0) == p * template_coordinate(2, 0) + tx);
    assert(q * coordinate(face, 3, 0) == p * template_coordinate(3, 0) + tx);
    assert(q * coordinate(face, 4, 0) == p * template_coordinate(4, 0) + tx);
    assert(q * coordinate(face, i, 0) == p * template_coordinate(i, 0) + tx);
    lemma_distributes_over_five(q, c0, c1, c2, c3, c4);
    lemma_distributes_over_five(p, m0, m1, m2, m3, m4);
    lemma_scaled_difference(q, ci, c0 + c1 + c2 + c3 + c4);
    lemma_scaled_difference(p, mi, m0 + m1 + m2 + m3 + m4);
}

proof fn lemma_template_moments()
    ensures
        template_moment(0, 0) == 2_616_587_745_530,
        template_moment(0, 1) == 8_556_891_340,
        template_moment(1, 0) == 8_556_891_340,
        template_moment(1, 1) == 4_138_530_598_070,
{
    let x0 = template_deviation(0, 0);
    let x1 = template_deviation(1, 0);
    let x2 = template_deviation(2, 0);
    let x3 = template_deviation(3, 0);
    let x4 = template_deviation(4, 0);
    let y0 = template_deviation(0, 1);
    let y1 = template_deviation(1, 1);
    let y2 = template_deviation(2, 1);
    let y3 = template_deviation(3, 1);
    let y4 = template_deviation(4, 1);
    assert(x0 * x0 + x1 * x1 + x2 * x2 + x3 * x3 + x4 * x4 == 2_616_587_745_530 && x0 * y0 + x1
        * y1 + x2 * y2 + x3 * y3 + x4 * y4 == 8_556_891_340 && y0 * x0 + y1 * x1 + y2 * x2 + y3
        * x3 + y4 * x4 == 8_556_891_340 && y0 * y0 + y1 * y1 + y2 * y2 + y3 * y3 + y4 * y4
        == 4_138_530_598_070) by (nonlinear_arith)
        requires
            x0 == -886_578,
            x1 == 875_282,
            x2 == -48,
            x3 == -723_843,
            x4 == 735_187,
            y0 == -1_010_224,
            y1 == -1_019_969,
            y2 == -8_209,
            y3 == 1_023_236,
            y4 == 1_015_166,
    ;
}

proof fn lemma_scaled_cross(
    face: AbsoluteLandmarks,
    p: int,
    q: int,
    tx: int,
    ty: int,
    template_axis: int,
    source_axis: int,
)
    requires
        is_scaled_template(face, p, q, tx, ty),
        0 <= template_axis < 2,
        0 <= source_axis < 2,
    ensures
        q * cross_moment(face, template_axis, source_axis) == p * template_moment(
            template_axis,
            source_axis,
        ),
{
    reveal_with_fuel(cross_upto, 6);
    lemma_scaled_deviation(face, p, q, tx, ty, 0, source_axis);
    lemma_scaled_deviation(face, p, q, tx, ty, 1, source_axis);
    lemma_scaled_deviation(face, p, q, tx, ty, 2, source_axis);
    lemma_scaled_deviation(face, p, q, tx, ty, 3, source_axis);
    lemma_scaled_deviation(face, p, q, tx, ty, 4, source_axis);
    let a0 = template_deviation(0, template_axis);
    let a1 = template_deviation(1, template_axis);
    let a2 = template_deviation(2, template_axis);
    let a3 = template_deviation(3, template_axis);
    let a4 = template_deviation(4, template_axis);
    let d0 = source_deviation(face, 0, source_axis);
    let d1 = source_deviation(face, 1, source_axis);
    let d2 = source_deviation(face, 2, source_axis);
    let d3 = source_deviation(face, 3, source_axis);
    let d4 = source_deviation(face, 4, source_axis);
    let e0 = template_deviation(0, source_axis);
    let e1 = template_deviation(1, source_axis);
    let e2 = template_deviation(2, source_axis);
    let e3 = template_deviation(3, source_axis);
    let e4 = template_deviation(4, source_axis);
    lemma_scaled_product(a0, d0, e0, p, q);
    lemma_scaled_product(a1, d1, e1, p, q);
    lemma_scaled_product(a2, d2, e2, p, q);
    lemma_scaled_product(a3, d3, e3, p, q);
    lemma_scaled_product(a4, d4, e4, p, q);
    lemma_distributes_over_five(q, a0 * d0, a1 * d1, a2 * d2, a3 * d3, a4 * d4);
    lemma_distributes_over_five(p, a0 * e0, a1 * e1, a2 * e2, a3 * e3, a4 * e4);
}

proof fn lemma_scaled_squares(
    face: AbsoluteLandmarks,
    p: int,
    q: int,
    tx: int,
    ty: int,
    axis: int,
)
    requires
        is_scaled_template(face, p, q, tx, ty),
        0 <= axis < 2,
    ensures
        q * q * (source_deviation(face, 0, axis) * source_deviation(face, 0, axis)
            + source_deviation(face, 1, axis) * source_deviation(face, 1, axis) + source_deviation(
            face,
            2,
            axis,
        ) * source_deviation(face, 2, axis) + source_deviation(face, 3, axis) * source_deviation(
            face,
            3,
            axis,
        ) + source_deviation(face, 4, axis) * source_deviation(face, 4, axis)) == p * p
            * template_moment(axis, axis),
{
    lemma_scaled_deviation(face, p, q, tx, ty, 0, axis);
    lemma_scaled_deviation(face, p, q, tx, ty, 1, axis);
    lemma_scaled_deviation(face, p, q, tx, ty, 2, axis);
    lemma_scaled_deviation(face, p, q, tx, ty, 3, axis);
    lemma_scaled_deviation(face, p, q, tx, ty, 4, axis);
    let d0 = source_deviation(face, 0, axis);
    let d1 = source_deviation(face, 1, axis);
    let d2 = source_deviation(face, 2, axis);
    let d3 = source_deviation(face, 3, axis);
    let d4 = source_deviation(face, 4, axis);
    let e0 = template_deviation(0, axis);
    let e1 = template_deviation(1, axis);
    let e2 = template_deviation(2, axis);
    let e3 = template_deviation(3, axis);
    let e4 = template_deviation(4, axis);
    lemma_scaled_product(d0, d0, e0, p, q);
    lemma_scaled_product(d1, d1, e1, p, q);
    lemma_scaled_product(d2, d2, e2, p, q);
    lemma_scaled_product(d3, d3, e3, p, q);
    lemma_scaled_product(d4, d4, e4, p, q);
    lemma_distributes_over_five(q * q, d0 * d0, d1 * d1, d2 * d2, d3 * d3, d4 * d4);
    lemma_distributes_over_five(p * p, e0 * e0, e1 * e1, e2 * e2, e3 * e3, e4 * e4);
}

proof fn lemma_scaled_spread(face: AbsoluteLandmarks, p: int, q: int, tx: int, ty: int)
    requires
        is_scaled_template(face, p, q, tx, ty),
    ensures
        q * q * spread(face) == p * p * (template_moment(0, 0) + template_moment(1, 1)),
{
    reveal_with_fuel(spread_upto, 6);
    let total_x = source_deviation(face, 0, 0) * source_deviation(face, 0, 0) + source_deviation(
        face,
        1,
        0,
    ) * source_deviation(face, 1, 0) + source_deviation(face, 2, 0) * source_deviation(face, 2, 0)
        + source_deviation(face, 3, 0) * source_deviation(face, 3, 0) + source_deviation(
        face,
        4,
        0,
    ) * source_deviation(face, 4, 0);
    let total_y = source_deviation(face, 0, 1) * source_deviation(face, 0, 1) + source_deviation(
        face,
        1,
        1,
    ) * source_deviation(face, 1, 1) + source_deviation(face, 2, 1) * source_deviation(face, 2, 1)
        + source_deviation(face, 3, 1) * source_deviation(face, 3, 1) + source_deviation(
        face,
        4,
        1,
    ) * source_deviation(face, 4, 1);
    assert(spread(face) == total_x + total_y);
    assert(q * q * total_x == p * p * template_moment(0, 0)) by {
        lemma_scaled_squares(face, p, q, tx, ty, 0);
    }
    assert(q * q * total_y == p * p * template_moment(1, 1)) by {
        lemma_scaled_squares(face, p, q, tx, ty, 1);
    }
    assert(q * q * (total_x + total_y) == q * q * total_x + q * q * total_y && p * p * (
    template_moment(0, 0) + template_moment(1, 1)) == p * p * template_moment(0, 0) + p * p
        * template_moment(1, 1)) by (nonlinear_arith);
}

/// A face that is the template enlarged by `p / q` and moved, without
/// rotation, has a covariance with the template that is symmetric and
/// positive definite, and `p` times its trace is `q` times the variance sum.
/// The rotation fitted to such a covariance is the identity, and the scale,
/// the trace over the variance, undoes the enlargement. The face's centroid
/// is the template's, enlarged and moved alike, so that the translation of
/// the fit undoes the move.
pub proof fn lemma_scaled_template_fits_without_rotation(
    face: AbsoluteLandmarks,
    p: int,
    q: int,
    tx: int,
    ty: int,
)
    requires
        p > 0,
        q > 0,
        is_scaled_template(face, p, q, tx, ty),
    ensures
        cross_moment(face, 0, 1) == cross_moment(face, 1, 0),
        cross_moment(face, 0, 0) > 0,
        cross_moment(face, 0, 0) * cross_moment(face, 1, 1) - cross_moment(face, 0, 1)
            * cross_moment(face, 1, 0) > 0,
        p * (cross_moment(face, 0, 0) + cross_moment(face, 1, 1)) == q * spread(face),
        q * source_sum(face, 0) == p * template_sum(0) + 5 * tx,
        q * source_sum(face, 1) == p * template_sum(1) + 5 * ty,
{
    assert(q * coordinate(face, 0, 0) == p * template_coordinate(0, 0) + tx);
    assert(q * coordinate(face, 1, 0) == p * template_coordinate(1, 0) + tx);
    assert(q * coordinate(face, 2, 0) == p * template_coordinate(2, 0) + tx);
    assert(q * coordinate(face, 3, 0) == p * template_coordinate(3, 0) + tx);
    assert(q * coordinate(face, 4, 0) == p * template_coordinate(4, 0) + tx);
    lemma_distributes_over_five(
        q,
        coordinate(face, 0, 0),
        coordinate(face, 1, 0),
        coordinate(face, 2, 0),
        coordinate(face, 3, 0),
        coordinate(face, 4, 0),
    );
    lemma_distributes_over_five(
        q,
        coordinate(face, 0, 1),
        coordinate(face, 1, 1),
        coordinate(face, 2, 1),
        coordinate(face, 3, 1),
        coordinate(face, 4, 1),
    );
    lemma_distributes_over_five(
        p,
        template_coordinate(0, 0),
        template_coordinate(1, 0),
        template_coordinate(2, 0),
        template_coordinate(3, 0),
        template_coordinate(4, 0),
    );
    lemma_distributes_over_five(
        p,
        template_coordinate(0, 1),
        template_coordinate(1, 1),
        template_coordinate(2, 1),
        template_coordinate(3, 1),
        template_coordinate(4, 1),
    );
    lemma_scaled_cross(face, p, q, tx, ty, 0, 0);
    lemma_scaled_cross(face, p, q, tx, ty, 0, 1);
    lemma_scaled_cross(face, p, q, tx, ty, 1, 0);
    lemma_scaled_cross(face, p, q, tx, ty, 1, 1);
    lemma_scaled_spread(face, p, q, tx, ty);
    let a = cross_moment(face, 0, 0);
    let b = cross_moment(face, 0, 1);
    let c = cross_moment(face, 1, 0);
    let d = cross_moment(face, 1, 1);
    let v = spread(face);
    lemma_template_moments();
    assert(b == c) by (nonlinear_arith)
        requires
            q > 0,
            q * b == p * 8_556_891_340,
            q * c == p * 8_556_891_340,
    ;
    assert(a > 0) by (nonlinear_arith)
        requires
            q > 0,
            p > 0,
            q * a == p * 2_616_587_745_530,
    ;
    assert(p * (a + d) == q * v) by (nonlinear_arith)
        requires
            q > 0,
            p > 0,
            q * a == p * 2_616_587_745_530,
            q * d == p * 4_138_530_598_070,
            q * q * v == p * p * (2_616_587_745_530 + 4_138_530_598_070),
    ;
    assert(a * d - b * c > 0) by (nonlinear_arith)
        requires
            q > 0,
            p > 0,
            q * a == p * 2_616_587_745_530,
            q * d == p * 4_138_530_598_070,
            q * b == p * 8_556_891_340,
            q * c == p * 8_556_891_340,
    ;
}

} // verus!
