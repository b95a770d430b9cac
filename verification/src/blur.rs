//! The pose-aware sharpness score: variance of the Laplacian of the face,
//! cropped towards the side that the pose does not foreshorten.

use crate::crop::REMOVE_SIDE_COLUMNS;
use crate::crop::lemma_padded_cell;
use crate::crop::pad_image_for_direction;
use crate::crop::padded_image;
use crate::gray::gray_levels;
use crate::gray::luma;
use crate::gray::to_grayscale_buffer;
use crate::grid::lemma_index_to_cell;
use crate::laplacian::apply_laplacian;
use crate::laplacian::laplacian_at;
use crate::laplacian::laplacian_image;
use crate::pose::FaceDirection;
use crate::raster::RgbRaster;
use crate::raster::raster_height;
use crate::raster::raster_width;
use crate::raster::sample_at;
use crate::variance::Ratio;
use crate::variance::lemma_constant_values_have_no_variance;
use crate::variance::variance_2d;
use crate::variance::variance_denominator;
use crate::variance::variance_numerator;
use vstd::prelude::*;

verus! {

/// Score above which a face counts as sharp by default.
pub const LAPLACIAN_HARD_THRESHOLD: u32 = 10;

/// The Laplacian responses of a face cropped for `direction`. A raster too
/// narrow to be cropped, or without rows, has none.
pub open spec fn crop_response(raster: RgbRaster, direction: FaceDirection) -> Seq<i32> {
    let rows = raster_height(raster) as int;
    let cols = raster_width(raster) as int;
    if rows >= 1 && cols > REMOVE_SIDE_COLUMNS {
        laplacian_image(
            padded_image(gray_levels(raster), rows, cols, direction),
            rows + 2,
            cols + 2 - REMOVE_SIDE_COLUMNS,
        )
    } else {
        Seq::empty()
    }
}

/// The sharpness score of a face as numerator and denominator: the variance
/// of its Laplacian responses, and one above the default threshold where
/// there is no response to take the variance of.
pub open spec fn blur_score(raster: RgbRaster, direction: FaceDirection) -> (int, int) {
    let response = crop_response(raster, direction);
    if response.len() > 0 {
        (variance_numerator(response), variance_denominator(response))
    } else {
        (LAPLACIAN_HARD_THRESHOLD + 1, 1)
    }
}

proof fn lemma_gray_response(
    image: Seq<i32>,
    rows: int,
    cols: int,
    direction: FaceDirection,
    low: int,
    high: int,
)
    requires
        rows >= 1,
        cols > REMOVE_SIDE_COLUMNS,
        rows * cols <= image.len(),
        low <= 0 <= high,
        forall|k: int| 0 <= k < rows * cols ==> low <= #[trigger] image[k] <= high,
    ensures
        forall|i: int, j: int|
            0 <= i < rows && 0 <= j < cols - REMOVE_SIDE_COLUMNS ==> 4 * low - 4 * high
                <= #[trigger] laplacian_at(
                padded_image(image, rows, cols, direction),
                cols + 2 - REMOVE_SIDE_COLUMNS,
                i,
                j,
            ) <= 4 * high - 4 * low,
{
    let padded = padded_image(image, rows, cols, direction);
    let padded_cols = cols + 2 - REMOVE_SIDE_COLUMNS;
    assert forall|i: int, j: int| 0 <= i < rows && 0 <= j < cols - REMOVE_SIDE_COLUMNS implies 4
        * low - 4 * high <= #[trigger] laplacian_at(padded, padded_cols, i, j) <= 4 * high - 4
        * low by {
        lemma_padded_cell(image, rows, cols, direction, i, j + 1);
        lemma_padded_cell(image, rows, cols, direction, i + 1, j);
        lemma_padded_cell(image, rows, cols, direction, i + 1, j + 1);
        lemma_padded_cell(image, rows, cols, direction, i + 1, j + 2);
        lemma_padded_cell(image, rows, cols, direction, i + 2, j + 1);
    }
}

/// Scores the sharpness of a face for its pose: the variance of the
/// Laplacian of its gray levels, cropped towards the side that the pose does
/// not foreshorten. A face that leaves nothing to score gets one above the
/// default threshold, so that it is not taken for a blurred one.
pub fn compute_blur_value(face_image: &RgbRaster, direction: FaceDirection) -> (score: Ratio)
    requires
        raster_width(*face_image) * raster_height(*face_image) <= u32::MAX,
    ensures
        score@ == blur_score(*face_image, direction),
        score.denominator > 0,
{
    let (width, height) = face_image.dimensions();
    if height == 0 || width as usize <= REMOVE_SIDE_COLUMNS {
        return Ratio { numerator: (LAPLACIAN_HARD_THRESHOLD + 1) as u128, denominator: 1 };
    }
    let (gray, gray_rows, gray_cols) = to_grayscale_buffer(face_image);
    proof {
        assert((gray_rows + 2) * (gray_cols + 2 - REMOVE_SIDE_COLUMNS) <= 3 * gray_cols * gray_rows
            && gray_rows * (gray_cols - REMOVE_SIDE_COLUMNS) <= gray_cols * gray_rows && gray_rows
            * gray_cols == gray_cols * gray_rows && gray_rows * (gray_cols - REMOVE_SIDE_COLUMNS)
            > 0) by (nonlinear_arith)
            requires
                gray_rows >= 1,
                gray_cols > 56,
                REMOVE_SIDE_COLUMNS == 56,
        ;
    }
    let (padded, padded_rows, padded_cols) = pad_image_for_direction(
        gray.as_slice(),
        gray_rows,
        gray_cols,
        direction,
    );
    proof {
        lemma_gray_response(gray@, gray_rows as int, gray_cols as int, direction, 0, 255);
    }
    let (laplacian, lap_rows, lap_cols) = apply_laplacian(
        padded.as_slice(),
        padded_rows,
        padded_cols,
    );
    proof {
        let n = laplacian@.len() as int;
        assert(n * n > 0) by (nonlinear_arith)
            requires
                n > 0,
        ;
    }
    match variance_2d(laplacian.as_slice(), lap_rows, lap_cols) {
        Some(variance) => variance,
        None => Ratio { numerator: (LAPLACIAN_HARD_THRESHOLD + 1) as u128, denominator: 1 },
    }
}

/// A face of a single colour, wide enough to be cropped, scores exactly zero
/// for every pose.
pub proof fn lemma_constant_face_scores_zero(
    raster: RgbRaster,
    direction: FaceDirection,
    red: u8,
    green: u8,
    blue: u8,
)
    requires
        raster_height(raster) >= 1,
        raster_width(raster) > REMOVE_SIDE_COLUMNS,
        forall|x: int, y: int|
            0 <= x < raster_width(raster) && 0 <= y < raster_height(raster) ==> #[trigger] sample_at(
                raster,
                x,
                y,
                0,
            ) == red && sample_at(raster, x, y, 1) == green && sample_at(raster, x, y, 2) == blue,
    ensures
        blur_score(raster, direction).0 == 0,
        blur_score(raster, direction).1 > 0,
{
    let rows = raster_height(raster) as int;
    let cols = raster_width(raster) as int;
    let kept = cols - REMOVE_SIDE_COLUMNS;
    let gray = gray_levels(raster);
    let level = luma(red, green, blue);
    assert(cols * rows == rows * cols) by (nonlinear_arith);
    assert forall|k: int| 0 <= k < rows * cols implies #[trigger] gray[k] == level by {
        lemma_index_to_cell(k, rows, cols);
        assert(sample_at(raster, k % cols, k / cols, 0) == red);
    }
    let padded = padded_image(gray, rows, cols, direction);
    let response = crop_response(raster, direction);
    let tall: int = if rows >= 2 { 2 * level } else { 0 };
    let wide: int = if kept >= 2 { 2 * level } else { 0 };
    assert(rows * kept > 0) by (nonlinear_arith)
        requires
            rows >= 1,
            kept >= 1,
    ;
    assert forall|k: int| 0 <= k < response.len() implies response[k] == tall + wide - 4
        * level by {
        lemma_index_to_cell(k, rows, kept);
        let i = k / kept;
        let j = k % kept;
        lemma_padded_cell(gray, rows, cols, direction, i, j + 1);
        lemma_padded_cell(gray, rows, cols, direction, i + 1, j);
        lemma_padded_cell(gray, rows, cols, direction, i + 1, j + 1);
        lemma_padded_cell(gray, rows, cols, direction, i + 1, j + 2);
        lemma_padded_cell(gray, rows, cols, direction, i + 2, j + 1);
        assert(laplacian_at(padded, kept + 2, i, j) == tall + wide - 4 * level);
    }
    lemma_constant_values_have_no_variance(response, tall + wide - 4 * level);
    let n = response.len() as int;
    assert(n * n > 0) by (nonlinear_arith)
        requires
            n > 0,
    ;
}

} // verus!
