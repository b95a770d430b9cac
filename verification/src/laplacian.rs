//! The discrete Laplacian over the interior of a padded buffer.

use crate::grid::lemma_cell_to_index;
use vstd::prelude::*;

verus! {

/// Number of cells that are left of `extent` once a border of one cell is
/// taken from both ends.
pub open spec fn interior(extent: int) -> int {
    if extent >= 2 {
        extent - 2
    } else {
        0
    }
}

/// Discrete Laplacian at cell `(i, j)` of the interior of a padded buffer:
/// the four neighbours minus four times the centre.
pub open spec fn laplacian_at(padded: Seq<i32>, padded_cols: int, i: int, j: int) -> int {
    padded[i * padded_cols + (j + 1)] + padded[(i + 1) * padded_cols + j] - 4 * padded[(i + 1)
        * padded_cols + (j + 1)] + padded[(i + 1) * padded_cols + (j + 2)] + padded[(i + 2)
        * padded_cols + (j + 1)]
}

/// Every Laplacian response of the buffer is a 32-bit value.
pub open spec fn responses_fit(padded: Seq<i32>, padded_rows: int, padded_cols: int) -> bool {
    forall|i: int, j: int|
        0 <= i < interior(padded_rows) && 0 <= j < interior(padded_cols) ==> i32::MIN
            <= #[trigger] laplacian_at(padded, padded_cols, i, j) <= i32::MAX
}

/// The Laplacian responses over the interior of a padded buffer, row-major.
pub open spec fn laplacian_image(padded: Seq<i32>, padded_rows: int, padded_cols: int) -> Seq<
    i32,
> {
    let cols = interior(padded_cols);
    Seq::new(
        (interior(padded_rows) * cols) as nat,
        |k: int| laplacian_at(padded, padded_cols, k / cols, k % cols) as i32,
    )
}

/// Applies the Laplacian to the interior of a padded buffer of `padded_rows`
/// by `padded_cols`. Returns the responses with their row and column counts,
/// two less than the buffer's in either direction.
pub fn apply_laplacian(padded: &[i32], padded_rows: usize, padded_cols: usize) -> (response: (
    Vec<i32>,
    usize,
    usize,
))
    requires
        padded_rows > 2 && padded_cols > 2 ==> padded_rows * padded_cols <= padded.len(),
        responses_fit(padded@, padded_rows as int, padded_cols as int),
    ensures
        response.1 == interior(padded_rows as int),
        response.2 == interior(padded_cols as int),
        response.0@ == laplacian_image(padded@, padded_rows as int, padded_cols as int),
{
    let rows = if padded_rows >= 2 { padded_rows - 2 } else { 0 };
    let cols = if padded_cols >= 2 { padded_cols - 2 } else { 0 };
    let ghost model = laplacian_image(padded@, padded_rows as int, padded_cols as int);
    let mut out: Vec<i32> = Vec::new();
    let mut i: usize = 0;
    while i < rows && cols > 0
        invariant
            padded_rows > 2 && padded_cols > 2 ==> padded_rows * padded_cols <= padded.len(),
            responses_fit(padded@, padded_rows as int, padded_cols as int),
            rows == interior(padded_rows as int),
            cols == interior(padded_cols as int),
            model == laplacian_image(padded@, padded_rows as int, padded_cols as int),
            i <= rows,
            out@.len() == i * cols,
            forall|k: int| 0 <= k < out@.len() ==> out@[k] == model[k],
        decreases rows - i,
    {
        proof {
            assert(0 <= i * padded_cols && (i + 1) * padded_cols == i * padded_cols + padded_cols
                && (i + 2) * padded_cols == i * padded_cols + 2 * padded_cols && (i + 3)
                * padded_cols == i * padded_cols + 3 * padded_cols && (i + 3) * padded_cols
                <= padded_rows * padded_cols) by (nonlinear_arith)
                requires
                    0 <= i,
                    i + 3 <= padded_rows,
                    0 <= padded_cols,
            ;
        }
        let above = i * padded_cols;
        let level = above + padded_cols;
        let below = level + padded_cols;
        let mut j: usize = 0;
        while j < cols
            invariant
                padded_rows * padded_cols <= padded.len(),
                responses_fit(padded@, padded_rows as int, padded_cols as int),
                rows == padded_rows - 2,
                cols == padded_cols - 2,
                cols > 0,
                model == laplacian_image(padded@, padded_rows as int, padded_cols as int),
                i < rows,
                j <= cols,
                above == i * padded_cols,
                level == (i + 1) * padded_cols,
                below == (i + 2) * padded_cols,
                level == above + padded_cols,
                below == level + padded_cols,
                below + padded_cols <= padded.len(),
                out@.len() == i * cols + j,
                forall|k: int| 0 <= k < out@.len() ==> out@[k] == model[k],
            decreases cols - j,
        {
            let top = padded[above + (j + 1)] as i64;
            let left = padded[level + j] as i64;
            let center = padded[level + (j + 1)] as i64;
            let right = padded[level + (j + 2)] as i64;
            let bottom = padded[below + (j + 1)] as i64;
            proof {
                lemma_cell_to_index(i as int, j as int, rows as int, cols as int);
                assert(i32::MIN <= laplacian_at(padded@, padded_cols as int, i as int, j as int)
                    <= i32::MAX);
            }
            out.push((top + left - 4 * center + right + bottom) as i32);
            j += 1;
        }
        proof {
            assert((i + 1) * cols == i * cols + cols) by (nonlinear_arith);
        }
        i += 1;
    }
    proof {
        if cols == 0 {
            assert(interior(padded_rows as int) * 0 == 0);
        }
    }
    (out, rows, cols)
}

} // verus!
