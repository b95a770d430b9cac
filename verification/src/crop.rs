//! The crop of a face towards the side that its pose does not foreshorten,
//! padded by one cell on every side.

use crate::grid::lemma_cell_to_index;
use crate::pose::FaceDirection;
use vstd::prelude::*;

verus! {

/// Columns that the crop removes from a face before it is scored.
pub const REMOVE_SIDE_COLUMNS: usize = 56;

/// First column that the crop keeps: a face turned left loses its left part,
/// one turned right its right part, a frontal face half on either side.
pub open spec fn crop_start(direction: FaceDirection) -> int {
    match direction {
        FaceDirection::Straight => (REMOVE_SIDE_COLUMNS / 2) as int,
        FaceDirection::Left => REMOVE_SIDE_COLUMNS as int,
        FaceDirection::Right => 0,
    }
}

/// Cell of a run of `n` cells that cell `k` of the padded run of `n + 2`
/// cells copies. The two border cells copy the cell one step inside the
/// run's end, not the end itself.
pub open spec fn reflected(k: int, n: int) -> int {
    if k == 0 {
        1
    } else if k == n + 1 {
        n - 2
    } else {
        k - 1
    }
}

/// Whether cell `(r, c)` of the padded crop lies on a border that has no
/// cell one step inside to copy: the crop is a single row or a single column.
pub open spec fn is_blank(rows: int, cols: int, r: int, c: int) -> bool {
    let kept = cols - REMOVE_SIDE_COLUMNS;
    (rows < 2 && (r == 0 || r == rows + 1)) || (kept < 2 && (c == 0 || c == kept + 1))
}

/// Index in the image of the cell that cell `(r, c)` of the padded crop
/// copies, for a crop that starts at column `start`.
pub open spec fn source_index(rows: int, cols: int, start: int, r: int, c: int) -> int {
    reflected(r, rows) * cols + start + reflected(c, cols - REMOVE_SIDE_COLUMNS)
}

/// Value in row `r`, column `c` of the padded crop of an image of `rows` by
/// `cols` whose crop starts at column `start`. A blank cell is zero.
pub open spec fn padded_value(
    image: Seq<i32>,
    rows: int,
    cols: int,
    start: int,
    r: int,
    c: int,
) -> i32 {
    if is_blank(rows, cols, r, c) {
        0i32
    } else {
        image[source_index(rows, cols, start, r, c)]
    }
}

/// The crop of `image` for `direction`, padded by one cell on every side:
/// `rows + 2` rows of `cols + 2 - REMOVE_SIDE_COLUMNS` cells, row-major.
pub open spec fn padded_image(
    image: Seq<i32>,
    rows: int,
    cols: int,
    direction: FaceDirection,
) -> Seq<i32> {
    let padded_cols = cols + 2 - REMOVE_SIDE_COLUMNS;
    Seq::new(
        ((rows + 2) * padded_cols) as nat,
        |k: int| padded_value(image, rows, cols, crop_start(direction), k / padded_cols, k % padded_cols),
    )
}

fn reflect(k: usize, n: usize) -> (m: usize)
    requires
        n >= 1,
        k <= n + 1,
        n + 1 <= usize::MAX,
        k == 0 || k == n + 1 ==> n >= 2,
    ensures
        m == reflected(k as int, n as int),
        m < n,
{
    if k == 0 {
        1
    } else if k == n + 1 {
        n - 2
    } else {
        k - 1
    }
}

/// Crops a grayscale image of `rows` by `cols` for the given pose and pads
/// the crop by one cell on every side. Returns the padded buffer with its
/// row and column counts.
pub fn pad_image_for_direction(
    image: &[i32],
    rows: usize,
    cols: usize,
    direction: FaceDirection,
) -> (padded: (Vec<i32>, usize, usize))
    requires
        rows >= 1,
        cols > REMOVE_SIDE_COLUMNS,
        rows * cols <= image.len(),
        (rows + 2) * (cols + 2 - REMOVE_SIDE_COLUMNS) <= usize::MAX,
    ensures
        padded.1 == rows + 2,
        padded.2 == cols + 2 - REMOVE_SIDE_COLUMNS,
        padded.0@ == padded_image(image@, rows as int, cols as int, direction),
{
    let kept = cols - REMOVE_SIDE_COLUMNS;
    let padded_cols = kept + 2;
    assert(rows + 2 <= (rows + 2) * (kept + 2)) by (nonlinear_arith)
        requires
            kept >= 1,
    ;
    let padded_rows = rows + 2;
    let start: usize = match direction {
        FaceDirection::Straight => REMOVE_SIDE_COLUMNS / 2,
        FaceDirection::Left => REMOVE_SIDE_COLUMNS,
        FaceDirection::Right => 0,
    };
    let ghost model = padded_image(image@, rows as int, cols as int, direction);
    let mut out: Vec<i32> = Vec::with_capacity(padded_rows * padded_cols);
    let mut row_base: usize = 0;
    let mut r: usize = 0;
    while r < padded_rows
        invariant
            rows >= 1,
            cols > REMOVE_SIDE_COLUMNS,
            rows * cols <= image.len(),
            kept == cols - REMOVE_SIDE_COLUMNS,
            padded_cols == kept + 2,
            padded_rows == rows + 2,
            padded_rows * padded_cols <= usize::MAX,
            start == crop_start(direction),
            model == padded_image(image@, rows as int, cols as int, direction),
            r <= padded_rows,
            row_base == r * padded_cols,
            out@.len() == row_base,
            forall|k: int| 0 <= k < out@.len() ==> out@[k] == model[k],
        decreases padded_rows - r,
    {
        let zero_row = rows < 2 && (r == 0 || r == rows + 1);
        let mut c: usize = 0;
        while c < padded_cols
            invariant
                rows >= 1,
                cols > REMOVE_SIDE_COLUMNS,
                rows * cols <= image.len(),
                kept == cols - REMOVE_SIDE_COLUMNS,
                padded_cols == kept + 2,
                padded_rows == rows + 2,
                padded_rows * padded_cols <= usize::MAX,
                start == crop_start(direction),
                model == padded_image(image@, rows as int, cols as int, direction),
                r < padded_rows,
                zero_row == (rows < 2 && (r == 0 || r == rows + 1)),
                c <= padded_cols,
                row_base == r * padded_cols,
                out@.len() == row_base + c,
                forall|k: int| 0 <= k < out@.len() ==> out@[k] == model[k],
            decreases padded_cols - c,
        {
            proof {
                lemma_cell_to_index(r as int, c as int, padded_rows as int, padded_cols as int);
            }
            let value = if zero_row || (kept < 2 && (c == 0 || c == kept + 1)) {
                0i32
            } else {
                let src_row = reflect(r, rows);
                let src_col = start + reflect(c, kept);
                proof {
                    lemma_cell_to_index(src_row as int, src_col as int, rows as int, cols as int);
                }
                image[src_row * cols + src_col]
            };
            out.push(value);
            c += 1;
        }
        proof {
            assert((r + 1) * padded_cols == r * padded_cols + padded_cols && (r + 1) * padded_cols
                <= padded_rows * padded_cols) by (nonlinear_arith)
                requires
                    r < padded_rows,
            ;
        }
        row_base += padded_cols;
        r += 1;
    }
    (out, padded_rows, padded_cols)
}

/// Cell `(r, c)` of the padded crop holds [`padded_value`], and unless it is
/// blank it copies a cell of the image.
pub proof fn lemma_padded_cell(
    image: Seq<i32>,
    rows: int,
    cols: int,
    direction: FaceDirection,
    r: int,
    c: int,
)
    requires
        rows >= 1,
        cols > REMOVE_SIDE_COLUMNS,
        0 <= r < rows + 2,
        0 <= c < cols + 2 - REMOVE_SIDE_COLUMNS,
    ensures
        0 <= r * (cols + 2 - REMOVE_SIDE_COLUMNS) + c < padded_image(
            image,
            rows,
            cols,
            direction,
        ).len(),
        padded_image(image, rows, cols, direction)[r * (cols + 2 - REMOVE_SIDE_COLUMNS) + c]
            == padded_value(image, rows, cols, crop_start(direction), r, c),
        !is_blank(rows, cols, r, c) ==> 0 <= source_index(
            rows,
            cols,
            crop_start(direction),
            r,
            c,
        ) < rows * cols,
{
    let kept = cols - REMOVE_SIDE_COLUMNS;
    lemma_cell_to_index(r, c, rows + 2, kept + 2);
    if !is_blank(rows, cols, r, c) {
        lemma_cell_to_index(
            reflected(r, rows),
            crop_start(direction) + reflected(c, kept),
            rows,
            cols,
        );
    }
}

} // verus!
