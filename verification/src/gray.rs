//! Gray levels of a raster.

use crate::grid::lemma_cell_to_index;
use crate::raster::RgbRaster;
use crate::raster::raster_height;
use crate::raster::raster_samples;
use crate::raster::raster_width;
use vstd::prelude::*;

verus! {

/// Gray level of a colour: `0.299 R + 0.587 G + 0.114 B`, rounded to the
/// nearest integer, halves upwards. It lies between 0 and 255.
pub open spec fn luma(red: u8, green: u8, blue: u8) -> int {
    (299 * red + 587 * green + 114 * blue + 500) / 1000
}

/// The gray levels of a raster's pixels, row-major.
pub open spec fn gray_levels(raster: RgbRaster) -> Seq<i32> {
    let samples = raster_samples(raster);
    Seq::new(
        raster_width(raster) * raster_height(raster),
        |k: int| luma(samples[3 * k], samples[3 * k + 1], samples[3 * k + 2]) as i32,
    )
}

/// Converts a raster to gray levels. Returns them with the raster's row and
/// column counts, in that order.
pub fn to_grayscale_buffer(face_image: &RgbRaster) -> (gray: (Vec<i32>, usize, usize))
    ensures
        gray.1 == raster_height(*face_image),
        gray.2 == raster_width(*face_image),
        gray.0@ == gray_levels(*face_image),
        forall|k: int| 0 <= k < gray.0@.len() ==> 0 <= #[trigger] gray.0@[k] <= 255,
{
    let (width, height) = face_image.dimensions();
    let w = width as usize;
    let h = height as usize;
    assert(w * h <= 3 * w * h) by (nonlinear_arith)
        requires
            0 <= w,
            0 <= h,
    ;
    let ghost model = gray_levels(*face_image);
    let mut gray: Vec<i32> = Vec::with_capacity(w * h);
    let mut y: usize = 0;
    while y < h
        invariant
            w == raster_width(*face_image),
            h == raster_height(*face_image),
            w == width,
            h == height,
            w * h <= usize::MAX,
            model == gray_levels(*face_image),
            y <= h,
            gray@.len() == y * w,
            forall|k: int| 0 <= k < gray@.len() ==> gray@[k] == model[k],
            forall|k: int| 0 <= k < gray@.len() ==> 0 <= #[trigger] gray@[k] <= 255,
        decreases h - y,
    {
        let mut x: usize = 0;
        while x < w
            invariant
                w == raster_width(*face_image),
                h == raster_height(*face_image),
                w == width,
                h == height,
                w * h <= usize::MAX,
                model == gray_levels(*face_image),
                y < h,
                x <= w,
                gray@.len() == y * w + x,
                forall|k: int| 0 <= k < gray@.len() ==> gray@[k] == model[k],
                forall|k: int| 0 <= k < gray@.len() ==> 0 <= #[trigger] gray@[k] <= 255,
            decreases w - x,
        {
            let px = face_image.pixel(x as u32, y as u32);
            let level = (299 * (px[0] as u32) + 587 * (px[1] as u32) + 114 * (px[2] as u32) + 500)
                / 1000;
            proof {
                lemma_cell_to_index(y as int, x as int, h as int, w as int);
            }
            gray.push(level as i32);
            x += 1;
        }
        proof {
            assert((y + 1) * w == y * w + w) by (nonlinear_arith);
        }
        y += 1;
    }
    proof {
        assert(h * w == w * h) by (nonlinear_arith);
    }
    (gray, h, w)
}

} // verus!
