//! The input of the embedding network: the face's samples scaled to `[-1, 1]`.

use crate::raster::raster_height;
use crate::raster::raster_samples;
use crate::raster::raster_width;
use crate::raster::sample_at;
use crate::raster::RgbRaster;
use vstd::prelude::*;

verus! {

/// Side of the square face that the network takes, in pixels.
pub const FACE_SIZE: u32 = 112;

/// Gray that fills the face where the photograph has no pixel to give.
pub const FILL_GRAY: u8 = 114;

/// What a tensor entry is divided by to give the network's input value.
pub const TENSOR_SCALE: i16 = 255;

/// An empty face: `FACE_SIZE` by `FACE_SIZE` pixels of the fill gray, for the
/// photograph to be resampled into.
pub fn face_canvas() -> (canvas: RgbRaster)
    ensures
        raster_width(canvas) == FACE_SIZE,
        raster_height(canvas) == FACE_SIZE,
        raster_samples(canvas).len() == FACE_SIZE * FACE_SIZE * 3,
        forall|x: int, y: int, channel: int|
            0 <= x < FACE_SIZE && 0 <= y < FACE_SIZE && 0 <= channel < 3 ==> #[trigger] sample_at(
                canvas,
                x,
                y,
                channel,
            ) == FILL_GRAY,
{
    let canvas = RgbRaster::from_pixel(FACE_SIZE, FACE_SIZE, [FILL_GRAY, FILL_GRAY, FILL_GRAY]);
    proof {
        assert forall|x: int, y: int, channel: int|
            0 <= x < FACE_SIZE && 0 <= y < FACE_SIZE && 0 <= channel < 3 implies #[trigger] sample_at(
            canvas,
            x,
            y,
            channel,
        ) == FILL_GRAY by {
            let i = (y * FACE_SIZE + x) * 3 + channel;
            assert(0 <= i < 3 * FACE_SIZE * FACE_SIZE);
            assert(0 <= i % 3 < 3);
        }
    }
    canvas
}

/// The entry for a sample `v`: `v / 127.5 - 1` as a count of
/// `1 / TENSOR_SCALE`, from `-TENSOR_SCALE` for 0 to `TENSOR_SCALE` for 255.
pub open spec fn normalized(sample: u8) -> int {
    2 * sample - TENSOR_SCALE
}

/// Position in the tensor of channel `channel` of the pixel in column `x` of
/// row `y`: rows in order, pixels in order within a row, channels
/// interleaved.
pub open spec fn tensor_index(x: int, y: int, channel: int) -> int {
    (y * FACE_SIZE + x) * 3 + channel
}

/// Scales the upper left `FACE_SIZE` by `FACE_SIZE` pixels of a face to the
/// network's input, `FACE_SIZE * FACE_SIZE * 3` entries.
pub fn normalize_face_rgb_for_mobilefacenet(face_image: &RgbRaster) -> (tensor: Vec<i16>)
    requires
        raster_width(*face_image) >= FACE_SIZE,
        raster_height(*face_image) >= FACE_SIZE,
    ensures
        tensor@.len() == FACE_SIZE * FACE_SIZE * 3,
        forall|x: int, y: int, channel: int|
            0 <= x < FACE_SIZE && 0 <= y < FACE_SIZE && 0 <= channel < 3 ==> tensor@[tensor_index(
                x,
                y,
                channel,
            )] == normalized(#[trigger] sample_at(*face_image, x, y, channel)),
        forall|k: int| 0 <= k < tensor@.len() ==> -TENSOR_SCALE <= #[trigger] tensor@[k] <= TENSOR_SCALE,
{
    let mut output: Vec<i16> = Vec::with_capacity((FACE_SIZE * FACE_SIZE * 3) as usize);
    let mut y: u32 = 0;
    while y < FACE_SIZE
        invariant
            raster_width(*face_image) >= FACE_SIZE,
            raster_height(*face_image) >= FACE_SIZE,
            y <= FACE_SIZE,
            output@.len() == y * FACE_SIZE * 3,
            forall|px: int, py: int, channel: int|
                0 <= px < FACE_SIZE && 0 <= py < y && 0 <= channel < 3 ==> output@[tensor_index(
                    px,
                    py,
                    channel,
                )] == normalized(#[trigger] sample_at(*face_image, px, py, channel)),
            forall|k: int|
                0 <= k < output@.len() ==> -TENSOR_SCALE <= #[trigger] output@[k] <= TENSOR_SCALE,
        decreases FACE_SIZE - y,
    {
        let mut x: u32 = 0;
        while x < FACE_SIZE
            invariant
                raster_width(*face_image) >= FACE_SIZE,
                raster_height(*face_image) >= FACE_SIZE,
                y < FACE_SIZE,
                x <= FACE_SIZE,
                output@.len() == (y * FACE_SIZE + x) * 3,
                forall|px: int, py: int, channel: int|
                    0 <= px < FACE_SIZE && 0 <= channel < 3 && (0 <= py < y || (py == y && px < x))
                        ==> output@[tensor_index(px, py, channel)] == normalized(
                        #[trigger] sample_at(*face_image, px, py, channel),
                    ),
                forall|k: int|
                    0 <= k < output@.len() ==> -TENSOR_SCALE <= #[trigger] output@[k] <= TENSOR_SCALE,
            decreases FACE_SIZE - x,
        {
            let px = face_image.pixel(x, y);
            output.push(2 * (px[0] as i16) - TENSOR_SCALE);
            output.push(2 * (px[1] as i16) - TENSOR_SCALE);
            output.push(2 * (px[2] as i16) - TENSOR_SCALE);
            x += 1;
        }
        y += 1;
    }
    output
}

} // verus!
