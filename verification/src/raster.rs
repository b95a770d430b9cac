//! The packed 8-bit RGB raster, kept in an `image::RgbImage`.

use crate::error::MlError;
use crate::error::MlResult;
use vstd::prelude::*;

verus! {

/// A decoded photograph as the decoder hands it over: dimensions and a packed
/// buffer of `width * height * 3` samples, row-major, R, G, B per pixel.
#[derive(Debug)]
pub struct DecodedImage {
    pub width: u32,
    pub height: u32,
    pub rgb: Vec<u8>,
}

/// An `image::RgbImage`. What it holds is reached through [`raster_width`],
/// [`raster_height`] and [`raster_samples`].
#[verifier::external_body]
pub struct RgbRaster {
    image: image::RgbImage,
}

/// Number of pixel columns of the raster.
pub uninterp spec fn raster_width(raster: RgbRaster) -> nat;

/// Number of pixel rows of the raster.
pub uninterp spec fn raster_height(raster: RgbRaster) -> nat;

/// The raster's sample buffer: row-major, three samples (R, G, B) per pixel.
pub uninterp spec fn raster_samples(raster: RgbRaster) -> Seq<u8>;

/// Sample `channel` (0 red, 1 green, 2 blue) of the pixel in column `x` of row `y`.
pub open spec fn sample_at(raster: RgbRaster, x: int, y: int, channel: int) -> u8 {
    raster_samples(raster)[(y * raster_width(raster) + x) * 3 + channel]
}

/// Whether a buffer of `len` samples holds a `width` by `height` RGB image:
/// three samples for every pixel, and a row that can be addressed.
pub open spec fn buffer_holds(width: u32, height: u32, len: nat) -> bool {
    3 * width <= usize::MAX && 3 * width * height <= len
}

impl RgbRaster {
    /// `ImageBuffer::from_raw`: takes the buffer as the raster's samples when
    /// three samples per pixel fit in it, and gives `None` otherwise. The
    /// outside function multiplies three by the width, then by the height,
    /// and gives `None` as well when either product leaves `usize`.
    #[verifier::external_body]
    pub(crate) fn from_raw(width: u32, height: u32, samples: Vec<u8>) -> (made: Option<RgbRaster>)
        ensures
            made is Some <==> buffer_holds(width, height, samples@.len()),
            made matches Some(raster) ==> {
                &&& raster_width(raster) == width
                &&& raster_height(raster) == height
                &&& raster_samples(raster) == samples@
            },
    {
        match image::RgbImage::from_raw(width, height, samples) {
            Some(image) => Some(RgbRaster { image }),
            None => None,
        }
    }

    /// `ImageBuffer::from_pixel`: a raster of the given dimensions whose
    /// pixels all are `colour`, in a buffer of exactly three samples per
    /// pixel. The outside function multiplies three by the width, then by the
    /// height, and panics where either product leaves `usize`, or where the
    /// buffer is larger than a vector can be, hence the two bounds.
    #[verifier::external_body]
    pub(crate) fn from_pixel(width: u32, height: u32, colour: [u8; 3]) -> (made: RgbRaster)
        requires
            3 * width <= usize::MAX,
            3 * width * height <= isize::MAX,
        ensures
            raster_width(made) == width,
            raster_height(made) == height,
            raster_samples(made).len() == 3 * width * height,
            forall|i: int|
                0 <= i < 3 * width * height ==> #[trigger] raster_samples(made)[i] == colour[i % 3],
    {
        RgbRaster { image: image::RgbImage::from_pixel(width, height, image::Rgb(colour)) }
    }

    /// `ImageBuffer::into_raw`: gives the sample buffer back.
    #[verifier::external_body]
    pub(crate) fn into_raw(self) -> (samples: Vec<u8>)
        ensures
            samples@ == raster_samples(self),
    {
        self.image.into_raw()
    }

    /// `ImageBuffer::dimensions`: the width and height the raster was made
    /// with. A raster is only ever made by the outside constructors, which
    /// see to it that three samples per pixel fit the buffer, so that their
    /// number does not leave `usize`.
    #[verifier::external_body]
    pub(crate) fn dimensions(&self) -> (dims: (u32, u32))
        ensures
            dims.0 == raster_width(*self),
            dims.1 == raster_height(*self),
            buffer_holds(dims.0, dims.1, raster_samples(*self).len()),
            3 * dims.0 * dims.1 <= usize::MAX,
    {
        self.image.dimensions()
    }

    /// `ImageBuffer::get_pixel`: the three samples of the pixel at `(x, y)`.
    /// The outside function panics outside the raster, hence the bounds.
    #[verifier::external_body]
    pub(crate) fn pixel(&self, x: u32, y: u32) -> (px: [u8; 3])
        requires
            x < raster_width(*self),
            y < raster_height(*self),
        ensures
            px[0] == sample_at(*self, x as int, y as int, 0),
            px[1] == sample_at(*self, x as int, y as int, 1),
            px[2] == sample_at(*self, x as int, y as int, 2),
    {
        self.image.get_pixel(x, y).0
    }
}

impl RgbRaster {
    /// Number of pixel columns.
    pub fn width(&self) -> (width: u32)
        ensures
            width == raster_width(*self),
    {
        self.dimensions().0
    }

    /// Number of pixel rows.
    pub fn height(&self) -> (height: u32)
        ensures
            height == raster_height(*self),
    {
        self.dimensions().1
    }
}

/// Builds the raster of a decoded photograph. Fails with `Preprocess` exactly
/// when the buffer is too short for the stated dimensions, or a row of them
/// cannot be addressed.
pub fn rgb_image_from_decoded(decoded: &DecodedImage) -> (built: MlResult<RgbRaster>)
    ensures
        built is Ok <==> buffer_holds(decoded.width, decoded.height, decoded.rgb@.len()),
        built matches Ok(raster) ==> {
            &&& raster_width(raster) == decoded.width
            &&& raster_height(raster) == decoded.height
            &&& raster_samples(raster) == decoded.rgb@
        },
        built matches Err(e) ==> e is Preprocess,
{
    match RgbRaster::from_raw(decoded.width, decoded.height, decoded.rgb.clone()) {
        Some(raster) => Ok(raster),
        None => Err(MlError::Preprocess("failed to build RGB source image".to_string())),
    }
}

/// Takes a raster apart into its dimensions and its sample buffer.
pub fn decoded_from_rgb_image(raster: RgbRaster) -> (decoded: DecodedImage)
    ensures
        decoded.width == raster_width(raster),
        decoded.height == raster_height(raster),
        decoded.rgb@ == raster_samples(raster),
        buffer_holds(decoded.width, decoded.height, decoded.rgb@.len()),
{
    let (width, height) = raster.dimensions();
    DecodedImage { width, height, rgb: raster.into_raw() }
}

} // verus!
