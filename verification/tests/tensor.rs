use face_align::raster::decoded_from_rgb_image;
use face_align::raster::rgb_image_from_decoded;
use face_align::raster::DecodedImage;
use face_align::raster::RgbRaster;
use face_align::tensor::face_canvas;
use face_align::tensor::normalize_face_rgb_for_mobilefacenet;
use face_align::tensor::FACE_SIZE;
use face_align::tensor::FILL_GRAY;
use face_align::tensor::TENSOR_SCALE;

fn raster_of(width: u32, height: u32, sample: impl Fn(u32, u32, u32) -> u8) -> RgbRaster {
    let mut rgb = Vec::new();
    for y in 0..height {
        for x in 0..width {
            for channel in 0..3 {
                rgb.push(sample(x, y, channel));
            }
        }
    }
    rgb_image_from_decoded(&DecodedImage { width, height, rgb }).expect("the buffer holds the image")
}

fn value(entry: i16) -> f32 {
    f32::from(entry) / f32::from(TENSOR_SCALE)
}

#[test]
fn tensor_constants() {
    assert_eq!(FACE_SIZE, 112);
    assert_eq!(FILL_GRAY, 114);
    assert_eq!(TENSOR_SCALE, 255);
}

#[test]
fn canvas_is_a_face_of_fill_gray() {
    let canvas = face_canvas();
    assert_eq!((canvas.width(), canvas.height()), (112, 112));
    let parts = decoded_from_rgb_image(canvas);
    assert_eq!(parts.rgb, vec![114u8; 112 * 112 * 3]);
}

#[test]
fn tensor_of_the_canvas_is_one_level_throughout() {
    let tensor = normalize_face_rgb_for_mobilefacenet(&face_canvas());
    assert_eq!(tensor, vec![2 * 114 - 255; 112 * 112 * 3]);
}

#[test]
fn tensor_has_three_entries_per_pixel_of_the_face() {
    let face = raster_of(112, 112, |_, _, _| 114);
    let tensor = normalize_face_rgb_for_mobilefacenet(&face);
    assert_eq!(tensor.len(), 112 * 112 * 3);
}

#[test]
fn tensor_maps_white_to_one_and_black_to_minus_one() {
    let face = raster_of(112, 112, |x, _, _| if x % 2 == 0 { 255 } else { 0 });
    let tensor = normalize_face_rgb_for_mobilefacenet(&face);
    assert_eq!(tensor[0], 255);
    assert_eq!(tensor[3], -255);
    assert!((value(tensor[0]) - 1.0).abs() < 1e-6);
    assert!((value(tensor[3]) + 1.0).abs() < 1e-6);
}

#[test]
fn tensor_maps_the_middle_levels_next_to_zero() {
    let face = raster_of(112, 112, |x, _, _| if x % 2 == 0 { 127 } else { 128 });
    let tensor = normalize_face_rgb_for_mobilefacenet(&face);
    assert_eq!(tensor[0], -1);
    assert_eq!(tensor[3], 1);
    assert!(value(tensor[0]).abs() < 0.004);
    assert!(value(tensor[3]).abs() < 0.004);
}

#[test]
fn tensor_follows_the_formula_for_every_level() {
    let face = raster_of(112, 112, |x, y, channel| ((x * 3 + channel + y * 336) % 256) as u8);
    let tensor = normalize_face_rgb_for_mobilefacenet(&face);
    for k in 0..256usize {
        let level = (k % 256) as f32;
        assert_eq!(tensor[k], 2 * (k as i16) - 255);
        assert!((value(tensor[k]) - (level / 127.5 - 1.0)).abs() < 1e-6);
        assert!((-1.0..=1.0).contains(&value(tensor[k])));
    }
}

#[test]
fn tensor_entries_give_their_samples_back() {
    let face = raster_of(112, 112, |x, y, channel| ((x * 3 + channel + y * 336) % 256) as u8);
    let tensor = normalize_face_rgb_for_mobilefacenet(&face);
    for k in 0..256usize {
        assert_eq!((tensor[k] + TENSOR_SCALE) / 2, k as i16);
        assert_eq!((tensor[k] + TENSOR_SCALE) % 2, 0);
    }
}

#[test]
fn tensor_interleaves_channels_row_by_row() {
    let face = raster_of(112, 112, |x, y, channel| ((x + 2 * y + 100 * channel) % 256) as u8);
    let tensor = normalize_face_rgb_for_mobilefacenet(&face);
    for (x, y) in [(0u32, 0u32), (1, 0), (111, 0), (0, 1), (5, 7), (111, 111)] {
        for channel in 0..3u32 {
            let expected = 2 * (((x + 2 * y + 100 * channel) % 256) as i16) - 255;
            let index = ((y * 112 + x) * 3 + channel) as usize;
            assert_eq!(tensor[index], expected, "pixel ({x}, {y}), channel {channel}");
        }
    }
}

#[test]
fn tensor_takes_the_upper_left_corner_of_a_larger_face() {
    let face = raster_of(120, 115, |x, y, channel| ((x * 5 + y * 7 + channel) % 256) as u8);
    let tensor = normalize_face_rgb_for_mobilefacenet(&face);
    assert_eq!(tensor.len(), 112 * 112 * 3);
    for (x, y) in [(0u32, 0u32), (111, 0), (0, 1), (64, 33), (111, 111)] {
        for channel in 0..3u32 {
            let expected = 2 * (((x * 5 + y * 7 + channel) % 256) as i16) - 255;
            let index = ((y * 112 + x) * 3 + channel) as usize;
            assert_eq!(tensor[index], expected, "pixel ({x}, {y}), channel {channel}");
        }
    }
}
