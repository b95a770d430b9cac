//! The whole chain from a photograph to the network's input, with the
//! decomposition and the resampling done the way an application does them.

use face_align::blur::compute_blur_value;
use face_align::blur::LAPLACIAN_HARD_THRESHOLD;
use face_align::error::MlError;
use face_align::fit::landmark_moments;
use face_align::fit::TEMPLATE;
use face_align::fit::TEMPLATE_UNIT;
use face_align::pose::face_direction;
use face_align::pose::to_absolute_detection;
use face_align::pose::AbsoluteLandmarks;
use face_align::pose::FaceDetection;
use face_align::pose::FaceDirection;
use face_align::pose::LANDMARK_UNIT;
use face_align::raster::decoded_from_rgb_image;
use face_align::raster::rgb_image_from_decoded;
use face_align::raster::DecodedImage;
use face_align::tensor::face_canvas;
use face_align::tensor::normalize_face_rgb_for_mobilefacenet;
use face_align::tensor::FACE_SIZE;
use face_align::tensor::FILL_GRAY;
use face_align::tensor::TENSOR_SCALE;
use face_align::transform::correct_reflection;
use image::Rgb;
use image::RgbImage;
use imageproc::geometric_transformations::warp_into;
use imageproc::geometric_transformations::Interpolation;
use imageproc::geometric_transformations::Projection;
use nalgebra::Matrix2;
use nalgebra::Vector2;

struct Alignment {
    affine_matrix: [[f32; 3]; 3],
    center: [f32; 2],
    size: f32,
    rotation: f32,
    rotation_determinant: f32,
}

fn estimate(src_points: &AbsoluteLandmarks) -> Result<Alignment, MlError> {
    let moments = landmark_moments(src_points)?;
    let unit = f64::from(LANDMARK_UNIT);
    let template_unit = TEMPLATE_UNIT as f64;

    let src_mean = Vector2::new(
        (moments.source_sum[0] as f64 / (5.0 * unit)) as f32,
        (moments.source_sum[1] as f64 / (5.0 * unit)) as f32,
    );
    let dst_mean = Vector2::new(
        (moments.template_sum[0] as f64 / (5.0 * template_unit)) as f32,
        (moments.template_sum[1] as f64 / (5.0 * template_unit)) as f32,
    );
    let covariance_unit = 125.0 * template_unit * unit;
    let a = Matrix2::new(
        (moments.cross[0][0] as f64 / covariance_unit) as f32,
        (moments.cross[0][1] as f64 / covariance_unit) as f32,
        (moments.cross[1][0] as f64 / covariance_unit) as f32,
        (moments.cross[1][1] as f64 / covariance_unit) as f32,
    );
    let src_var = (moments.spread as f64 / (125.0 * unit * unit)) as f32;

    let mirrors = a.determinant() < 0.0;
    let svd = a.svd(true, true);
    let u = svd.u.ok_or_else(|| MlError::Postprocess("SVD failed to produce U".to_string()))?;
    let v_t =
        svd.v_t.ok_or_else(|| MlError::Postprocess("SVD failed to produce V^T".to_string()))?;
    let singular = svd.singular_values;

    let rank = singular.iter().filter(|v| **v > 1e-6).count();
    let bases_agree = u.determinant() * v_t.transpose().determinant() > 0.0;
    let signs = correct_reflection(rank, mirrors, bases_agree)?;

    let r = u * Matrix2::new(1.0, 0.0, 0.0, f32::from(signs.rotation)) * v_t;
    let scale = if src_var <= f32::EPSILON {
        1.0
    } else {
        (singular[0] + singular[1] * f32::from(signs.scale)) / src_var
    };
    let translation = dst_mean - (r * src_mean) * scale;
    let r_scaled = r * scale;
    let size = if scale.abs() <= f32::EPSILON { 1.0 } else { 1.0 / scale };
    let rotation = r[(1, 0)].atan2(r[(0, 0)]);
    let center = src_mean - (dst_mean - Vector2::new(0.5, 0.5)) * size;

    Ok(Alignment {
        affine_matrix: [
            [r_scaled[(0, 0)], r_scaled[(0, 1)], translation[0]],
            [r_scaled[(1, 0)], r_scaled[(1, 1)], translation[1]],
            [0.0, 0.0, 1.0],
        ],
        center: [center[0], center[1]],
        size,
        rotation,
        rotation_determinant: r.determinant(),
    })
}

fn warp(source: &RgbImage, affine_matrix: &[[f32; 3]; 3]) -> Result<RgbImage, MlError> {
    let mut transform = [0.0f32; 9];
    for row in 0..3 {
        for col in 0..3 {
            let value = affine_matrix[row][col];
            if !value.is_finite() {
                return Err(MlError::Postprocess("non-finite affine matrix".to_string()));
            }
            transform[3 * row + col] = if (value - 1.0).abs() <= f32::EPSILON {
                1.0
            } else {
                value * FACE_SIZE as f32
            };
        }
    }
    let projection = Projection::from_matrix(transform)
        .ok_or_else(|| MlError::Postprocess("invalid affine matrix projection".to_string()))?;
    let fill = Rgb([FILL_GRAY, FILL_GRAY, FILL_GRAY]);
    let canvas = decoded_from_rgb_image(face_canvas());
    let mut output = RgbImage::from_raw(canvas.width, canvas.height, canvas.rgb)
        .expect("a raster fits its buffer");
    warp_into(source, &projection, Interpolation::Bicubic, fill, &mut output);
    Ok(output)
}

fn landmarks(relative: [[f32; 2]; 5]) -> Result<FaceDetection, MlError> {
    let unit = f64::from(LANDMARK_UNIT);
    let mut keypoints = [[0i32; 2]; 5];
    for (fixed, point) in keypoints.iter_mut().zip(relative.iter()) {
        for axis in 0..2 {
            let steps = (f64::from(point[axis]) * unit).round();
            if !steps.is_finite() || steps < f64::from(i32::MIN) || steps > f64::from(i32::MAX) {
                return Err(MlError::Postprocess("landmark out of range".to_string()));
            }
            fixed[axis] = steps as i32;
        }
    }
    Ok(FaceDetection { keypoints })
}

fn relative(pixels: [[f64; 2]; 5], width: u32, height: u32) -> FaceDetection {
    landmarks(pixels.map(|p| [(p[0] / f64::from(width)) as f32, (p[1] / f64::from(height)) as f32]))
        .expect("landmarks near the photograph")
}

fn network_input(levels: &[i16]) -> Vec<f32> {
    levels
        .iter()
        .map(|level| {
            let sample = (*level + TENSOR_SCALE) / 2;
            f32::from(sample) / 127.5 - 1.0
        })
        .collect()
}

fn is_scaled_proper_rotation(m: &[[f32; 3]; 3]) -> bool {
    let s = (m[0][0] * m[0][0] + m[1][0] * m[1][0]).sqrt();
    (m[1][1] - m[0][0]).abs() <= 1e-3 * s
        && (m[0][1] + m[1][0]).abs() <= 1e-3 * s
        && m[0][0] * m[1][1] - m[0][1] * m[1][0] >= 0.0
}

fn near(value: f32, expected: f64) -> bool {
    (f64::from(value) - expected).abs() <= 1e-2 * (1.0 + expected.abs())
}

fn template_at(side: f64, left: f64, top: f64) -> [[f64; 2]; 5] {
    TEMPLATE.map(|p| {
        [
            p[0] as f64 / TEMPLATE_UNIT as f64 * side + left,
            p[1] as f64 / TEMPLATE_UNIT as f64 * side + top,
        ]
    })
}

fn shaded(width: u32, height: u32) -> DecodedImage {
    let mut rgb = Vec::new();
    for y in 0..height {
        for x in 0..width {
            rgb.extend_from_slice(&[(x / 2 + 20) as u8, (y / 2 + 130) as u8, ((x + y) / 4) as u8]);
        }
    }
    DecodedImage { width, height, rgb }
}

fn source_image(decoded: &DecodedImage) -> RgbImage {
    let raster = rgb_image_from_decoded(decoded).expect("the buffer holds the image");
    let parts = decoded_from_rgb_image(raster);
    RgbImage::from_raw(parts.width, parts.height, parts.rgb).expect("a raster fits its buffer")
}

#[test]
fn template_in_a_photograph_is_cut_out_upright() {
    let decoded = shaded(200, 200);
    let detection = relative(template_at(100.0, 50.0, 50.0), 200, 200);
    let absolute = to_absolute_detection(&detection, decoded.width, decoded.height);
    let alignment = estimate(&absolute).expect("the landmarks can be fitted");

    assert!(alignment.rotation.abs() < 1e-4);
    assert!((alignment.size - 100.0).abs() < 1e-2);
    assert!((alignment.rotation_determinant - 1.0).abs() < 1e-5);
    assert!((alignment.center[0] - 100.0).abs() < 1e-2);
    assert!((alignment.center[1] - 100.0).abs() < 1e-2);
    assert_eq!(alignment.affine_matrix[2], [0.0, 0.0, 1.0]);
    assert!((alignment.affine_matrix[0][0] - 0.01).abs() < 1e-6);
    assert!((alignment.affine_matrix[1][1] - 0.01).abs() < 1e-6);
    assert!(alignment.affine_matrix[0][1].abs() < 1e-6);
    assert!(alignment.affine_matrix[1][0].abs() < 1e-6);
    assert!((alignment.affine_matrix[0][2] + 0.5).abs() < 1e-4);
    assert!((alignment.affine_matrix[1][2] + 0.5).abs() < 1e-4);

    let warped = warp(&source_image(&decoded), &alignment.affine_matrix).expect("invertible");
    assert_eq!(warped.dimensions(), (112, 112));
    // The face is the square from (50, 50) to (150, 150), resized.
    for (x, y) in [(0u32, 0u32), (5, 5), (56, 56), (20, 90), (100, 17), (111, 111)] {
        let pixel = warped.get_pixel(x, y).0;
        assert_ne!(pixel, [FILL_GRAY; 3], "pixel ({x}, {y})");
        let source_x = 50.0 + f64::from(x) * 100.0 / 112.0;
        let source_y = 50.0 + f64::from(y) * 100.0 / 112.0;
        let expected =
            [source_x / 2.0 + 20.0, source_y / 2.0 + 130.0, (source_x + source_y) / 4.0];
        for channel in 0..3 {
            assert!(
                (f64::from(pixel[channel]) - expected[channel]).abs() <= 2.0,
                "pixel ({x}, {y}), channel {channel}: {} for {}",
                pixel[channel],
                expected[channel]
            );
        }
    }

    let (width, height) = warped.dimensions();
    let face = rgb_image_from_decoded(&DecodedImage { width, height, rgb: warped.into_raw() })
        .expect("the buffer holds the image");
    let tensor = normalize_face_rgb_for_mobilefacenet(&face);
    assert_eq!(tensor.len(), 112 * 112 * 3);
    assert!(tensor.iter().all(|entry| (-TENSOR_SCALE..=TENSOR_SCALE).contains(entry)));

    let direction = face_direction(&absolute);
    assert_eq!(direction, FaceDirection::Straight);
    let score = compute_blur_value(&face, direction);
    assert!(score.denominator > 0);
    // A smooth shading has next to no edges: it counts as blurred.
    assert!(score.numerator < u128::from(LAPLACIAN_HARD_THRESHOLD) * score.denominator);
}

#[test]
fn template_enlarged_fits_with_the_inverse_scale() {
    for (side, left, top, width, height) in
        [(112.0, 0.0, 0.0, 112u32, 112u32), (300.0, 20.0, 70.0, 640, 480), (41.5, 900.0, 3.25, 1000, 60)]
    {
        let detection = relative(template_at(side, left, top), width, height);
        let absolute = to_absolute_detection(&detection, width, height);
        let alignment = estimate(&absolute).expect("the landmarks can be fitted");
        assert!(alignment.rotation.abs() < 1e-3, "side {side}");
        assert!((f64::from(alignment.size) / side - 1.0).abs() < 1e-3, "side {side}");
        assert!((f64::from(alignment.affine_matrix[0][0]) * side - 1.0).abs() < 1e-3);
        assert!((f64::from(alignment.affine_matrix[1][1]) * side - 1.0).abs() < 1e-3);
        assert!((alignment.rotation_determinant - 1.0).abs() < 1e-4);
        assert!((f64::from(alignment.center[0]) - (left + side / 2.0)).abs() < side * 1e-3);
        assert!((f64::from(alignment.center[1]) - (top + side / 2.0)).abs() < side * 1e-3);
    }
}

#[test]
fn turned_template_fits_with_its_angle() {
    // The template of 100 pixels, turned by a quarter about (200, 200).
    let upright = template_at(100.0, 150.0, 150.0);
    let turned = upright.map(|p| [200.0 - (p[1] - 200.0), 200.0 + (p[0] - 200.0)]);
    let absolute = to_absolute_detection(&relative(turned, 400, 400), 400, 400);
    let alignment = estimate(&absolute).expect("the landmarks can be fitted");
    assert!((alignment.rotation + std::f32::consts::FRAC_PI_2).abs() < 1e-3);
    assert!((alignment.size - 100.0).abs() < 1e-1);
    assert!((alignment.rotation_determinant - 1.0).abs() < 1e-4);
}

#[test]
fn mirrored_template_still_fits_with_a_proper_rotation() {
    let mirrored = template_at(100.0, 50.0, 50.0).map(|p| [250.0 - p[0], p[1]]);
    let absolute = to_absolute_detection(&relative(mirrored, 300, 300), 300, 300);
    let alignment = estimate(&absolute).expect("the landmarks can be fitted");
    assert!((alignment.rotation_determinant - 1.0).abs() < 1e-4);
    assert!(alignment.size > 0.0);
}

#[test]
fn landmarks_in_general_position_fit_with_a_proper_rotation() {
    let points = [[31.0, 40.5], [80.25, 52.0], [49.0, 77.0], [35.5, 99.0], [70.0, 110.0]];
    let absolute = to_absolute_detection(&relative(points, 160, 120), 160, 120);
    let alignment = estimate(&absolute).expect("the landmarks can be fitted");
    assert!((alignment.rotation_determinant - 1.0).abs() < 1e-4);
    assert!(alignment.size.is_finite() && alignment.size > 0.0);
    assert_eq!(alignment.affine_matrix[2], [0.0, 0.0, 1.0]);
}

#[test]
fn fitted_matrix_is_a_scaled_proper_rotation() {
    let upright = template_at(100.0, 50.0, 50.0);
    let families: [(&str, [[f64; 2]; 5]); 8] = [
        ("upright", upright),
        ("mirrored", upright.map(|p| [250.0 - p[0], p[1]])),
        ("flipped", upright.map(|p| [p[0], 250.0 - p[1]])),
        ("turned", upright.map(|p| [200.0 - p[1], p[0]])),
        ("sheared", upright.map(|p| [p[0] + 0.7 * p[1], 0.4 * p[1]])),
        ("scattered", [[31.0, 40.5], [80.25, 52.0], [49.0, 77.0], [35.5, 99.0], [70.0, 110.0]]),
        ("on a line", [[10.0, 20.0], [20.0, 25.0], [30.0, 30.0], [40.0, 35.0], [50.0, 40.0]]),
        ("on a column", [[60.0, 10.0], [60.0, 20.0], [60.0, 45.0], [60.0, 70.0], [60.0, 90.0]]),
    ];
    for (name, points) in families {
        let absolute = to_absolute_detection(&relative(points, 400, 400), 400, 400);
        let alignment = estimate(&absolute).expect("the landmarks can be fitted");
        assert!(is_scaled_proper_rotation(&alignment.affine_matrix), "{name}");
        assert!((alignment.rotation_determinant - 1.0).abs() < 1e-3, "{name}");
        assert_eq!(alignment.affine_matrix[2], [0.0, 0.0, 1.0], "{name}");
    }
}

#[test]
fn template_enlarged_and_moved_fits_with_what_undoes_it() {
    for (k, ox, oy) in [
        (1.0, 0.0, 0.0),
        (1.0, 10000.0, -10000.0),
        (37.5, -10000.0, 2000.0),
        (112.0, 0.0, 0.0),
        (640.0, 123.0, 4567.0),
        (5000.0, -2500.0, 10000.0),
    ] {
        let points = template_at(k, ox, oy);
        let extent = 16384;
        let absolute = to_absolute_detection(&relative(points, extent, extent), extent, extent);
        let r = estimate(&absolute).expect("the landmarks can be fitted");
        let m = r.affine_matrix;
        assert!(r.rotation.abs() < 1e-2, "{k} at ({ox}, {oy})");
        assert!((f64::from(r.size) - k).abs() <= 1e-2 * k, "{k} at ({ox}, {oy})");
        assert!((f64::from(m[0][0]) * k - 1.0).abs() <= 1e-2, "{k} at ({ox}, {oy})");
        assert!((f64::from(m[1][1]) * k - 1.0).abs() <= 1e-2, "{k} at ({ox}, {oy})");
        assert!((f64::from(m[0][1]) * k).abs() <= 1e-2, "{k} at ({ox}, {oy})");
        assert!((f64::from(m[1][0]) * k).abs() <= 1e-2, "{k} at ({ox}, {oy})");
        assert!(near(m[0][2], -ox / k), "{k} at ({ox}, {oy}): {}", m[0][2]);
        assert!(near(m[1][2], -oy / k), "{k} at ({ox}, {oy}): {}", m[1][2]);
        assert!(near(r.center[0], ox + 0.5 * k), "{k} at ({ox}, {oy}): {}", r.center[0]);
        assert!(near(r.center[1], oy + 0.5 * k), "{k} at ({ox}, {oy}): {}", r.center[1]);
        assert!(is_scaled_proper_rotation(&m), "{k} at ({ox}, {oy})");
    }
}

#[test]
fn landmarks_that_are_no_numbers_fail_before_the_fit() {
    let fine = [[0.25f32, 0.25], [0.75, 0.25], [0.5, 0.5], [0.3, 0.75], [0.7, 0.75]];
    assert!(landmarks(fine).is_ok());
    for bad in [f32::NAN, f32::INFINITY, f32::NEG_INFINITY, 128.0, -128.5, f32::MAX] {
        for index in 0..5 {
            for axis in 0..2 {
                let mut points = fine;
                points[index][axis] = bad;
                assert!(matches!(landmarks(points), Err(MlError::Postprocess(_))), "{bad}");
            }
        }
    }
    let mut edge = fine;
    edge[0] = [-128.0, 127.99999];
    assert!(landmarks(edge).is_ok());
}

#[test]
fn matrix_that_is_not_finite_or_not_invertible_fails_in_the_warp() {
    let source = source_image(&shaded(64, 64));
    let fine = [[0.01, 0.0, -0.1], [0.0, 0.01, -0.1], [0.0, 0.0, 1.0]];
    assert!(warp(&source, &fine).is_ok());
    for bad in [f32::NAN, f32::INFINITY, f32::NEG_INFINITY] {
        for row in 0..3 {
            for col in 0..3 {
                let mut matrix = fine;
                matrix[row][col] = bad;
                match warp(&source, &matrix) {
                    Err(MlError::Postprocess(message)) => {
                        assert_eq!(message, "non-finite affine matrix");
                    }
                    _ => panic!("a matrix with {bad} was accepted"),
                }
            }
        }
    }
    let flat = [[0.0, 0.0, 0.5], [0.0, 0.0, 0.5], [0.0, 0.0, 1.0]];
    match warp(&source, &flat) {
        Err(MlError::Postprocess(message)) => {
            assert_eq!(message, "invalid affine matrix projection");
        }
        _ => panic!("a matrix without inverse was accepted"),
    }
}

#[test]
fn network_input_is_the_sample_over_127_5_less_one() {
    let mut rgb = Vec::new();
    for k in 0..(112 * 112 * 3) {
        rgb.push((k % 256) as u8);
    }
    let face = rgb_image_from_decoded(&DecodedImage { width: 112, height: 112, rgb })
        .expect("the buffer holds the image");
    let input = network_input(&normalize_face_rgb_for_mobilefacenet(&face));
    assert_eq!(input.len(), 112 * 112 * 3);
    for (k, value) in input.iter().enumerate() {
        let sample = (k % 256) as f32;
        assert_eq!(value.to_bits(), (sample / 127.5 - 1.0).to_bits(), "sample {sample}");
        assert!((-1.0..=1.0).contains(value));
    }
    assert_eq!(input[0], -1.0);
    assert_eq!(input[255], 1.0);
    assert!(input[127].abs() < 0.004 && input[128].abs() < 0.004);
}

#[test]
fn coinciding_landmarks_fail_in_the_fit() {
    for point in [[0.0, 0.0], [77.0, 31.0], [199.0, 199.0]] {
        let absolute = to_absolute_detection(&relative([point; 5], 200, 200), 200, 200);
        match estimate(&absolute) {
            Err(MlError::Postprocess(message)) => {
                assert_eq!(message, "failed to estimate similarity transform (rank=0)");
            }
            Err(other) => panic!("expected a postprocess failure, got {:?}", other),
            Ok(_) => panic!("coinciding landmarks were fitted"),
        }
    }
}

#[test]
fn photograph_with_a_short_buffer_fails_before_the_fit() {
    let mut decoded = shaded(200, 200);
    decoded.rgb.pop();
    assert!(matches!(rgb_image_from_decoded(&decoded), Err(MlError::Preprocess(_))));
}

#[test]
fn face_outside_the_photograph_is_filled_with_gray() {
    let decoded = shaded(200, 200);
    // The template's square lies left of and above the photograph.
    let detection = relative(template_at(100.0, -150.0, -150.0), 200, 200);
    let absolute = to_absolute_detection(&detection, decoded.width, decoded.height);
    let alignment = estimate(&absolute).expect("the landmarks can be fitted");
    let warped = warp(&source_image(&decoded), &alignment.affine_matrix).expect("invertible");
    assert!(warped.pixels().all(|pixel| pixel.0 == [FILL_GRAY; 3]));

    let (width, height) = warped.dimensions();
    let face = rgb_image_from_decoded(&DecodedImage { width, height, rgb: warped.into_raw() })
        .expect("the buffer holds the image");
    for pose in [FaceDirection::Straight, FaceDirection::Left, FaceDirection::Right] {
        assert_eq!(compute_blur_value(&face, pose).numerator, 0);
    }
    let tensor = normalize_face_rgb_for_mobilefacenet(&face);
    assert!(tensor.iter().all(|entry| *entry == 2 * i16::from(FILL_GRAY) - TENSOR_SCALE));
}
