//! The five landmarks of a face in fixed-point coordinates, their scaling to
//! pixels, and the pose that they show.

use vstd::prelude::*;

verus! {

/// What one unit of a relative coordinate is divided into: a relative
/// coordinate `n` stands for `n / LANDMARK_UNIT` of the image's extent, and
/// an absolute coordinate `n` for `n / LANDMARK_UNIT` pixels.
pub const LANDMARK_UNIT: i32 = 16_777_216;

/// Position of the left eye among the five landmarks.
pub const LEFT_EYE: usize = 0;

/// Position of the right eye among the five landmarks.
pub const RIGHT_EYE: usize = 1;

/// Position of the nose among the five landmarks.
pub const NOSE: usize = 2;

/// Position of the left mouth corner among the five landmarks.
pub const LEFT_MOUTH: usize = 3;

/// Position of the right mouth corner among the five landmarks.
pub const RIGHT_MOUTH: usize = 4;

/// The three poses that the sharpness score tells apart.
#[derive(Clone, Copy, Debug, PartialEq, Eq, Structural)]
pub enum FaceDirection {
    Left,
    Right,
    Straight,
}

/// The landmarks of a detected face, `[x, y]` each, relative to the image:
/// `0` is its left or upper edge, `LANDMARK_UNIT` its right or lower edge.
#[derive(Clone, Copy, Debug)]
pub struct FaceDetection {
    pub keypoints: [[i32; 2]; 5],
}

/// The landmarks of a detected face in pixels, `[x, y]` each, counted in
/// steps of `1 / LANDMARK_UNIT` of a pixel.
#[derive(Clone, Copy, Debug)]
pub struct AbsoluteLandmarks {
    pub keypoints: [[i64; 2]; 5],
}

/// Distance between two coordinates.
pub open spec fn span(a: int, b: int) -> int {
    if a >= b {
        a - b
    } else {
        b - a
    }
}

/// The larger of two coordinates.
pub open spec fn larger(a: int, b: int) -> int {
    if a >= b {
        a
    } else {
        b
    }
}

/// The smaller of two coordinates.
pub open spec fn smaller(a: int, b: int) -> int {
    if a <= b {
        a
    } else {
        b
    }
}

impl FaceDetection {
    /// Horizontal coordinate of landmark `i`.
    pub open spec fn x(self, i: int) -> int {
        self.keypoints[i][0] as int
    }

    /// Vertical coordinate of landmark `i`.
    pub open spec fn y(self, i: int) -> int {
        self.keypoints[i][1] as int
    }
}

impl AbsoluteLandmarks {
    /// Horizontal coordinate of landmark `i`.
    pub open spec fn x(self, i: int) -> int {
        self.keypoints[i][0] as int
    }

    /// Vertical coordinate of landmark `i`.
    pub open spec fn y(self, i: int) -> int {
        self.keypoints[i][1] as int
    }

    /// Both eyes lie above the nose by more than half their vertical span,
    /// and the nose above both mouth corners by more than half theirs.
    pub open spec fn is_upright(self) -> bool {
        &&& 2 * larger(self.y(LEFT_EYE as int), self.y(RIGHT_EYE as int)) + span(
            self.y(RIGHT_EYE as int),
            self.y(LEFT_EYE as int),
        ) < 2 * self.y(NOSE as int)
        &&& 2 * self.y(NOSE as int) + span(self.y(RIGHT_MOUTH as int), self.y(LEFT_MOUTH as int))
            < 2 * smaller(self.y(LEFT_MOUTH as int), self.y(RIGHT_MOUTH as int))
    }

    /// The nose lies left of both eyes and of both mouth corners.
    pub open spec fn nose_sticks_out_left(self) -> bool {
        &&& self.x(NOSE as int) < smaller(self.x(LEFT_EYE as int), self.x(RIGHT_EYE as int))
        &&& self.x(NOSE as int) < smaller(self.x(LEFT_MOUTH as int), self.x(RIGHT_MOUTH as int))
    }

    /// The nose lies right of both eyes and of both mouth corners.
    pub open spec fn nose_sticks_out_right(self) -> bool {
        &&& self.x(NOSE as int) > larger(self.x(LEFT_EYE as int), self.x(RIGHT_EYE as int))
        &&& self.x(NOSE as int) > larger(self.x(LEFT_MOUTH as int), self.x(RIGHT_MOUTH as int))
    }

    /// The nose is nearer to the eye `eye` than a fifth of the eyes'
    /// horizontal span.
    pub open spec fn nose_close_to(self, eye: int) -> bool {
        5 * span(self.x(NOSE as int), self.x(eye)) < span(
            self.x(RIGHT_EYE as int),
            self.x(LEFT_EYE as int),
        )
    }

    /// The pose of the face. Left is tried before right, so a nose that is
    /// close to both eyes of an upright face counts as turned left.
    pub open spec fn direction(self) -> FaceDirection {
        if self.nose_sticks_out_left() || (self.is_upright() && self.nose_close_to(
            LEFT_EYE as int,
        )) {
            FaceDirection::Left
        } else if self.nose_sticks_out_right() || (self.is_upright() && self.nose_close_to(
            RIGHT_EYE as int,
        )) {
            FaceDirection::Right
        } else {
            FaceDirection::Straight
        }
    }
}

fn scale(coordinate: i32, extent: u32) -> (scaled: i64)
    ensures
        scaled == coordinate * extent,
{
    assert(-0x8000_0000_0000_0000 <= coordinate * extent <= 0x7fff_ffff_ffff_ffff)
        by (nonlinear_arith)
        requires
            -0x8000_0000 <= coordinate <= 0x7fff_ffff,
            0 <= extent <= 0xffff_ffff,
    ;
    (coordinate as i64) * (extent as i64)
}

/// Scales relative landmarks to pixels: every `x` by the image's width,
/// every `y` by its height.
pub fn to_absolute_detection(
    detection: &FaceDetection,
    image_width: u32,
    image_height: u32,
) -> (absolute: AbsoluteLandmarks)
    ensures
        forall|i: int|
            0 <= i < 5 ==> #[trigger] absolute.x(i) == detection.x(i) * image_width
                && absolute.y(i) == detection.y(i) * image_height,
{
    let k = &detection.keypoints;
    AbsoluteLandmarks {
        keypoints: [
            [scale(k[0][0], image_width), scale(k[0][1], image_height)],
            [scale(k[1][0], image_width), scale(k[1][1], image_height)],
            [scale(k[2][0], image_width), scale(k[2][1], image_height)],
            [scale(k[3][0], image_width), scale(k[3][1], image_height)],
            [scale(k[4][0], image_width), scale(k[4][1], image_height)],
        ],
    }
}

fn distance(a: i64, b: i64) -> (d: i128)
    ensures
        d == span(a as int, b as int),
{
    if a >= b {
        a as i128 - b as i128
    } else {
        b as i128 - a as i128
    }
}

/// Classifies the pose of a face from its landmarks.
pub fn face_direction(detection: &AbsoluteLandmarks) -> (direction: FaceDirection)
    ensures
        direction == detection.direction(),
{
    let left_eye = detection.keypoints[LEFT_EYE];
    let right_eye = detection.keypoints[RIGHT_EYE];
    let nose = detection.keypoints[NOSE];
    let left_mouth = detection.keypoints[LEFT_MOUTH];
    let right_mouth = detection.keypoints[RIGHT_MOUTH];

    let eye_distance_x = distance(right_eye[0], left_eye[0]);
    let eye_distance_y = distance(right_eye[1], left_eye[1]);
    let mouth_distance_y = distance(right_mouth[1], left_mouth[1]);

    let lower_eye = if left_eye[1] >= right_eye[1] { left_eye[1] } else { right_eye[1] };
    let upper_mouth = if left_mouth[1] <= right_mouth[1] { left_mouth[1] } else { right_mouth[1] };
    let face_is_upright = 2 * (lower_eye as i128) + eye_distance_y < 2 * (nose[1] as i128)
        && 2 * (nose[1] as i128) + mouth_distance_y < 2 * (upper_mouth as i128);

    let nose_sticking_out_left = nose[0] < left_eye[0] && nose[0] < right_eye[0] && nose[0]
        < left_mouth[0] && nose[0] < right_mouth[0];
    let nose_sticking_out_right = nose[0] > left_eye[0] && nose[0] > right_eye[0] && nose[0]
        > left_mouth[0] && nose[0] > right_mouth[0];

    let nose_close_to_left_eye = 5 * distance(nose[0], left_eye[0]) < eye_distance_x;
    let nose_close_to_right_eye = 5 * distance(nose[0], right_eye[0]) < eye_distance_x;

    if nose_sticking_out_left || (face_is_upright && nose_close_to_left_eye) {
        FaceDirection::Left
    } else if nose_sticking_out_right || (face_is_upright && nose_close_to_right_eye) {
        FaceDirection::Right
    } else {
        FaceDirection::Straight
    }
}

/// A face whose eyes and whose mouth corners mirror each other about the
/// nose's column is classified as straight, upright or not.
pub proof fn lemma_mirrored_face_is_straight(face: AbsoluteLandmarks)
    requires
        face.x(LEFT_EYE as int) + face.x(RIGHT_EYE as int) == 2 * face.x(NOSE as int),
        face.x(LEFT_MOUTH as int) + face.x(RIGHT_MOUTH as int) == 2 * face.x(NOSE as int),
    ensures
        face.direction() == FaceDirection::Straight,
{
}

/// A nose to the left of both eyes and of both mouth corners makes a face
/// turned left, whatever else holds of it.
pub proof fn lemma_nose_left_of_face_is_left(face: AbsoluteLandmarks)
    requires
        face.x(NOSE as int) < face.x(LEFT_EYE as int),
        face.x(NOSE as int) < face.x(RIGHT_EYE as int),
        face.x(NOSE as int) < face.x(LEFT_MOUTH as int),
        face.x(NOSE as int) < face.x(RIGHT_MOUTH as int),
    ensures
        face.direction() == FaceDirection::Left,
{
}

proof fn lemma_scaled_order(k: int, a: int, b: int)
    by (nonlinear_arith)
    requires
        k > 0,
    ensures
        (k * a < k * b) == (a < b),
        (k * a <= k * b) == (a <= b),
        k * a - k * b == k * (a - b),
{
}

proof fn lemma_scaled_terms(k: int, a: int, b: int)
    requires
        k > 0,
    ensures
        span(k * a, k * b) == k * span(a, b),
        larger(k * a, k * b) == k * larger(a, b),
        smaller(k * a, k * b) == k * smaller(a, b),
{
    lemma_scaled_order(k, a, b);
    lemma_scaled_order(k, b, a);
}

proof fn lemma_scaled_sum(k: int, m: int, x: int, n: int, y: int)
    by (nonlinear_arith)
    ensures
        m * (k * x) + n * (k * y) == k * (m * x + n * y),
{
}

/// The pose does not depend on the unit that the coordinates are counted
/// in, nor on the extent of the image: enlarging every `x` by one positive
/// factor and every `y` by another leaves it as it is.
pub proof fn lemma_direction_ignores_scale(
    face: AbsoluteLandmarks,
    scaled: AbsoluteLandmarks,
    kx: int,
    ky: int,
)
    requires
        kx > 0,
        ky > 0,
        forall|i: int|
            0 <= i < 5 ==> #[trigger] scaled.x(i) == kx * face.x(i) && scaled.y(i) == ky * face.y(
                i,
            ),
    ensures
        scaled.is_upright() == face.is_upright(),
        scaled.nose_sticks_out_left() == face.nose_sticks_out_left(),
        scaled.nose_sticks_out_right() == face.nose_sticks_out_right(),
        scaled.nose_close_to(LEFT_EYE as int) == face.nose_close_to(LEFT_EYE as int),
        scaled.nose_close_to(RIGHT_EYE as int) == face.nose_close_to(RIGHT_EYE as int),
        scaled.direction() == face.direction(),
{
    let (lex, ley) = (face.x(0), face.y(0));
    let (rex, rey) = (face.x(1), face.y(1));
    let (nx, ny) = (face.x(2), face.y(2));
    let (lmx, lmy) = (face.x(3), face.y(3));
    let (rmx, rmy) = (face.x(4), face.y(4));
    assert(scaled.x(0) == kx * lex && scaled.y(0) == ky * ley);
    assert(scaled.x(1) == kx * rex && scaled.y(1) == ky * rey);
    assert(scaled.x(2) == kx * nx && scaled.y(2) == ky * ny);
    assert(scaled.x(3) == kx * lmx && scaled.y(3) == ky * lmy);
    assert(scaled.x(4) == kx * rmx && scaled.y(4) == ky * rmy);

    assert(scaled.is_upright() == face.is_upright()) by {
        lemma_scaled_terms(ky, ley, rey);
        lemma_scaled_terms(ky, rey, ley);
        lemma_scaled_terms(ky, lmy, rmy);
        lemma_scaled_terms(ky, rmy, lmy);
        lemma_scaled_sum(ky, 2, larger(ley, rey), 1, span(rey, ley));
        lemma_scaled_sum(ky, 2, ny, 0, 0);
        lemma_scaled_order(ky, 2 * larger(ley, rey) + span(rey, ley), 2 * ny);
        lemma_scaled_sum(ky, 2, ny, 1, span(rmy, lmy));
        lemma_scaled_sum(ky, 2, smaller(lmy, rmy), 0, 0);
        lemma_scaled_order(ky, 2 * ny + span(rmy, lmy), 2 * smaller(lmy, rmy));
    }
    assert(scaled.nose_sticks_out_left() == face.nose_sticks_out_left()
        && scaled.nose_sticks_out_right() == face.nose_sticks_out_right()) by {
        lemma_scaled_terms(kx, lex, rex);
        lemma_scaled_terms(kx, lmx, rmx);
        lemma_scaled_order(kx, nx, smaller(lex, rex));
        lemma_scaled_order(kx, nx, smaller(lmx, rmx));
        lemma_scaled_order(kx, larger(lex, rex), nx);
        lemma_scaled_order(kx, larger(lmx, rmx), nx);
    }
    assert(scaled.nose_close_to(LEFT_EYE as int) == face.nose_close_to(LEFT_EYE as int)
        && scaled.nose_close_to(RIGHT_EYE as int) == face.nose_close_to(RIGHT_EYE as int)) by {
        lemma_scaled_terms(kx, nx, lex);
        lemma_scaled_terms(kx, nx, rex);
        lemma_scaled_terms(kx, rex, lex);
        lemma_scaled_sum(kx, 5, span(nx, lex), 0, 0);
        lemma_scaled_sum(kx, 5, span(nx, rex), 0, 0);
        lemma_scaled_order(kx, 5 * span(nx, lex), span(rex, lex));
        lemma_scaled_order(kx, 5 * span(nx, rex), span(rex, lex));
    }
}

} // verus!
