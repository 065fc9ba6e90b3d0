//! The analog stick: calibration, rotation, and the directions it presses
//! when it emulates keys.
use vstd::prelude::*;

verus! {

/// Fixed-point one for the rotation factors: a factor `f` stands for
/// `f / ROTATION_ONE`.
pub const ROTATION_ONE: i64 = 16384;

/// Rows of the direction table used while the stick emulates keys.
pub const DIRECTION_UP: usize = 0;

pub const DIRECTION_DOWN: usize = 1;

pub const DIRECTION_LEFT: usize = 2;

pub const DIRECTION_RIGHT: usize = 3;

/// Number of rows in the direction table.
pub const DIRECTION_COUNT: usize = 4;

/// How the stick sits in its housing.
#[derive(Clone, Copy, Debug, PartialEq, Eq, Structural)]
pub struct StickCalibration {
    /// Sample that the resting stick reads on each axis.
    pub x_center: u16,
    pub y_center: u16,
    /// Rotation of the stick's axes, in degrees; zero means none.
    pub rotation_deg: i16,
    /// Cosine and sine of `rotation_deg`, in units of `1 / ROTATION_ONE`.
    pub cos_q14: i32,
    pub sin_q14: i32,
    /// Distance from the center within which the stick presses no direction.
    pub x_deadzone: u16,
    pub y_deadzone: u16,
}

/// Division rounding toward zero, as integer casts of a quotient do.
pub open spec fn div_toward_zero(n: int, d: int) -> int
    recommends
        d > 0,
{
    if n >= 0 {
        n / d
    } else {
        -((-n) / d)
    }
}

/// The stick's centered coordinates. Without rotation they are the samples
/// less the center. With rotation the raw samples themselves are rotated,
/// and the result is taken as already centered.
pub open spec fn centered(cal: StickCalibration, raw_x: u16, raw_y: u16) -> (int, int) {
    if cal.rotation_deg == 0 {
        (raw_x - cal.x_center, raw_y - cal.y_center)
    } else {
        (
            div_toward_zero(raw_x * cal.cos_q14 + raw_y * cal.sin_q14, ROTATION_ONE as int),
            div_toward_zero(raw_y * cal.cos_q14 - raw_x * cal.sin_q14, ROTATION_ONE as int),
        )
    }
}

/// The stick's position on the report's scale: centered coordinates put
/// back around the center.
pub open spec fn position(cal: StickCalibration, raw_x: u16, raw_y: u16) -> (int, int) {
    let c = centered(cal, raw_x, raw_y);
    (c.0 + cal.x_center, c.1 + cal.y_center)
}

/// A coordinate as a report axis, held to the axis's range.
pub open spec fn axis_value(v: int) -> u16 {
    if v < 0 {
        0
    } else if v > u16::MAX {
        u16::MAX
    } else {
        v as u16
    }
}

/// The direction row pressed on the vertical axis, if any.
pub open spec fn vertical_direction(cal: StickCalibration, pos_y: int) -> Option<usize> {
    if pos_y > cal.y_center + cal.y_deadzone {
        Some(DIRECTION_UP)
    } else if pos_y < cal.y_center - cal.y_deadzone {
        Some(DIRECTION_DOWN)
    } else {
        None
    }
}

/// The direction row pressed on the horizontal axis, if any.
pub open spec fn horizontal_direction(cal: StickCalibration, pos_x: int) -> Option<usize> {
    if pos_x < cal.x_center - cal.x_deadzone {
        Some(DIRECTION_LEFT)
    } else if pos_x > cal.x_center + cal.x_deadzone {
        Some(DIRECTION_RIGHT)
    } else {
        None
    }
}

fn div_toward_zero_by_one(n: i64) -> (r: i64)
    ensures
        r == div_toward_zero(n as int, ROTATION_ONE as int),
        -0x2_0000_0000_0000 <= n <= 0x2_0000_0000_0000 ==> -0x1_0000_0000_0000 <= r
            <= 0x1_0000_0000_0000,
{
    if n >= 0 {
        n / ROTATION_ONE
    } else if n == i64::MIN {
        proof {
            assert(-(i64::MIN as int) / (ROTATION_ONE as int) == 562949953421312);
        }
        -562949953421312
    } else {
        -((-n) / ROTATION_ONE)
    }
}

/// `a * fa + b * fb` over a stick sample pair and two rotation factors.
fn weighted_sum(a: u16, fa: i64, b: u16, fb: i64) -> (r: i64)
    requires
        -0x1_0000_0000 <= fa <= 0x1_0000_0000,
        -0x1_0000_0000 <= fb <= 0x1_0000_0000,
    ensures
        r == a * fa + b * fb,
        -0x2_0000_0000_0000 <= r <= 0x2_0000_0000_0000,
{
    proof {
        assert(-0x1_0000_0000_0000 <= a * fa <= 0x1_0000_0000_0000) by (nonlinear_arith)
            requires
                a <= 0xffff,
                -0x1_0000_0000 <= fa <= 0x1_0000_0000,
        ;
        assert(-0x1_0000_0000_0000 <= b * fb <= 0x1_0000_0000_0000) by (nonlinear_arith)
            requires
                b <= 0xffff,
                -0x1_0000_0000 <= fb <= 0x1_0000_0000,
        ;
    }
    (a as i64) * fa + (b as i64) * fb
}

/// The centered coordinates of a pair of raw samples.
pub fn stick_transform(cal: &StickCalibration, raw_x: u16, raw_y: u16) -> (r: (i64, i64))
    ensures
        r.0 == centered(*cal, raw_x, raw_y).0,
        r.1 == centered(*cal, raw_x, raw_y).1,
        cal.rotation_deg == 0 ==> r.0 == raw_x - cal.x_center && r.1 == raw_y - cal.y_center,
        -0x1_0000_0000_0000 <= r.0 <= 0x1_0000_0000_0000,
        -0x1_0000_0000_0000 <= r.1 <= 0x1_0000_0000_0000,
{
    if cal.rotation_deg == 0 {
        (raw_x as i64 - cal.x_center as i64, raw_y as i64 - cal.y_center as i64)
    } else {
        let cos = cal.cos_q14 as i64;
        let sin = cal.sin_q14 as i64;
        let x = weighted_sum(raw_x, cos, raw_y, sin);
        let y = weighted_sum(raw_y, cos, raw_x, -sin);
        proof {
            assert(raw_x * (-sin) == -(raw_x * sin)) by (nonlinear_arith);
        }
        (div_toward_zero_by_one(x), div_toward_zero_by_one(y))
    }
}

/// The position of a pair of raw samples on the report's scale.
pub fn stick_position(cal: &StickCalibration, raw_x: u16, raw_y: u16) -> (r: (i64, i64))
    ensures
        r.0 == position(*cal, raw_x, raw_y).0,
        r.1 == position(*cal, raw_x, raw_y).1,
{
    let (x, y) = stick_transform(cal, raw_x, raw_y);
    (x + cal.x_center as i64, y + cal.y_center as i64)
}

/// A coordinate held to the range of a report axis.
pub fn axis_from(v: i64) -> (r: u16)
    ensures
        r == axis_value(v as int),
{
    if v < 0 {
        0
    } else if v > u16::MAX as i64 {
        u16::MAX
    } else {
        v as u16
    }
}

/// The rows of the direction table that the stick presses at a position:
/// at most one per axis.
pub fn stick_directions(cal: &StickCalibration, pos_x: i64, pos_y: i64) -> (r: (
    Option<usize>,
    Option<usize>,
))
    ensures
        r.0 == vertical_direction(*cal, pos_y as int),
        r.1 == horizontal_direction(*cal, pos_x as int),
{
    let y_center = cal.y_center as i64;
    let x_center = cal.x_center as i64;
    let vertical = if pos_y > y_center + cal.y_deadzone as i64 {
        Some(DIRECTION_UP)
    } else if pos_y < y_center - cal.y_deadzone as i64 {
        Some(DIRECTION_DOWN)
    } else {
        None
    };
    let horizontal = if pos_x < x_center - cal.x_deadzone as i64 {
        Some(DIRECTION_LEFT)
    } else if pos_x > x_center + cal.x_deadzone as i64 {
        Some(DIRECTION_RIGHT)
    } else {
        None
    };
    (vertical, horizontal)
}

/// Without rotation the transform is plain centering: each coordinate is the
/// sample less that axis's center, and the position is the sample itself.
pub proof fn lemma_unrotated_is_centering(cal: StickCalibration, raw_x: u16, raw_y: u16)
    requires
        cal.rotation_deg == 0,
    ensures
        centered(cal, raw_x, raw_y) == (raw_x - cal.x_center, raw_y - cal.y_center),
        position(cal, raw_x, raw_y) == (raw_x as int, raw_y as int),
{
}

} // verus!
