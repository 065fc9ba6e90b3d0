use padtarust::mapping::collapse_mapping;
use padtarust::stick::{
    axis_from, stick_directions, stick_position, stick_transform, DIRECTION_DOWN, DIRECTION_LEFT,
    DIRECTION_RIGHT, DIRECTION_UP, ROTATION_ONE,
};
use padtarust::{KeyboardAction, Layer, Mapping, StickCalibration};

fn calibration(rotation_deg: i16) -> StickCalibration {
    let rads = (rotation_deg as f32).to_radians();
    StickCalibration {
        x_center: 500,
        y_center: 520,
        rotation_deg,
        cos_q14: (rads.cos() * ROTATION_ONE as f32).round() as i32,
        sin_q14: (rads.sin() * ROTATION_ONE as f32).round() as i32,
        x_deadzone: 30,
        y_deadzone: 40,
    }
}

#[test]
fn unrotated_transform_is_centering() {
    let cal = calibration(0);
    for &(x, y) in &[(0u16, 0u16), (500, 520), (1023, 1023), (17, 900), (u16::MAX, 3)] {
        assert_eq!(stick_transform(&cal, x, y), (x as i64 - 500, y as i64 - 520));
        assert_eq!(stick_position(&cal, x, y), (x as i64, y as i64));
    }
}

#[test]
fn rotation_applies_to_raw_samples() {
    let cal = calibration(90);
    assert_eq!((cal.cos_q14, cal.sin_q14), (0, 16384));
    assert_eq!(stick_transform(&cal, 100, 200), (200, -100));
    assert_eq!(stick_position(&cal, 100, 200), (700, 420));
    let half = calibration(180);
    assert_eq!(stick_transform(&half, 300, 40), (-300, -40));
}

#[test]
fn rotated_coordinates_round_toward_zero() {
    let cal = StickCalibration {
        x_center: 0,
        y_center: 0,
        rotation_deg: 45,
        cos_q14: 11585,
        sin_q14: 11585,
        x_deadzone: 0,
        y_deadzone: 0,
    };
    // 10 * 11585 / 16384 = 7.07..; the other axis is 0
    assert_eq!(stick_transform(&cal, 10, 0), (7, -7));
    assert_eq!(stick_transform(&cal, 0, 10), (7, 7));
}

#[test]
fn axis_is_held_to_report_range() {
    assert_eq!(axis_from(-5), 0);
    assert_eq!(axis_from(0), 0);
    assert_eq!(axis_from(1023), 1023);
    assert_eq!(axis_from(65535), 65535);
    assert_eq!(axis_from(70000), 65535);
}

#[test]
fn directions_leave_the_deadzone_out() {
    let cal = calibration(0);
    assert_eq!(stick_directions(&cal, 500, 520), (None, None));
    assert_eq!(stick_directions(&cal, 470, 560), (None, None));
    assert_eq!(stick_directions(&cal, 530, 480), (None, None));
    assert_eq!(stick_directions(&cal, 469, 561), (Some(DIRECTION_UP), Some(DIRECTION_LEFT)));
    assert_eq!(stick_directions(&cal, 531, 479), (Some(DIRECTION_DOWN), Some(DIRECTION_RIGHT)));
}

#[test]
fn collapse_walks_down_past_transparent_layers() {
    let t = Mapping::transparent();
    let table = [Mapping::key(4), Mapping::key(5), t, t];
    assert_eq!(collapse_mapping(&table, Layer::Three), Mapping::key(5));
    assert_eq!(collapse_mapping(&table, Layer::Two), Mapping::key(5));
    assert_eq!(collapse_mapping(&table, Layer::One), Mapping::key(5));
    assert_eq!(collapse_mapping(&table, Layer::Zero), Mapping::key(4));
    let gap = [Mapping::key(4), t, Mapping::key(6), t];
    assert_eq!(collapse_mapping(&gap, Layer::One), Mapping::key(4));
    assert_eq!(collapse_mapping(&gap, Layer::Three), Mapping::key(6));
}

#[test]
fn collapse_stops_at_transparent_layer_zero() {
    let t = Mapping::transparent();
    let table = [t; 4];
    assert_eq!(collapse_mapping(&table, Layer::Three), t);
    assert_eq!(collapse_mapping(&table, Layer::Zero).action, KeyboardAction::Transparent);
}

#[test]
fn layer_indices_follow_table_order() {
    assert_eq!(Layer::Zero.index(), 0);
    assert_eq!(Layer::One.index(), 1);
    assert_eq!(Layer::Two.index(), 2);
    assert_eq!(Layer::Three.index(), 3);
}

#[test]
fn state_actions_are_recognised() {
    assert!(Mapping::action(KeyboardAction::LayerSet(Layer::One)).affects_state());
    assert!(Mapping::action(KeyboardAction::LayerMomentary(Layer::Two)).affects_state());
    assert!(Mapping::action(KeyboardAction::WasdModeToggle).affects_state());
    assert!(!Mapping::action(KeyboardAction::MouseLeftButton).affects_state());
    assert!(!Mapping::key(4).affects_state());
}
