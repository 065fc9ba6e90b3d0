use padtarust::keymap::{KEY_COUNT, KEY_F1, KEY_1, KEY_5, KEY_A, KEY_ESCAPE, KEY_R, KEY_W};
use padtarust::{FrameInput, KeyboardAction, Keymap, KeymapState, Layer, Mapping};

fn idle() -> FrameInput {
    FrameInput {
        keys: [false; KEY_COUNT],
        joy_button: false,
        scroll_button: false,
        rotary_a: false,
        rotary_b: false,
        joy_x: 512,
        joy_y: 512,
    }
}

fn pressing(keys: &[usize]) -> FrameInput {
    let mut input = idle();
    for &k in keys {
        input.keys[k] = true;
    }
    input
}

#[test]
fn idle_frame_reports_position_and_nothing_else() {
    let km = Keymap::default();
    let mut state = KeymapState::default();
    let frame = state.update(&idle(), &km);
    assert_eq!(frame.report.keycodes, [0u8; 26]);
    assert_eq!(frame.report.mouse_buttons, 0);
    assert_eq!(frame.report.joy_buttons, 0);
    assert_eq!(frame.report.consumer_keycode, 0);
    assert_eq!(frame.report.wheel, 0);
    assert_eq!(frame.report.modifier, 0);
    assert_eq!((frame.report.x, frame.report.y), (512, 512));
    assert_eq!(state, KeymapState::default());
}

#[test]
fn keys_are_reported_in_scan_order() {
    let km = Keymap::default();
    let mut state = KeymapState::default();
    let frame = state.update(&pressing(&[9, 0, 1]), &km);
    assert_eq!(&frame.report.keycodes[..4], &[KEY_ESCAPE, KEY_1, KEY_R, 0]);
}

#[test]
fn transparent_binding_falls_through_to_lower_layer() {
    let km = Keymap::default();
    let mut state = KeymapState::default();
    // the last key sets layer one, where key nine is transparent
    state.update(&pressing(&[20]), &km);
    assert_eq!(state.stored_layer, Layer::One);
    let frame = state.update(&pressing(&[9, 1]), &km);
    assert_eq!(&frame.report.keycodes[..3], &[KEY_F1, KEY_R, 0]);
}

#[test]
fn momentary_layer_lasts_one_frame() {
    let km = Keymap::default();
    let mut state = KeymapState::default();
    state.update(&pressing(&[20]), &km);
    // on layer one, space holds layer two, where key one sends 5
    let held = state.update(&pressing(&[19, 1]), &km);
    assert_eq!(state.current_layer, Layer::Two);
    assert_eq!(state.stored_layer, Layer::One);
    assert_eq!(&held.report.keycodes[..2], &[KEY_5, 0]);
    let released = state.update(&pressing(&[1]), &km);
    assert_eq!(state.current_layer, Layer::One);
    assert_eq!(&released.report.keycodes[..2], &[KEY_F1, 0]);
}

#[test]
fn set_layer_persists_until_changed() {
    let km = Keymap::default();
    let mut state = KeymapState::default();
    state.update(&pressing(&[20]), &km);
    state.update(&idle(), &km);
    assert_eq!(state.current_layer, Layer::One);
    state.update(&pressing(&[20]), &km);
    assert_eq!(state.stored_layer, Layer::Zero);
    assert_eq!(state.current_layer, Layer::Zero);
}

#[test]
fn first_layer_change_in_scan_order_wins() {
    let mut km = Keymap::default();
    km.key_mappings[2][0] = Mapping::action(KeyboardAction::LayerMomentary(Layer::Two));
    km.key_mappings[3][0] = Mapping::action(KeyboardAction::LayerSet(Layer::Three));
    km.key_mappings[4][0] = Mapping::action(KeyboardAction::LayerSet(Layer::One));
    let mut state = KeymapState::default();
    let frame = state.update(&pressing(&[4, 3, 2, 1]), &km);
    assert_eq!(state.current_layer, Layer::Two);
    assert_eq!(state.stored_layer, Layer::Zero);
    assert_eq!(frame.diagnostics.layer_conflicts, 2);
    // on layer two keys one to four send 5 to 8
    assert_eq!(&frame.report.keycodes[..5], &[KEY_5, 0x23, 0x24, 0x25, 0]);
}

#[test]
fn first_set_layer_wins_over_later_momentary() {
    let mut km = Keymap::default();
    km.key_mappings[2][0] = Mapping::action(KeyboardAction::LayerSet(Layer::Three));
    km.key_mappings[3][0] = Mapping::action(KeyboardAction::LayerMomentary(Layer::Two));
    let mut state = KeymapState::default();
    let frame = state.update(&pressing(&[2, 3]), &km);
    assert_eq!(state.current_layer, Layer::Three);
    assert_eq!(state.stored_layer, Layer::Three);
    assert_eq!(frame.diagnostics.layer_conflicts, 1);
}

#[test]
fn first_mode_change_wins() {
    let mut km = Keymap::default();
    km.key_mappings[2][0] = Mapping::action(KeyboardAction::WasdModeOn);
    km.key_mappings[3][0] = Mapping::action(KeyboardAction::WasdModeOff);
    km.key_mappings[4][0] = Mapping::action(KeyboardAction::WasdModeToggle);
    let mut state = KeymapState::default();
    let frame = state.update(&pressing(&[3, 2, 4]), &km);
    assert!(state.wasd_mode);
    assert_eq!(frame.diagnostics.mode_conflicts, 2);
    assert_eq!(frame.diagnostics.layer_conflicts, 0);
}

#[test]
fn stick_presses_direction_keys_in_wasd_mode() {
    let km = Keymap::default();
    let mut state = KeymapState::default();
    state.update(&pressing(&[20]), &km);
    // key zero toggles the stick mode on layer one
    state.update(&pressing(&[0]), &km);
    assert!(state.wasd_mode);
    let mut input = pressing(&[9]);
    input.joy_y = 700;
    input.joy_x = 300;
    let frame = state.update(&input, &km);
    assert_eq!(&frame.report.keycodes[..4], &[KEY_W, KEY_A, KEY_R, 0]);
    assert_eq!((frame.report.x, frame.report.y), (0, 0));
}

#[test]
fn stick_inside_deadzone_presses_nothing() {
    let mut km = Keymap::default();
    km.key_mappings[2][0] = Mapping::action(KeyboardAction::WasdModeOn);
    let mut state = KeymapState::default();
    state.update(&pressing(&[2]), &km);
    let mut input = idle();
    input.joy_x = 512 + 64;
    input.joy_y = 512 - 64;
    let frame = state.update(&input, &km);
    assert_eq!(frame.report.keycodes, [0u8; 26]);
}

#[test]
fn mouse_left_and_scroll_click_give_five() {
    let mut km = Keymap::default();
    km.joy_button_mappings[0] = Mapping::action(KeyboardAction::MouseLeftButton);
    let mut state = KeymapState::default();
    let mut input = idle();
    input.joy_button = true;
    input.scroll_button = true;
    let frame = state.update(&input, &km);
    assert_eq!(frame.report.mouse_buttons, 5);
    assert_eq!(frame.report.joy_buttons, 0);
}

#[test]
fn joystick_button_sets_joy_buttons() {
    let km = Keymap::default();
    let mut state = KeymapState::default();
    let mut input = idle();
    input.joy_button = true;
    let frame = state.update(&input, &km);
    assert_eq!(frame.report.joy_buttons, 1);
    assert_eq!(frame.report.mouse_buttons, 0);
}

#[test]
fn rotary_rise_with_phase_b_high_steps_once() {
    let km = Keymap::default();
    let mut state = KeymapState::default();
    let mut input = idle();
    input.rotary_a = true;
    input.rotary_b = true;
    let first = state.update(&input, &km);
    assert_eq!(first.report.wheel, 1);
    let second = state.update(&input, &km);
    assert_eq!(second.report.wheel, 0);
}

#[test]
fn rotary_rise_with_phase_b_low_steps_down() {
    let km = Keymap::default();
    let mut state = KeymapState::default();
    let mut input = idle();
    input.rotary_a = true;
    let frame = state.update(&input, &km);
    assert_eq!(frame.report.wheel, -1);
    input.rotary_a = false;
    let fall = state.update(&input, &km);
    assert_eq!(fall.report.wheel, 1);
}

#[test]
fn consumer_first_wins_with_diagnostic() {
    let km = Keymap::default();
    let mut state = KeymapState::default();
    state.update(&pressing(&[20]), &km);
    // on layer one keys five and six send mute and volume up
    let frame = state.update(&pressing(&[6, 5]), &km);
    assert_eq!(frame.report.consumer_keycode, 0xe2);
    assert_eq!(frame.diagnostics.consumer_conflicts, 1);
}

#[test]
fn rotated_stick_position_is_held_to_axis_range() {
    let mut km = Keymap::default();
    km.stick.rotation_deg = 90;
    km.stick.cos_q14 = 0;
    km.stick.sin_q14 = 16384;
    let mut state = KeymapState::default();
    let mut input = idle();
    input.joy_x = 100;
    input.joy_y = 900;
    let frame = state.update(&input, &km);
    // rotated raw samples are (900, -100), then put back around the center
    assert_eq!((frame.report.x, frame.report.y), (1412, 412));
    input.joy_x = 700;
    input.joy_y = 0;
    let clipped = state.update(&input, &km);
    assert_eq!((clipped.report.x, clipped.report.y), (512, 0));
}

#[test]
fn default_keymap_resolves_every_control_on_layer_zero() {
    let km = Keymap::default();
    for c in 0..padtarust::keymap::CONTROL_COUNT {
        assert_ne!(km.control_table(c)[0].action, KeyboardAction::Transparent);
    }
    for row in km.wasd_mappings.iter() {
        assert_ne!(row[0].action, KeyboardAction::Transparent);
    }
    assert_eq!(km.stick.rotation_deg, 0);
    assert_eq!((km.stick.x_center, km.stick.y_center), (512, 512));
}
