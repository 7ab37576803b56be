use gamepad_control::dualsense_state::{
    BUTTON_COUNT, CIRCLE, CROSS, D_PAD_DOWN, D_PAD_LEFT, D_PAD_RIGHT, D_PAD_UP, L1, L2, PS, R1, R2,
    SELECT, SQUARE, START, TRIANGLE,
};
use gamepad_control::p9n_interface::{InputSnapshot, PlaystationInterface, SnapshotError, AXIS_UNIT};
use gamepad_control::ps5_dualsense::{
    AXIS_DPAD_X, AXIS_DPAD_Y, AXIS_L2, AXIS_R2, BUTTON_CIRCLE, BUTTON_CROSS, BUTTON_L1, BUTTON_L2,
    BUTTON_PS, BUTTON_R1, BUTTON_R2, BUTTON_SELECT, BUTTON_SQUARE, BUTTON_START, BUTTON_TRIANGLE,
    RAW_AXIS_COUNT, RAW_BUTTON_COUNT,
};

fn frame(pressed: &[usize], axes: &[(usize, i32)]) -> PlaystationInterface {
    let mut buttons = vec![false; RAW_BUTTON_COUNT];
    for &b in pressed {
        buttons[b] = true;
    }
    let mut readings = vec![0i32; RAW_AXIS_COUNT];
    for &(a, v) in axes {
        readings[a] = v;
    }
    PlaystationInterface::new(InputSnapshot::new(buttons, readings).unwrap())
}

#[test]
fn snapshot_keeps_raw_contents() {
    let mut buttons = vec![false; RAW_BUTTON_COUNT];
    buttons[BUTTON_CIRCLE] = true;
    let mut axes = vec![0i32; RAW_AXIS_COUNT];
    axes[AXIS_R2] = -250;
    let s = InputSnapshot::new(buttons, axes).unwrap();
    assert_eq!(s.button_len(), RAW_BUTTON_COUNT);
    assert_eq!(s.axis_len(), RAW_AXIS_COUNT);
    assert!(s.raw_button(BUTTON_CIRCLE));
    assert!(!s.raw_button(BUTTON_CROSS));
    assert_eq!(s.raw_axis(AXIS_R2), -250);
    assert_eq!(s.raw_axis(AXIS_L2), 0);
}

#[test]
fn snapshot_with_too_few_buttons_is_refused() {
    let r = InputSnapshot::new(vec![false; RAW_BUTTON_COUNT - 1], vec![0; RAW_AXIS_COUNT]);
    assert_eq!(r.err(), Some(SnapshotError::MissingButtons));
}

#[test]
fn snapshot_with_too_few_axes_is_refused() {
    let r = InputSnapshot::new(vec![false; RAW_BUTTON_COUNT], vec![0; RAW_AXIS_COUNT - 1]);
    assert_eq!(r.err(), Some(SnapshotError::MissingAxes));
}

#[test]
fn missing_buttons_are_reported_before_missing_axes() {
    let r = InputSnapshot::new(Vec::new(), Vec::new());
    assert_eq!(r.err(), Some(SnapshotError::MissingButtons));
}

#[test]
fn snapshot_names_the_first_reading_out_of_range() {
    let mut axes = vec![0i32; RAW_AXIS_COUNT];
    axes[3] = AXIS_UNIT + 1;
    axes[5] = -AXIS_UNIT - 1;
    let r = InputSnapshot::new(vec![false; RAW_BUTTON_COUNT], axes);
    assert_eq!(r.err(), Some(SnapshotError::AxisOutOfRange(3)));
}

#[test]
fn readings_at_both_ends_of_the_range_are_accepted() {
    let mut axes = vec![0i32; RAW_AXIS_COUNT];
    axes[0] = AXIS_UNIT;
    axes[1] = -AXIS_UNIT;
    assert!(InputSnapshot::new(vec![false; RAW_BUTTON_COUNT], axes).is_ok());
}

#[test]
fn longer_frames_are_accepted() {
    let r = InputSnapshot::new(vec![true; RAW_BUTTON_COUNT + 2], vec![0; RAW_AXIS_COUNT + 1]);
    let s = r.unwrap();
    assert_eq!(s.button_len(), RAW_BUTTON_COUNT + 2);
    assert_eq!(s.axis_len(), RAW_AXIS_COUNT + 1);
}

#[test]
fn dpad_left_is_a_positive_horizontal_reading() {
    let p = frame(&[], &[(AXIS_DPAD_X, AXIS_UNIT)]);
    assert!(p.pressed_dpad_left());
    assert!(!p.pressed_dpad_right());
    assert!(!p.pressed_dpad_up());
    assert!(!p.pressed_dpad_down());
}

#[test]
fn dpad_right_is_a_negative_horizontal_reading() {
    let p = frame(&[], &[(AXIS_DPAD_X, -AXIS_UNIT)]);
    assert!(p.pressed_dpad_right());
    assert!(!p.pressed_dpad_left());
}

#[test]
fn dpad_up_is_a_positive_vertical_reading() {
    let p = frame(&[], &[(AXIS_DPAD_Y, 1)]);
    assert!(p.pressed_dpad_up());
    assert!(!p.pressed_dpad_down());
    assert!(!p.pressed_dpad_left());
    assert!(!p.pressed_dpad_right());
}

#[test]
fn dpad_down_is_a_negative_vertical_reading() {
    let p = frame(&[], &[(AXIS_DPAD_Y, -1)]);
    assert!(p.pressed_dpad_down());
    assert!(!p.pressed_dpad_up());
}

#[test]
fn centred_dpad_holds_no_direction() {
    let p = frame(&[], &[]);
    assert!(!p.pressed_dpad_left());
    assert!(!p.pressed_dpad_right());
    assert!(!p.pressed_dpad_up());
    assert!(!p.pressed_dpad_down());
}

#[test]
fn dpad_directions_of_one_axis_exclude_each_other() {
    for x in [-AXIS_UNIT, -1, 0, 1, AXIS_UNIT] {
        for y in [-AXIS_UNIT, -1, 0, 1, AXIS_UNIT] {
            let p = frame(&[], &[(AXIS_DPAD_X, x), (AXIS_DPAD_Y, y)]);
            assert!(!(p.pressed_dpad_left() && p.pressed_dpad_right()));
            assert!(!(p.pressed_dpad_up() && p.pressed_dpad_down()));
        }
    }
}

#[test]
fn each_logical_button_reads_its_own_flag() {
    let pairs = [
        (SQUARE, BUTTON_SQUARE),
        (CIRCLE, BUTTON_CIRCLE),
        (TRIANGLE, BUTTON_TRIANGLE),
        (CROSS, BUTTON_CROSS),
        (L1, BUTTON_L1),
        (L2, BUTTON_L2),
        (R1, BUTTON_R1),
        (R2, BUTTON_R2),
        (START, BUTTON_START),
        (SELECT, BUTTON_SELECT),
        (PS, BUTTON_PS),
    ];
    for &(logical, raw) in pairs.iter() {
        let p = frame(&[raw], &[]);
        for &(other, _) in pairs.iter() {
            assert_eq!(p.is_held(other), other == logical);
        }
    }
}

#[test]
fn is_held_reads_dpad_directions_off_the_axes() {
    let p = frame(&[], &[(AXIS_DPAD_X, -AXIS_UNIT), (AXIS_DPAD_Y, AXIS_UNIT)]);
    assert!(p.is_held(D_PAD_RIGHT));
    assert!(p.is_held(D_PAD_UP));
    assert!(!p.is_held(D_PAD_LEFT));
    assert!(!p.is_held(D_PAD_DOWN));
}

#[test]
fn value_returns_the_axis_reading() {
    let p = frame(&[], &[(AXIS_L2, 1000), (AXIS_R2, -1000)]);
    assert_eq!(p.value(AXIS_L2), 1000);
    assert_eq!(p.value(AXIS_R2), -1000);
    assert_eq!(p.value(AXIS_DPAD_X), 0);
}

#[test]
fn set_joy_msg_replaces_the_frame() {
    let mut p = frame(&[BUTTON_R1], &[(AXIS_DPAD_X, 5)]);
    assert!(p.is_held(R1));
    assert!(p.pressed_dpad_left());
    let next = InputSnapshot::new(vec![false; RAW_BUTTON_COUNT], vec![0; RAW_AXIS_COUNT]).unwrap();
    p.set_joy_msg(next);
    assert!(!p.is_held(R1));
    assert!(!p.pressed_dpad_left());
}

#[test]
fn decode_all_lists_every_logical_button() {
    let p = frame(&[BUTTON_SQUARE, BUTTON_PS], &[(AXIS_DPAD_Y, -3)]);
    let held = p.decode_all();
    assert_eq!(held.len(), BUTTON_COUNT);
    for b in 0..BUTTON_COUNT {
        assert_eq!(held[b], b == SQUARE || b == PS || b == D_PAD_DOWN);
        assert_eq!(held[b], p.is_held(b));
    }
}
