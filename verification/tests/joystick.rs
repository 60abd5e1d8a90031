use meccable::{map_joystick, NunchuckState, WheelCommand, WheelDirection};

/// A nunchuck state with the given joystick position and Z held.
fn joy(x: u8, y: u8) -> NunchuckState {
    NunchuckState { joy_x: x, joy_y: y, z_button: true, c_button: false, home_button: false }
}

#[test]
fn centre_maps_to_stop() {
    let cmd = map_joystick(&joy(128, 128), 15, 255);
    assert_eq!(cmd, WheelCommand::stop());
}

#[test]
fn inside_dead_zone_maps_to_stop() {
    // Slightly off-centre but within dead zone
    let cmd = map_joystick(&joy(130, 125), 15, 255);
    assert_eq!(cmd, WheelCommand::stop());
}

#[test]
fn full_forward() {
    let cmd = map_joystick(&joy(128, 255), 15, 255);
    assert_eq!(cmd.left_dir, WheelDirection::Forward);
    assert_eq!(cmd.right_dir, WheelDirection::Forward);
    assert!(cmd.left_speed > 200);
    assert!(cmd.right_speed > 200);
    // Both wheels should be roughly equal (straight line)
    assert_eq!(cmd.left_speed, cmd.right_speed);
}

#[test]
fn full_backward() {
    let cmd = map_joystick(&joy(128, 0), 15, 255);
    assert_eq!(cmd.left_dir, WheelDirection::Backward);
    assert_eq!(cmd.right_dir, WheelDirection::Backward);
    assert!(cmd.left_speed > 200);
    assert!(cmd.right_speed > 200);
}

#[test]
fn full_right_turns_in_place() {
    let cmd = map_joystick(&joy(255, 128), 15, 255);
    // Turning right: left wheel forward, right wheel backward
    assert_eq!(cmd.left_dir, WheelDirection::Forward);
    assert_eq!(cmd.right_dir, WheelDirection::Backward);
    assert!(cmd.left_speed > 200);
    assert!(cmd.right_speed > 200);
}

#[test]
fn full_left_turns_in_place() {
    let cmd = map_joystick(&joy(0, 128), 15, 255);
    // Turning left: left wheel backward, right wheel forward
    assert_eq!(cmd.left_dir, WheelDirection::Backward);
    assert_eq!(cmd.right_dir, WheelDirection::Forward);
    assert!(cmd.left_speed > 200);
    assert!(cmd.right_speed > 200);
}

#[test]
fn max_speed_caps_output() {
    let cmd = map_joystick(&joy(128, 255), 15, 100);
    assert!(cmd.left_speed <= 100);
    assert!(cmd.right_speed <= 100);
}

/// The joystick mapping written with `f32` arithmetic: scale by
/// `max_speed / 128`, clamp to `max_speed`, and truncate toward zero.
fn float_mapping(x: u8, y: u8, dead_zone: u8, max_speed: u8) -> WheelCommand {
    let raw_x = x as i16 - 128;
    let raw_y = y as i16 - 128;
    let dz = dead_zone as i16;
    let thrust = if raw_y.abs() <= dz { 0i16 } else { raw_y };
    let turn = if raw_x.abs() <= dz { 0i16 } else { raw_x };
    if thrust == 0 && turn == 0 {
        return WheelCommand::stop();
    }
    let scale = max_speed as f32 / 128.0;
    let max = max_speed as f32;
    let left = ((thrust + turn) as f32 * scale).clamp(-max, max);
    let right = ((thrust - turn) as f32 * scale).clamp(-max, max);
    let split = |p: f32| {
        if p >= 0.0 {
            (WheelDirection::Forward, p as u8)
        } else {
            (WheelDirection::Backward, (-p) as u8)
        }
    };
    let (left_dir, left_speed) = split(left);
    let (right_dir, right_speed) = split(right);
    WheelCommand { left_dir, left_speed, right_dir, right_speed }
}

#[test]
fn integer_mapping_matches_float_mapping_for_every_speed_cap() {
    for max_speed in 0..=255u8 {
        for x in 0..=255u8 {
            for y in (0..=255u8).step_by(3) {
                let expected = float_mapping(x, y, 15, max_speed);
                assert_eq!(map_joystick(&joy(x, y), 15, max_speed), expected, "{x} {y} {max_speed}");
            }
        }
    }
}

#[test]
fn integer_mapping_matches_float_mapping_for_every_dead_zone() {
    for dead_zone in (0..=255u8).step_by(5) {
        for x in 0..=255u8 {
            for y in 0..=255u8 {
                for max_speed in [0u8, 1, 100, 255] {
                    let expected = float_mapping(x, y, dead_zone, max_speed);
                    assert_eq!(map_joystick(&joy(x, y), dead_zone, max_speed), expected);
                }
            }
        }
    }
}

#[test]
fn full_forward_speed_value() {
    // 127 * 255 / 128 = 253.0..., truncated to 253
    let cmd = map_joystick(&joy(128, 255), 15, 255);
    assert_eq!(cmd.left_speed, 253);
    assert_eq!(cmd.right_speed, 253);
}

#[test]
fn diagonal_caps_left_wheel() {
    // thrust 127 + turn 127 = 254, scaled by 200/128 = 396.875, capped at 200;
    // right wheel 0 stays forward at speed 0.
    let cmd = map_joystick(&joy(255, 255), 15, 200);
    assert_eq!(
        cmd,
        WheelCommand {
            left_dir: WheelDirection::Forward,
            left_speed: 200,
            right_dir: WheelDirection::Forward,
            right_speed: 0,
        }
    );
}

#[test]
fn zero_max_speed_stops_but_keeps_forward() {
    let cmd = map_joystick(&joy(0, 0), 15, 0);
    assert_eq!(cmd, WheelCommand::stop());
}

#[test]
fn dead_zone_edge_counts_as_centre() {
    // |143 - 128| = 15 is inside a dead zone of 15; 144 is outside
    assert_eq!(map_joystick(&joy(143, 113), 15, 255), WheelCommand::stop());
    let cmd = map_joystick(&joy(128, 144), 15, 255);
    assert_eq!(cmd.left_dir, WheelDirection::Forward);
    assert_eq!(cmd.left_speed, 31); // 16 * 255 / 128 = 31.875
}

#[test]
fn mirrored_turn_swaps_wheels() {
    for x in 1..=255u8 {
        for y in (0..=255u8).step_by(7) {
            let a = map_joystick(&joy(x, y), 10, 180);
            let b = map_joystick(&joy(((256u16 - x as u16) as u8), y), 10, 180);
            assert_eq!(a.left_dir, b.right_dir);
            assert_eq!(a.left_speed, b.right_speed);
            assert_eq!(a.right_dir, b.left_dir);
            assert_eq!(a.right_speed, b.left_speed);
        }
    }
}

#[test]
fn no_turn_goes_straight() {
    for y in 0..=255u8 {
        let cmd = map_joystick(&joy(120, y), 15, 255);
        assert_eq!(cmd.left_dir, cmd.right_dir);
        assert_eq!(cmd.left_speed, cmd.right_speed);
    }
}
