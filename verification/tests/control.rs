use meccable::{
    map_joystick, reader_step, ControlActions, ControlState, EyeColour, NunchuckState,
    ReaderAction, ReaderEvent, WheelCommand, WheelDirection, RESEND_CYCLES,
};

fn input(x: u8, y: u8, z: bool, c: bool) -> NunchuckState {
    NunchuckState { joy_x: x, joy_y: y, z_button: z, c_button: c, home_button: false }
}

#[test]
fn starts_stopped_with_blue_eyes() {
    let s = ControlState::new();
    assert_eq!(s.prev_command, WheelCommand::stop());
    assert_eq!(s.cycles_since_send, 0);
    assert!(!s.prev_c_pressed);
    assert!(!s.eye_toggle);
}

#[test]
fn released_z_keeps_wheels_stopped() {
    let mut s = ControlState::new();
    // Joystick fully forward but Z released: nothing new to send
    let a = s.step(&input(128, 255, false, false), 15, 255);
    assert_eq!(a, ControlActions { eye_lights: None, wheels: None });
    assert_eq!(s.cycles_since_send, 1);
}

#[test]
fn held_z_sends_joystick_command_once() {
    let mut s = ControlState::new();
    let forward = input(128, 255, true, false);
    let a = s.step(&forward, 15, 255);
    let expected = map_joystick(&forward, 15, 255);
    assert_eq!(a.wheels, Some(expected));
    assert_eq!(expected.left_dir, WheelDirection::Forward);
    assert_eq!(s.prev_command, expected);
    // The same command again is not resent right away
    assert_eq!(s.step(&forward, 15, 255).wheels, None);
    // Releasing Z sends a stop at once
    assert_eq!(s.step(&input(128, 255, false, false), 15, 255).wheels, Some(WheelCommand::stop()));
}

#[test]
fn unchanged_command_is_resent_every_eleventh_cycle() {
    let mut s = ControlState::new();
    let idle = input(128, 128, false, false);
    for _ in 0..RESEND_CYCLES {
        assert_eq!(s.step(&idle, 15, 255).wheels, None);
    }
    assert_eq!(s.cycles_since_send, 10);
    assert_eq!(s.step(&idle, 15, 255).wheels, Some(WheelCommand::stop()));
    assert_eq!(s.cycles_since_send, 0);
}

#[test]
fn c_press_toggles_eyes_between_red_and_blue() {
    let mut s = ControlState::new();
    let red = EyeColour { r: 7, g: 0, b: 0 };
    let blue = EyeColour { r: 0, g: 0, b: 7 };
    assert_eq!(s.step(&input(128, 128, false, true), 15, 255).eye_lights, Some(red));
    // Holding C does nothing more
    assert_eq!(s.step(&input(128, 128, false, true), 15, 255).eye_lights, None);
    assert_eq!(s.step(&input(128, 128, false, false), 15, 255).eye_lights, None);
    assert_eq!(s.step(&input(128, 128, false, true), 15, 255).eye_lights, Some(blue));
}

#[test]
fn reader_home_exits() {
    let e = ReaderEvent::Data { home: true, data: vec![0; 21] };
    assert_eq!(reader_step(&e), ReaderAction::Exit);
}

#[test]
fn reader_publishes_extension_bytes() {
    let mut data = vec![0u8; 21];
    data[2] = 200;
    data[3] = 50;
    data[7] = 0xFE;
    let e = ReaderEvent::Data { home: false, data };
    assert_eq!(reader_step(&e), ReaderAction::Publish(input(200, 50, true, false)));
}

#[test]
fn reader_other_events() {
    assert_eq!(reader_step(&ReaderEvent::OtherReport), ReaderAction::Continue);
    assert_eq!(reader_step(&ReaderEvent::ReadFailed), ReaderAction::Continue);
    assert_eq!(reader_step(&ReaderEvent::Disconnected), ReaderAction::AwaitReconnect);
}

#[test]
fn c_presses_alternate_red_and_blue_over_a_run() {
    let mut s = ControlState::new();
    let red = EyeColour { r: 7, g: 0, b: 0 };
    let blue = EyeColour { r: 0, g: 0, b: 7 };
    let c = [true, true, false, true, false, false, true, true, true, false, true];
    let mut presses = 0;
    let mut prev = false;
    for &pressed in c.iter() {
        let a = s.step(&input(128, 128, false, pressed), 15, 255);
        if pressed && !prev {
            presses += 1;
            let expected = if presses % 2 == 1 { red } else { blue };
            assert_eq!(a.eye_lights, Some(expected));
        } else {
            assert_eq!(a.eye_lights, None);
        }
        prev = pressed;
    }
    assert_eq!(presses, 4);
}
