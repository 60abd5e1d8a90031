//! The robot's remembered state and the frames that each operation sends.
//!
//! The robot takes whole payloads only, so the controller remembers the last
//! position of every servo and the last setting of every light, changes one
//! slot per call, and sends the complete array again.

use vstd::prelude::*;

use crate::protocol::{
    build_frame, frame_bytes, ChestLight, Command, Servo, ServoColor, WheelDirection,
};

verus! {

/// What the controller remembers between commands.
pub struct RobotState {
    pub servos: Seq<u8>,
    pub servo_lights: Seq<u8>,
    pub chest_lights: Seq<u8>,
}

/// Servo positions sent when a connection starts.
pub open spec fn initial_servos() -> Seq<u8> {
    seq![0x7f, 0x80, 0x00, 0xff, 0x80, 0x7f, 0x7f, 0x7f, 0x01, 0x01, 0x01, 0x01, 0x01, 0x01, 0x01, 0x01, 0x01]
}

/// Servo-light settings remembered when a connection starts.
pub open spec fn initial_servo_lights() -> Seq<u8> {
    seq![0x04, 0x04, 0x04, 0x04, 0x04, 0x04, 0x04, 0x04, 0x04, 0x04, 0x04, 0x04, 0x04, 0x04, 0x04, 0x04, 0x00]
}

/// Chest-light settings remembered when a connection starts: all off.
pub open spec fn initial_chest_lights() -> Seq<u8> {
    Seq::new(17, |i: int| 0u8)
}

/// The position stored for a servo: the right elbow is mounted the other way
/// round, so its value is mirrored, except for the centre value 0x80.
pub open spec fn servo_position(servo: Servo, value: u8) -> u8 {
    if servo == Servo::RightElbow && value != 0x80 {
        (255 - value) as u8
    } else {
        value
    }
}

/// Only the right elbow is mirrored: every other servo stores the value it
/// is given, and the right elbow stores the value mirrored about the middle
/// of the range (the two add up to 255), except for 0x80, which it keeps.
pub proof fn lemma_only_right_elbow_mirrored(servo: Servo, value: u8)
    ensures
        servo != Servo::RightElbow ==> servo_position(servo, value) == value,
        servo == Servo::RightElbow && value != 0x80 ==> servo_position(servo, value) as int
            + value as int == 255,
        value == 0x80 ==> servo_position(servo, value) == value,
{
}

/// The byte stored for a chest light.
pub open spec fn chest_light_byte(on: bool) -> u8 {
    if on { 0x01 } else { 0x00 }
}

/// The payload of a wheel command.
pub open spec fn wheels_payload(
    right_dir: WheelDirection,
    right_speed: u8,
    left_dir: WheelDirection,
    left_speed: u8,
) -> Seq<u8> {
    seq![left_dir.code(), right_dir.code(), left_speed, right_speed, 0xff, 0xff]
        + Seq::new(11, |i: int| 0u8)
}

/// A colour channel of the eyes, clamped to its range 0 to 7.
pub open spec fn eye_channel(v: u8) -> u8 {
    if v <= 7 { v } else { 7 }
}

/// The payload of an eye-light command: green and red share one byte, green
/// in bits 3 to 5 and red in bits 0 to 2; blue has a byte of its own.
pub open spec fn eye_payload(r: u8, g: u8, b: u8) -> Seq<u8> {
    seq![0x00, 0x00, (eye_channel(g) * 8 + eye_channel(r)) as u8, eye_channel(b)]
        + Seq::new(13, |i: int| 0u8)
}

/// Eye channels above 7 act as 7: the eye frame for any colour is the frame
/// for the clamped colour.
pub proof fn lemma_eye_channels_clamp(r: u8, g: u8, b: u8)
    ensures
        eye_payload(r, g, b) == eye_payload(eye_channel(r), eye_channel(g), eye_channel(b)),
        eye_channel(r) <= 7,
        eye_payload(r, g, b).len() == 17,
{
}

/// The payload of the wake-up command.
pub open spec fn wake_up_payload() -> Seq<u8> {
    Seq::new(17, |i: int| 0x1du8)
}

/// Controls a Meccanoid robot: remembers servo and light state and builds the
/// frame that each operation writes to the robot.
pub struct Meccanoid {
    servos: [u8; 17],
    servo_lights: [u8; 17],
    chest_lights: [u8; 17],
}

impl View for Meccanoid {
    type V = RobotState;

    closed spec fn view(&self) -> RobotState {
        RobotState {
            servos: self.servos@,
            servo_lights: self.servo_lights@,
            chest_lights: self.chest_lights@,
        }
    }
}

impl Meccanoid {
    /// Every remembered array holds one byte per payload slot: 17.
    pub proof fn lemma_state_lengths(&self)
        ensures
            self@.servos.len() == 17,
            self@.servo_lights.len() == 17,
            self@.chest_lights.len() == 17,
    {
    }

    /// A servo call whose position the servo already holds changes nothing;
    /// so repeating a servo call leaves the state as it is and sends the same
    /// frame again.
    pub proof fn lemma_servo_repeat(&self, servo: Servo, value: u8)
        requires
            self@.servos[servo.slot() as int] == servo_position(servo, value),
        ensures
            self@.servos.update(servo.slot() as int, servo_position(servo, value)) == self@.servos,
    {
        assert(self@.servos.update(servo.slot() as int, servo_position(servo, value))
            =~= self@.servos);
    }

    /// A servo-light call whose colour the light already has changes nothing;
    /// so repeating a servo-light call leaves the state as it is and sends the
    /// same frame again.
    pub proof fn lemma_servo_light_repeat(&self, servo: Servo, color: ServoColor)
        requires
            self@.servo_lights[servo.slot() as int] == color.code(),
        ensures
            self@.servo_lights.update(servo.slot() as int, color.code()) == self@.servo_lights,
    {
        assert(self@.servo_lights.update(servo.slot() as int, color.code()) =~= self@.servo_lights);
    }

    /// A chest-light call that sets a light to the state it is in changes
    /// nothing; so repeating a chest-light call leaves the state as it is and
    /// sends the same frame again.
    pub proof fn lemma_chest_light_repeat(&self, light: ChestLight, on: bool)
        requires
            self@.chest_lights[light.slot() as int] == chest_light_byte(on),
        ensures
            self@.chest_lights.update(light.slot() as int, chest_light_byte(on))
                == self@.chest_lights,
    {
        assert(self@.chest_lights.update(light.slot() as int, chest_light_byte(on))
            =~= self@.chest_lights);
    }

    /// The state of a freshly connected robot.
    pub fn new() -> (m: Meccanoid)
        ensures
            m@.servos == initial_servos(),
            m@.servo_lights == initial_servo_lights(),
            m@.chest_lights == initial_chest_lights(),
    {
        let m = Meccanoid {
            servos: [
                0x7f, 0x80, 0x00, 0xff, 0x80, 0x7f, 0x7f, 0x7f, 0x01, 0x01, 0x01, 0x01, 0x01, 0x01,
                0x01, 0x01, 0x01,
            ],
            servo_lights: [
                0x04, 0x04, 0x04, 0x04, 0x04, 0x04, 0x04, 0x04, 0x04, 0x04, 0x04, 0x04, 0x04, 0x04,
                0x04, 0x04, 0x00,
            ],
            chest_lights: [0x00; 17],
        };
        assert(m@.servos == initial_servos());
        assert(m@.servo_lights == initial_servo_lights());
        assert(m@.chest_lights == initial_chest_lights());
        m
    }

    /// Moves a servo to `value` (0 to 255), remembers it, and returns the
    /// servo frame, which carries the positions of all servos.
    pub fn servo(&mut self, servo: Servo, value: u8) -> (frame: [u8; 20])
        ensures
            final(self)@.servos == old(self)@.servos.update(
                servo.slot() as int,
                servo_position(servo, value),
            ),
            final(self)@.servo_lights == old(self)@.servo_lights,
            final(self)@.chest_lights == old(self)@.chest_lights,
            frame@ == frame_bytes(Command::MoveServos, final(self)@.servos),
    {
        let position = if servo == Servo::RightElbow && value != 0x80 {
            0xff - value
        } else {
            value
        };
        self.servos[servo.index()] = position;
        build_frame(Command::MoveServos, &self.servos)
    }

    /// Sets the light of a servo to `color`, remembers it, and returns the
    /// servo-light frame, which carries the colours of all servo lights.
    pub fn servo_light(&mut self, servo: Servo, color: ServoColor) -> (frame: [u8; 20])
        ensures
            final(self)@.servo_lights == old(self)@.servo_lights.update(
                servo.slot() as int,
                color.code(),
            ),
            final(self)@.servos == old(self)@.servos,
            final(self)@.chest_lights == old(self)@.chest_lights,
            frame@ == frame_bytes(Command::ServoLights, final(self)@.servo_lights),
    {
        self.servo_lights[servo.index()] = color.to_byte();
        build_frame(Command::ServoLights, &self.servo_lights)
    }

    /// Turns a chest light on or off, remembers it, and returns the
    /// chest-light frame, which carries the state of all chest lights.
    pub fn chest_light(&mut self, light: ChestLight, on: bool) -> (frame: [u8; 20])
        ensures
            final(self)@.chest_lights == old(self)@.chest_lights.update(
                light.slot() as int,
                chest_light_byte(on),
            ),
            final(self)@.servos == old(self)@.servos,
            final(self)@.servo_lights == old(self)@.servo_lights,
            frame@ == frame_bytes(Command::ChestLights, final(self)@.chest_lights),
    {
        let value: u8 = if on { 0x01 } else { 0x00 };
        self.chest_lights[light.index()] = value;
        build_frame(Command::ChestLights, &self.chest_lights)
    }

    /// The frame that drives both wheels, each with its own direction and
    /// speed (0 to 255); speed 0 stops a wheel. Nothing is remembered.
    pub fn move_wheels(
        &self,
        right_dir: WheelDirection,
        right_speed: u8,
        left_dir: WheelDirection,
        left_speed: u8,
    ) -> (frame: [u8; 20])
        ensures
            frame@ == frame_bytes(
                Command::MoveWheels,
                wheels_payload(right_dir, right_speed, left_dir, left_speed),
            ),
    {
        let payload: [u8; 17] = [
            left_dir.to_byte(),
            right_dir.to_byte(),
            left_speed,
            right_speed,
            0xff,
            0xff,
            0x00,
            0x00,
            0x00,
            0x00,
            0x00,
            0x00,
            0x00,
            0x00,
            0x00,
            0x00,
            0x00,
        ];
        assert(payload@ == wheels_payload(right_dir, right_speed, left_dir, left_speed));
        build_frame(Command::MoveWheels, &payload)
    }

    /// The frame that sets the eye colour; each channel is 0 to 7, and larger
    /// values are clamped to 7. Nothing is remembered.
    pub fn eye_lights(&self, r: u8, g: u8, b: u8) -> (frame: [u8; 20])
        ensures
            frame@ == frame_bytes(Command::EyeLights, eye_payload(r, g, b)),
    {
        let r = if r < 7 { r } else { 7 };
        let g = if g < 7 { g } else { 7 };
        let b = if b < 7 { b } else { 7 };
        let payload: [u8; 17] = [
            0x00,
            0x00,
            g * 8 + r,
            b,
            0x00,
            0x00,
            0x00,
            0x00,
            0x00,
            0x00,
            0x00,
            0x00,
            0x00,
            0x00,
            0x00,
            0x00,
            0x00,
        ];
        assert(payload@ == eye_payload(r, g, b));
        build_frame(Command::EyeLights, &payload)
    }

    /// The frame that makes the robot say "I'm awake" and waggle its arms.
    pub fn wake_up(&self) -> (frame: [u8; 20])
        ensures
            frame@ == frame_bytes(Command::ImAwake, wake_up_payload()),
    {
        let payload = [0x1du8; 17];
        assert(payload@ == wake_up_payload());
        build_frame(Command::ImAwake, &payload)
    }

    /// The frames sent when a connection starts, in order: both wheels
    /// stopped, every servo to its remembered position, and blue eyes.
    pub fn startup_frames(&self) -> (frames: Vec<[u8; 20]>)
        ensures
            frames@.len() == 3,
            frames@[0]@ == frame_bytes(
                Command::MoveWheels,
                wheels_payload(WheelDirection::Forward, 0, WheelDirection::Forward, 0),
            ),
            frames@[1]@ == frame_bytes(Command::MoveServos, self@.servos),
            frames@[2]@ == frame_bytes(Command::EyeLights, eye_payload(0, 0, 7)),
    {
        let mut frames: Vec<[u8; 20]> = Vec::new();
        frames.push(self.move_wheels(WheelDirection::Forward, 0, WheelDirection::Forward, 0));
        frames.push(build_frame(Command::MoveServos, &self.servos));
        frames.push(self.eye_lights(0, 0, 7));
        frames
    }
}

} // verus!
