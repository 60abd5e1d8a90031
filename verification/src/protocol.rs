//! The robot's wire protocol: the parts that name servos, lights and wheels,
//! the command identifiers, and the 20-byte frame that carries every command.

use vstd::prelude::*;

verus! {

/// Servo motors.
#[derive(PartialEq, Eq, Structural, Clone, Copy, Debug, Hash)]
pub enum Servo {
    RightElbow,
    RightShoulderPitch,
    RightShoulderRoll,
    LeftShoulderRoll,
    LeftShoulderPitch,
    LeftElbow,
    NeckYaw,
    NeckRoll,
}

impl Servo {
    /// The servo's slot in the servo and servo-light payloads.
    pub open spec fn slot(self) -> nat {
        match self {
            Servo::RightElbow => 0,
            Servo::RightShoulderPitch => 1,
            Servo::RightShoulderRoll => 2,
            Servo::LeftShoulderRoll => 3,
            Servo::LeftShoulderPitch => 4,
            Servo::LeftElbow => 5,
            Servo::NeckYaw => 6,
            Servo::NeckRoll => 7,
        }
    }

    /// The servo's slot, as an index.
    pub fn index(self) -> (i: usize)
        ensures
            i == self.slot(),
            i < 8,
    {
        match self {
            Servo::RightElbow => 0,
            Servo::RightShoulderPitch => 1,
            Servo::RightShoulderRoll => 2,
            Servo::LeftShoulderRoll => 3,
            Servo::LeftShoulderPitch => 4,
            Servo::LeftElbow => 5,
            Servo::NeckYaw => 6,
            Servo::NeckRoll => 7,
        }
    }
}


/// Colors for servo lights.
#[derive(PartialEq, Eq, Structural, Clone, Copy, Debug, Hash)]
pub enum ServoColor {
    Black,
    Red,
    Green,
    Yellow,
    Blue,
    Magenta,
    Cyan,
    White,
}

impl ServoColor {
    /// The byte that selects this color in the servo-light payload.
    pub open spec fn code(self) -> u8 {
        match self {
            ServoColor::Black => 0,
            ServoColor::Red => 1,
            ServoColor::Green => 2,
            ServoColor::Yellow => 3,
            ServoColor::Blue => 4,
            ServoColor::Magenta => 5,
            ServoColor::Cyan => 6,
            ServoColor::White => 7,
        }
    }

    /// The byte that selects this color.
    pub fn to_byte(self) -> (b: u8)
        ensures
            b == self.code(),
    {
        match self {
            ServoColor::Black => 0,
            ServoColor::Red => 1,
            ServoColor::Green => 2,
            ServoColor::Yellow => 3,
            ServoColor::Blue => 4,
            ServoColor::Magenta => 5,
            ServoColor::Cyan => 6,
            ServoColor::White => 7,
        }
    }
}

/// Individual chest lights.
#[derive(PartialEq, Eq, Structural, Clone, Copy, Debug, Hash)]
pub enum ChestLight {
    Blue,
    Red,
    Green,
    Yellow,
}

impl ChestLight {
    /// The light's slot in the chest-light payload.
    pub open spec fn slot(self) -> nat {
        match self {
            ChestLight::Blue => 0,
            ChestLight::Red => 1,
            ChestLight::Green => 2,
            ChestLight::Yellow => 3,
        }
    }

    /// The light's slot, as an index.
    pub fn index(self) -> (i: usize)
        ensures
            i == self.slot(),
            i < 4,
    {
        match self {
            ChestLight::Blue => 0,
            ChestLight::Red => 1,
            ChestLight::Green => 2,
            ChestLight::Yellow => 3,
        }
    }
}

/// Wheel movement directions.
#[derive(PartialEq, Eq, Structural, Clone, Copy, Debug, Hash)]
pub enum WheelDirection {
    Forward,
    Backward,
}

impl WheelDirection {
    /// The byte that selects this direction in the wheel payload.
    pub open spec fn code(self) -> u8 {
        match self {
            WheelDirection::Forward => 0x01,
            WheelDirection::Backward => 0x02,
        }
    }

    /// The byte that selects this direction.
    pub fn to_byte(self) -> (b: u8)
        ensures
            b == self.code(),
    {
        match self {
            WheelDirection::Forward => 0x01,
            WheelDirection::Backward => 0x02,
        }
    }
}

/// The commands the robot understands; each frame starts with one.
#[derive(PartialEq, Eq, Structural, Clone, Copy, Debug, Hash)]
pub enum Command {
    MoveServos,
    ServoLights,
    ChestLights,
    ImAwake,
    MoveWheels,
    EyeLights,
}

impl Command {
    /// The command identifier, the first byte of a frame.
    pub open spec fn code(self) -> u8 {
        match self {
            Command::MoveServos => 0x08,
            Command::ServoLights => 0x0c,
            Command::ChestLights => 0x1c,
            Command::ImAwake => 0x19,
            Command::MoveWheels => 0x0d,
            Command::EyeLights => 0x11,
        }
    }

    /// The command identifier.
    pub fn to_byte(self) -> (b: u8)
        ensures
            b == self.code(),
    {
        match self {
            Command::MoveServos => 0x08,
            Command::ServoLights => 0x0c,
            Command::ChestLights => 0x1c,
            Command::ImAwake => 0x19,
            Command::MoveWheels => 0x0d,
            Command::EyeLights => 0x11,
        }
    }
}

/// Number of payload bytes that every command carries.
pub const PAYLOAD_LEN: usize = 17;

/// Number of bytes in a frame: command, payload and a two-byte checksum.
pub const FRAME_LEN: usize = 20;

/// The 128-bit UUID of the characteristic that commands are written to.
pub const COMMAND_CHARACTERISTIC: u128 = 0x0000ffe9_0000_1000_8000_00805f9b34fb;

/// The sum of a sequence of bytes.
pub open spec fn byte_sum(s: Seq<u8>) -> nat
    decreases s.len(),
{
    if s.len() == 0 {
        0
    } else {
        byte_sum(s.drop_last()) + s.last() as nat
    }
}

/// A frame as the robot expects it: the command identifier, the payload, and
/// the sum of those 18 bytes as a big-endian 16-bit number.
pub open spec fn frame_bytes(command: Command, payload: Seq<u8>) -> Seq<u8> {
    let body = seq![command.code()] + payload;
    let sum = byte_sum(body);
    body + seq![(sum / 256) as u8, (sum % 256) as u8]
}

/// Whether the last two bytes of a frame hold the big-endian sum of the others.
pub open spec fn checksum_holds(frame: Seq<u8>) -> bool {
    &&& frame.len() == FRAME_LEN
    &&& byte_sum(frame.take(18)) == frame[18] as nat * 256 + frame[19] as nat
}

/// A sum of `n` bytes is at most `255 * n`.
pub proof fn lemma_byte_sum_bound(s: Seq<u8>)
    ensures
        byte_sum(s) <= 255 * s.len(),
    decreases s.len(),
{
    if s.len() > 0 {
        lemma_byte_sum_bound(s.drop_last());
    }
}

/// Every frame built from a 17-byte payload is 20 bytes long, starts with the
/// command identifier, carries the payload unchanged in bytes 1 to 17, and
/// ends with a checksum that holds.
pub proof fn lemma_frame_layout(command: Command, payload: Seq<u8>)
    requires
        payload.len() == PAYLOAD_LEN,
    ensures
        frame_bytes(command, payload).len() == FRAME_LEN,
        frame_bytes(command, payload)[0] == command.code(),
        frame_bytes(command, payload).subrange(1, 18) == payload,
        checksum_holds(frame_bytes(command, payload)),
{
    let body = seq![command.code()] + payload;
    let f = frame_bytes(command, payload);
    lemma_byte_sum_bound(body);
    assert(f.take(18) == body);
    assert(f.subrange(1, 18) == payload);
}

/// Builds the frame that carries `command` with `payload`.
pub fn build_frame(command: Command, payload: &[u8; 17]) -> (frame: [u8; 20])
    ensures
        frame@ == frame_bytes(command, payload@),
{
    let mut frame = [0u8; 20];
    let code = command.to_byte();
    frame[0] = code;
    let mut sum: u16 = code as u16;
    let ghost body = seq![code] + payload@;
    let mut i: usize = 0;
    assert(body.take(1).drop_last() == Seq::<u8>::empty());
    assert(frame@.take(1) == body.take(1));
    assert(byte_sum(Seq::<u8>::empty()) == 0);
    assert(body.take(1).last() == code);
    while i < PAYLOAD_LEN
        invariant
            i <= PAYLOAD_LEN,
            body == seq![command.code()] + payload@,
            frame@.len() == 20,
            frame@.take(i as int + 1) == body.take(i as int + 1),
            sum as nat == byte_sum(body.take(i as int + 1)),
            sum <= 255 * (i + 1),
        decreases PAYLOAD_LEN - i,
    {
        let b = payload[i];
        frame[i + 1] = b;
        sum = sum + b as u16;
        i = i + 1;
        proof {
            assert(body.take(i as int + 1).drop_last() == body.take(i as int));
            assert(frame@.take(i as int + 1) == body.take(i as int + 1));
        }
    }
    assert(body.take(18) == body);
    frame[18] = (sum / 256) as u8;
    frame[19] = (sum % 256) as u8;
    assert(frame@ == frame_bytes(command, payload@));
    frame
}

} // verus!
