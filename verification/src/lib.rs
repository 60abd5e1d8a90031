//! Verified command framing and control logic for a Meccanoid robot driven
//! over Bluetooth LE.

pub mod address;
pub mod control;
pub mod drive;
pub mod meccanoid;
pub mod nunchuck;
pub mod protocol;
pub mod repl;

pub use protocol::{ChestLight, Command, Servo, ServoColor, WheelDirection};
pub use meccanoid::{Meccanoid, RobotState};
pub use nunchuck::{parse_nunchuck_bytes, NunchuckState};
pub use drive::{map_joystick, WheelCommand};
pub use control::{
    reader_step, ControlActions, ControlState, EyeColour, ReaderAction, ReaderEvent, RESEND_CYCLES,
};
pub use repl::{parse_action, ReplAction};
pub use address::address_matches;
