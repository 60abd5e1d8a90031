//! Arcade-drive mixing: from a joystick position to a direction and speed for
//! each wheel.
//!
//! The Y axis gives thrust (forward above the centre, backward below) and the
//! X axis gives turn (right above the centre), which is added to the left
//! wheel and subtracted from the right one. A dead zone around the centre
//! counts as zero, and the power of each wheel is scaled by `max_speed / 128`
//! and capped at `max_speed`.

use vstd::prelude::*;

use crate::nunchuck::NunchuckState;
use crate::protocol::WheelDirection;

verus! {

/// Computed differential-drive wheel command.
#[derive(PartialEq, Eq, Structural, Clone, Copy, Debug)]
pub struct WheelCommand {
    pub left_dir: WheelDirection,
    pub left_speed: u8,
    pub right_dir: WheelDirection,
    pub right_speed: u8,
}

/// Both wheels stopped.
pub open spec fn stop_command() -> WheelCommand {
    WheelCommand {
        left_dir: WheelDirection::Forward,
        left_speed: 0,
        right_dir: WheelDirection::Forward,
        right_speed: 0,
    }
}

impl WheelCommand {
    /// Both wheels stopped.
    pub fn stop() -> (c: WheelCommand)
        ensures
            c == stop_command(),
    {
        WheelCommand {
            left_dir: WheelDirection::Forward,
            left_speed: 0,
            right_dir: WheelDirection::Forward,
            right_speed: 0,
        }
    }
}

/// An axis reading relative to the centre 128, or 0 inside the dead zone.
pub open spec fn axis_value(raw: u8, dead_zone: u8) -> int {
    let r = raw as int - 128;
    if -(dead_zone as int) <= r <= dead_zone as int {
        0
    } else {
        r
    }
}

/// Forward or backward thrust.
pub open spec fn thrust(state: NunchuckState, dead_zone: u8) -> int {
    axis_value(state.joy_y, dead_zone)
}

/// Turn: positive to the right.
pub open spec fn turn(state: NunchuckState, dead_zone: u8) -> int {
    axis_value(state.joy_x, dead_zone)
}

/// The direction that a signed wheel power drives in.
pub open spec fn power_direction(power: int) -> WheelDirection {
    if power >= 0 {
        WheelDirection::Forward
    } else {
        WheelDirection::Backward
    }
}

/// The speed for a mix value `mix` (thrust plus or minus turn): the magnitude
/// of `mix * max_speed / 128`, rounded toward zero and capped at `max_speed`.
pub open spec fn power_speed(mix: int, max_speed: u8) -> u8 {
    let magnitude = if mix >= 0 { mix } else { -mix };
    let s = magnitude * max_speed as int / 128;
    if s <= max_speed as int {
        s as u8
    } else {
        max_speed
    }
}

/// The wheel command for a joystick position.
pub open spec fn joystick_command(state: NunchuckState, dead_zone: u8, max_speed: u8) -> WheelCommand {
    let t = thrust(state, dead_zone);
    let u = turn(state, dead_zone);
    if t == 0 && u == 0 {
        stop_command()
    } else {
        WheelCommand {
            left_dir: power_direction((t + u) * max_speed as int),
            left_speed: power_speed(t + u, max_speed),
            right_dir: power_direction((t - u) * max_speed as int),
            right_speed: power_speed(t - u, max_speed),
        }
    }
}

/// With the joystick inside the dead zone on both axes, both wheels stop.
pub proof fn lemma_dead_zone_stops(state: NunchuckState, dead_zone: u8, max_speed: u8)
    requires
        -(dead_zone as int) <= state.joy_x as int - 128 <= dead_zone as int,
        -(dead_zone as int) <= state.joy_y as int - 128 <= dead_zone as int,
    ensures
        joystick_command(state, dead_zone, max_speed) == stop_command(),
{
}

/// No wheel ever turns faster than `max_speed`.
pub proof fn lemma_speed_capped(state: NunchuckState, dead_zone: u8, max_speed: u8)
    ensures
        joystick_command(state, dead_zone, max_speed).left_speed <= max_speed,
        joystick_command(state, dead_zone, max_speed).right_speed <= max_speed,
{
}

/// Mirroring the joystick left to right (about the centre 128) swaps what the
/// two wheels do.
pub proof fn lemma_mirrored_turn_swaps_wheels(state: NunchuckState, dead_zone: u8, max_speed: u8)
    requires
        1 <= state.joy_x,
    ensures
        ({
            let mirrored = NunchuckState { joy_x: (256 - state.joy_x) as u8, ..state };
            let c = joystick_command(state, dead_zone, max_speed);
            let m = joystick_command(mirrored, dead_zone, max_speed);
            &&& m.left_dir == c.right_dir
            &&& m.left_speed == c.right_speed
            &&& m.right_dir == c.left_dir
            &&& m.right_speed == c.left_speed
        }),
{
    let mirrored = NunchuckState { joy_x: (256 - state.joy_x) as u8, ..state };
    assert(turn(mirrored, dead_zone) == -turn(state, dead_zone));
}

/// With no turn (the X axis inside the dead zone), both wheels get the same
/// direction and speed: the robot goes straight.
pub proof fn lemma_no_turn_goes_straight(state: NunchuckState, dead_zone: u8, max_speed: u8)
    requires
        -(dead_zone as int) <= state.joy_x as int - 128 <= dead_zone as int,
    ensures
        joystick_command(state, dead_zone, max_speed).left_dir
            == joystick_command(state, dead_zone, max_speed).right_dir,
        joystick_command(state, dead_zone, max_speed).left_speed
            == joystick_command(state, dead_zone, max_speed).right_speed,
{
}

/// With no turn, pushing the joystick beyond the dead zone above the centre
/// drives both wheels forward, and below it backward (for a nonzero
/// `max_speed`).
pub proof fn lemma_thrust_direction(state: NunchuckState, dead_zone: u8, max_speed: u8)
    requires
        -(dead_zone as int) <= state.joy_x as int - 128 <= dead_zone as int,
        max_speed > 0,
    ensures
        state.joy_y as int - 128 > dead_zone as int ==> {
            &&& joystick_command(state, dead_zone, max_speed).left_dir == WheelDirection::Forward
            &&& joystick_command(state, dead_zone, max_speed).right_dir == WheelDirection::Forward
        },
        state.joy_y as int - 128 < -(dead_zone as int) ==> {
            &&& joystick_command(state, dead_zone, max_speed).left_dir == WheelDirection::Backward
            &&& joystick_command(state, dead_zone, max_speed).right_dir == WheelDirection::Backward
        },
{
    let t = thrust(state, dead_zone);
    assert(t > 0 ==> t * (max_speed as int) > 0) by (nonlinear_arith)
        requires
            max_speed > 0,
    ;
    assert(t < 0 ==> t * (max_speed as int) < 0) by (nonlinear_arith)
        requires
            max_speed > 0,
    ;
}

/// With no thrust, pushing the joystick beyond the dead zone to the right
/// turns in place clockwise (left wheel forward, right wheel backward), and to
/// the left the other way round (for a nonzero `max_speed`).
pub proof fn lemma_turn_direction(state: NunchuckState, dead_zone: u8, max_speed: u8)
    requires
        -(dead_zone as int) <= state.joy_y as int - 128 <= dead_zone as int,
        max_speed > 0,
    ensures
        state.joy_x as int - 128 > dead_zone as int ==> {
            &&& joystick_command(state, dead_zone, max_speed).left_dir == WheelDirection::Forward
            &&& joystick_command(state, dead_zone, max_speed).right_dir == WheelDirection::Backward
        },
        state.joy_x as int - 128 < -(dead_zone as int) ==> {
            &&& joystick_command(state, dead_zone, max_speed).left_dir == WheelDirection::Backward
            &&& joystick_command(state, dead_zone, max_speed).right_dir == WheelDirection::Forward
        },
{
    let u = turn(state, dead_zone);
    assert(u > 0 ==> u * (max_speed as int) > 0 && (-u) * (max_speed as int) < 0) by (nonlinear_arith)
        requires
            max_speed > 0,
    ;
    assert(u < 0 ==> u * (max_speed as int) < 0 && (-u) * (max_speed as int) > 0) by (nonlinear_arith)
        requires
            max_speed > 0,
    ;
}

/// An axis reading with the dead zone applied.
fn axis(raw: u8, dead_zone: u8) -> (v: i32)
    ensures
        v == axis_value(raw, dead_zone),
        -128 <= v < 128,
{
    let r = raw as i32 - 128;
    let dz = dead_zone as i32;
    if -dz <= r && r <= dz {
        0
    } else {
        r
    }
}

/// Direction and speed for one wheel, from its mix value.
fn split(mix: i32, max_speed: u8) -> (r: (WheelDirection, u8))
    requires
        -256 <= mix <= 256,
    ensures
        r.0 == power_direction(mix * max_speed as int),
        r.1 == power_speed(mix as int, max_speed),
{
    let m = max_speed as i32;
    assert(-256 * 255 <= mix * m <= 256 * 255) by (nonlinear_arith)
        requires
            -256 <= mix <= 256,
            0 <= m <= 255,
    ;
    let power = mix * m;
    let magnitude = if power >= 0 { power } else { -power };
    proof {
        let mm = if mix >= 0 { mix as int } else { -mix };
        assert(magnitude == mm * m) by (nonlinear_arith)
            requires
                power == mix * m,
                magnitude == (if power >= 0 { power as int } else { -power }),
                mm == (if mix >= 0 { mix as int } else { -mix }),
                0 <= m,
        ;
    }
    let s = magnitude / 128;
    let speed: u8 = if s <= m { s as u8 } else { max_speed };
    if power >= 0 {
        (WheelDirection::Forward, speed)
    } else {
        (WheelDirection::Backward, speed)
    }
}

/// Converts a nunchuck joystick position to differential-drive wheel
/// commands: inside the dead zone on both axes the wheels stop; otherwise the
/// left wheel gets thrust plus turn and the right wheel thrust minus turn,
/// scaled by `max_speed / 128` and capped at `max_speed`.
pub fn map_joystick(state: &NunchuckState, dead_zone: u8, max_speed: u8) -> (c: WheelCommand)
    ensures
        c == joystick_command(*state, dead_zone, max_speed),
{
    let t = axis(state.joy_y, dead_zone);
    let u = axis(state.joy_x, dead_zone);
    if t == 0 && u == 0 {
        return WheelCommand::stop();
    }
    let (left_dir, left_speed) = split(t + u, max_speed);
    let (right_dir, right_speed) = split(t - u, max_speed);
    WheelCommand { left_dir, left_speed, right_dir, right_speed }
}

} // verus!
