//! Decisions of the joystick drive loop and of the Wiimote reader.
//!
//! The loop that drives the robot runs at a fixed rate: each cycle it reads
//! the latest nunchuck state, decides what to send, and sends it. The Z button
//! is a dead-man switch: unless it is held the wheels are told to stop. A
//! rising edge of the C button toggles the eye colour between red and blue. A
//! wheel command is sent when it differs from the last one sent, and an
//! unchanged one is sent again after `RESEND_CYCLES` quiet cycles.

use vstd::prelude::*;

use crate::drive::{joystick_command, map_joystick, stop_command, WheelCommand};
use crate::nunchuck::{idle_nunchuck, nunchuck_from_bytes, parse_nunchuck_bytes, NunchuckState};

verus! {

/// Number of cycles after which an unchanged wheel command is sent again.
pub const RESEND_CYCLES: u32 = 10;

/// What the drive loop remembers from one cycle to the next.
#[derive(PartialEq, Eq, Structural, Clone, Copy, Debug)]
pub struct ControlState {
    /// The wheel command sent last.
    pub prev_command: WheelCommand,
    /// Cycles since a wheel command was last sent.
    pub cycles_since_send: u32,
    /// Whether the C button was pressed in the previous cycle.
    pub prev_c_pressed: bool,
    /// Whether the eyes are red (otherwise blue).
    pub eye_toggle: bool,
}

/// An eye colour; each channel is 0 to 7.
#[derive(PartialEq, Eq, Structural, Clone, Copy, Debug)]
pub struct EyeColour {
    pub r: u8,
    pub g: u8,
    pub b: u8,
}

/// What one cycle of the drive loop sends, in this order.
#[derive(PartialEq, Eq, Structural, Clone, Copy, Debug)]
pub struct ControlActions {
    /// Eye colour to set, if any.
    pub eye_lights: Option<EyeColour>,
    /// Wheel command to send, if any.
    pub wheels: Option<WheelCommand>,
}

/// The state of the drive loop before its first cycle.
pub open spec fn initial_control() -> ControlState {
    ControlState {
        prev_command: stop_command(),
        cycles_since_send: 0,
        prev_c_pressed: false,
        eye_toggle: false,
    }
}

/// The wheel command that a cycle wants: the joystick mapping while Z is
/// held, and a stop otherwise.
pub open spec fn wanted_command(input: NunchuckState, dead_zone: u8, max_speed: u8) -> WheelCommand {
    if input.z_button {
        joystick_command(input, dead_zone, max_speed)
    } else {
        stop_command()
    }
}

/// The eye colour for a toggle state: red when set, blue otherwise.
pub open spec fn eye_colour(toggle: bool) -> EyeColour {
    if toggle {
        EyeColour { r: 7, g: 0, b: 0 }
    } else {
        EyeColour { r: 0, g: 0, b: 7 }
    }
}

/// Whether a cycle sends its wheel command.
pub open spec fn sends_wheels(s: ControlState, command: WheelCommand) -> bool {
    command != s.prev_command || s.cycles_since_send >= RESEND_CYCLES
}

/// One cycle of the drive loop: the next state and what to send.
pub open spec fn control_step(
    s: ControlState,
    input: NunchuckState,
    dead_zone: u8,
    max_speed: u8,
) -> (ControlState, ControlActions) {
    let command = wanted_command(input, dead_zone, max_speed);
    let rising = input.c_button && !s.prev_c_pressed;
    let toggle = if rising { !s.eye_toggle } else { s.eye_toggle };
    let send = sends_wheels(s, command);
    (
        ControlState {
            prev_command: if send { command } else { s.prev_command },
            cycles_since_send: if send { 0 } else { (s.cycles_since_send + 1) as u32 },
            prev_c_pressed: input.c_button,
            eye_toggle: toggle,
        },
        ControlActions {
            eye_lights: if rising { Some(eye_colour(toggle)) } else { None },
            wheels: if send { Some(command) } else { None },
        },
    )
}

impl ControlState {
    /// The state before the first cycle: wheels stopped, blue eyes.
    pub fn new() -> (s: ControlState)
        ensures
            s == initial_control(),
    {
        ControlState {
            prev_command: WheelCommand::stop(),
            cycles_since_send: 0,
            prev_c_pressed: false,
            eye_toggle: false,
        }
    }

    /// Runs one cycle of the drive loop on the latest nunchuck state and
    /// returns what to send.
    pub fn step(&mut self, input: &NunchuckState, dead_zone: u8, max_speed: u8) -> (a: ControlActions)
        ensures
            (*final(self), a) == control_step(*old(self), *input, dead_zone, max_speed),
    {
        let command = if input.z_button {
            map_joystick(input, dead_zone, max_speed)
        } else {
            WheelCommand::stop()
        };
        let rising = input.c_button && !self.prev_c_pressed;
        let mut eye_lights: Option<EyeColour> = None;
        if rising {
            self.eye_toggle = !self.eye_toggle;
            eye_lights = if self.eye_toggle {
                Some(EyeColour { r: 7, g: 0, b: 0 })
            } else {
                Some(EyeColour { r: 0, g: 0, b: 7 })
            };
        }
        self.prev_c_pressed = input.c_button;
        let mut wheels: Option<WheelCommand> = None;
        if command != self.prev_command || self.cycles_since_send >= RESEND_CYCLES {
            wheels = Some(command);
            self.prev_command = command;
            self.cycles_since_send = 0;
        } else {
            self.cycles_since_send = self.cycles_since_send + 1;
        }
        ControlActions { eye_lights, wheels }
    }
}

/// What the Wiimote reader got from one read.
#[derive(PartialEq, Eq, Debug)]
pub enum ReaderEvent {
    /// A data report: whether Home is pressed, and the report's data bytes,
    /// whose bytes 2 to 7 hold the nunchuck extension bytes.
    Data { home: bool, data: Vec<u8> },
    /// A report of another kind (status, acknowledgement, memory read).
    OtherReport,
    /// The Wiimote disconnected.
    Disconnected,
    /// A timeout or another transient error.
    ReadFailed,
}

/// What the Wiimote reader does after a read.
#[derive(PartialEq, Eq, Structural, Clone, Copy, Debug)]
pub enum ReaderAction {
    /// Publish the idle nunchuck state, tell the drive loop to exit, and stop.
    Exit,
    /// Publish this nunchuck state and keep reading.
    Publish(NunchuckState),
    /// Publish the idle nunchuck state and wait for a Wiimote to connect.
    AwaitReconnect,
    /// Keep reading.
    Continue,
}

/// Whether an event carries enough data bytes for the nunchuck.
pub open spec fn reader_event_complete(e: ReaderEvent) -> bool {
    match e {
        ReaderEvent::Data { data, .. } => data@.len() >= 8,
        _ => true,
    }
}

/// The reader's response to an event: Home exits; a data report publishes the
/// nunchuck state in its bytes 2 to 7; a disconnection resets and waits; other
/// reports and transient errors are ignored.
pub open spec fn reader_action(e: ReaderEvent) -> ReaderAction {
    match e {
        ReaderEvent::Data { home, data } => if home {
            ReaderAction::Exit
        } else {
            ReaderAction::Publish(
                NunchuckState { home_button: home, ..nunchuck_from_bytes(data@.subrange(2, 8)) },
            )
        },
        ReaderEvent::OtherReport => ReaderAction::Continue,
        ReaderEvent::Disconnected => ReaderAction::AwaitReconnect,
        ReaderEvent::ReadFailed => ReaderAction::Continue,
    }
}

/// Decides what the Wiimote reader does after a read.
pub fn reader_step(event: &ReaderEvent) -> (a: ReaderAction)
    requires
        reader_event_complete(*event),
    ensures
        a == reader_action(*event),
{
    match event {
        ReaderEvent::Data { home, data } => {
            if *home {
                return ReaderAction::Exit;
            }
            let ext = &data.as_slice()[2..8];
            match parse_nunchuck_bytes(ext) {
                Some(n) => {
                    let mut n = n;
                    n.home_button = *home;
                    ReaderAction::Publish(n)
                },
                None => ReaderAction::Continue,
            }
        },
        ReaderEvent::OtherReport => ReaderAction::Continue,
        ReaderEvent::Disconnected => ReaderAction::AwaitReconnect,
        ReaderEvent::ReadFailed => ReaderAction::Continue,
    }
}

/// The actions of successive cycles of the drive loop, starting in `s`.
pub open spec fn run_actions(
    s: ControlState,
    inputs: Seq<NunchuckState>,
    dead_zone: u8,
    max_speed: u8,
) -> Seq<ControlActions>
    decreases inputs.len(),
{
    if inputs.len() == 0 {
        Seq::empty()
    } else {
        let (next, a) = control_step(s, inputs[0], dead_zone, max_speed);
        seq![a] + run_actions(next, inputs.drop_first(), dead_zone, max_speed)
    }
}

/// Dead-man switch: while Z is released, a cycle sends no wheel command other
/// than a stop.
pub proof fn lemma_released_z_only_stops(s: ControlState, input: NunchuckState, dead_zone: u8, max_speed: u8)
    requires
        !input.z_button,
    ensures
        control_step(s, input, dead_zone, max_speed).1.wheels is None
            || control_step(s, input, dead_zone, max_speed).1.wheels == Some(stop_command()),
{
}

/// The idle nunchuck state, which the Wiimote reader publishes when Home is
/// pressed or the Wiimote disconnects, makes the drive loop want the wheels
/// stopped.
pub proof fn lemma_idle_input_stops(dead_zone: u8, max_speed: u8)
    ensures
        wanted_command(idle_nunchuck(), dead_zone, max_speed) == stop_command(),
{
}

/// Only Z and the joystick decide the wheels: while Z is held a cycle wants
/// the joystick mapping, and pressing or releasing C (which toggles the eyes)
/// changes nothing about the wheel command sent or the wheel state kept.
pub proof fn lemma_c_button_does_not_steer(s: ControlState, input: NunchuckState, dead_zone: u8, max_speed: u8)
    ensures
        input.z_button ==> wanted_command(input, dead_zone, max_speed) == joystick_command(
            input,
            dead_zone,
            max_speed,
        ),
        ({
            let other = NunchuckState { c_button: !input.c_button, ..input };
            let (n1, a1) = control_step(s, input, dead_zone, max_speed);
            let (n2, a2) = control_step(s, other, dead_zone, max_speed);
            &&& a1.wheels == a2.wheels
            &&& n1.prev_command == n2.prev_command
            &&& n1.cycles_since_send == n2.cycles_since_send
        }),
{
    let other = NunchuckState { c_button: !input.c_button, ..input };
    assert(joystick_command(other, dead_zone, max_speed) == joystick_command(input, dead_zone, max_speed));
}

/// A data report without Home publishes the nunchuck bytes at positions 2 to
/// 7 of the report: the joystick from bytes 2 and 3, Z from bit 0 and C from
/// bit 1 of byte 7 (both pressed when the bit is clear), and Home released.
pub proof fn lemma_data_report_publishes_extension(data: Vec<u8>)
    requires
        data@.len() >= 8,
    ensures
        reader_action(ReaderEvent::Data { home: false, data }) == ReaderAction::Publish(
            NunchuckState {
                joy_x: data@[2],
                joy_y: data@[3],
                z_button: data@[7] & 1 == 0,
                c_button: data@[7] & 2 == 0,
                home_button: false,
            },
        ),
        reader_action(ReaderEvent::Data { home: true, data }) == ReaderAction::Exit,
{
    let flags = data@[7];
    assert((flags & 1) == 0 <==> flags % 2 == 0) by (bit_vector);
    assert((flags & 2) == 0 <==> (flags / 2) % 2 == 0) by (bit_vector);
    let ext = data@.subrange(2, 8);
    assert(ext[0] == data@[2] && ext[1] == data@[3] && ext[5] == flags);
}

/// A wheel command that differs from the last one sent is sent at once.
pub proof fn lemma_change_is_sent(s: ControlState, input: NunchuckState, dead_zone: u8, max_speed: u8)
    requires
        wanted_command(input, dead_zone, max_speed) != s.prev_command,
    ensures
        control_step(s, input, dead_zone, max_speed).1.wheels == Some(
            wanted_command(input, dead_zone, max_speed),
        ),
        control_step(s, input, dead_zone, max_speed).0.prev_command == wanted_command(
            input,
            dead_zone,
            max_speed,
        ),
{
}

/// The quiet-cycle counter never exceeds `RESEND_CYCLES` once it starts
/// within it; the drive loop starts at 0.
pub proof fn lemma_quiet_cycles_bounded(s: ControlState, input: NunchuckState, dead_zone: u8, max_speed: u8)
    requires
        s.cycles_since_send <= RESEND_CYCLES,
    ensures
        control_step(s, input, dead_zone, max_speed).0.cycles_since_send <= RESEND_CYCLES,
        initial_control().cycles_since_send <= RESEND_CYCLES,
{
}

/// The eye colour changes exactly on a press of C (a rising edge), and then
/// flips between red and blue.
pub proof fn lemma_eyes_toggle_on_press(s: ControlState, input: NunchuckState, dead_zone: u8, max_speed: u8)
    ensures
        input.c_button && !s.prev_c_pressed ==> {
            &&& control_step(s, input, dead_zone, max_speed).1.eye_lights == Some(
                eye_colour(!s.eye_toggle),
            )
            &&& control_step(s, input, dead_zone, max_speed).0.eye_toggle == !s.eye_toggle
        },
        !(input.c_button && !s.prev_c_pressed) ==> {
            &&& control_step(s, input, dead_zone, max_speed).1.eye_lights is None
            &&& control_step(s, input, dead_zone, max_speed).0.eye_toggle == s.eye_toggle
        },
{
}

/// One action per cycle.
proof fn lemma_run_actions_len(s: ControlState, inputs: Seq<NunchuckState>, dead_zone: u8, max_speed: u8)
    ensures
        run_actions(s, inputs, dead_zone, max_speed).len() == inputs.len(),
    decreases inputs.len(),
{
    if inputs.len() > 0 {
        let (next, a) = control_step(s, inputs[0], dead_zone, max_speed);
        lemma_run_actions_len(next, inputs.drop_first(), dead_zone, max_speed);
    }
}

/// Whether C was pressed in the cycle before cycle `i` of a run: for the
/// first cycle, as the loop remembers it; otherwise, in the previous input.
pub open spec fn c_before(prev_c: bool, inputs: Seq<NunchuckState>, i: int) -> bool {
    if i == 0 {
        prev_c
    } else {
        inputs[i - 1].c_button
    }
}

/// Whether cycle `i` of a run sees a press of C (a rising edge).
pub open spec fn is_press(prev_c: bool, inputs: Seq<NunchuckState>, i: int) -> bool {
    inputs[i].c_button && !c_before(prev_c, inputs, i)
}

/// The number of presses of C in the first `n` cycles of a run.
pub open spec fn presses(prev_c: bool, inputs: Seq<NunchuckState>, n: nat) -> nat
    decreases n,
{
    if n == 0 {
        0
    } else {
        presses(prev_c, inputs, (n - 1) as nat) + if is_press(prev_c, inputs, n - 1) {
            1nat
        } else {
            0nat
        }
    }
}

/// Counting presses from the second cycle on is counting them in the rest of
/// the run, which starts with C as the first input left it.
proof fn lemma_presses_split(prev_c: bool, inputs: Seq<NunchuckState>, n: nat)
    requires
        n + 1 <= inputs.len(),
    ensures
        presses(prev_c, inputs, n + 1) == (if is_press(prev_c, inputs, 0) { 1nat } else { 0nat })
            + presses(inputs[0].c_button, inputs.drop_first(), n),
    decreases n,
{
    if n == 0 {
        assert(presses(prev_c, inputs, 0) == 0);
        assert(presses(inputs[0].c_button, inputs.drop_first(), 0) == 0);
    } else {
        lemma_presses_split(prev_c, inputs, (n - 1) as nat);
        assert(is_press(prev_c, inputs, n as int) == is_press(
            inputs[0].c_button,
            inputs.drop_first(),
            n - 1,
        ));
    }
}

/// Over a run of the drive loop, a cycle sets the eye colour exactly when C
/// is pressed in it, and the k-th press sets the colour opposite to the
/// starting one when k is odd and the starting colour when k is even; from
/// the loop's initial state (blue), odd presses turn the eyes red and even
/// presses blue.
pub proof fn lemma_eye_colour_by_press_count(
    s: ControlState,
    inputs: Seq<NunchuckState>,
    dead_zone: u8,
    max_speed: u8,
    i: int,
)
    requires
        0 <= i < inputs.len(),
    ensures
        run_actions(s, inputs, dead_zone, max_speed)[i].eye_lights == if is_press(
            s.prev_c_pressed,
            inputs,
            i,
        ) {
            Some(
                eye_colour(
                    if presses(s.prev_c_pressed, inputs, (i + 1) as nat) % 2 == 1 {
                        !s.eye_toggle
                    } else {
                        s.eye_toggle
                    },
                ),
            )
        } else {
            None
        },
    decreases i,
{
    let (next, a) = control_step(s, inputs[0], dead_zone, max_speed);
    let acts = run_actions(s, inputs, dead_zone, max_speed);
    let rest = run_actions(next, inputs.drop_first(), dead_zone, max_speed);
    assert(acts == seq![a] + rest);
    lemma_run_actions_len(next, inputs.drop_first(), dead_zone, max_speed);
    assert(presses(s.prev_c_pressed, inputs, 0) == 0);
    if i == 0 {
        assert(presses(s.prev_c_pressed, inputs, 1) == if is_press(s.prev_c_pressed, inputs, 0) {
            1nat
        } else {
            0nat
        });
    } else {
        lemma_eye_colour_by_press_count(next, inputs.drop_first(), dead_zone, max_speed, i - 1);
        lemma_presses_split(s.prev_c_pressed, inputs, i as nat);
        assert(acts[i] == rest[i - 1]);
        assert(is_press(s.prev_c_pressed, inputs, i) == is_press(
            next.prev_c_pressed,
            inputs.drop_first(),
            i - 1,
        ));
    }
}

/// From a counter of `s.cycles_since_send`, a wheel command is sent within
/// the next `RESEND_CYCLES + 1 - s.cycles_since_send` cycles.
proof fn lemma_send_within(s: ControlState, inputs: Seq<NunchuckState>, dead_zone: u8, max_speed: u8)
    requires
        s.cycles_since_send <= RESEND_CYCLES,
        inputs.len() >= RESEND_CYCLES + 1 - s.cycles_since_send,
    ensures
        exists|i: int|
            0 <= i < RESEND_CYCLES + 1 - s.cycles_since_send
                && (#[trigger] run_actions(s, inputs, dead_zone, max_speed)[i]).wheels is Some,
    decreases RESEND_CYCLES + 1 - s.cycles_since_send,
{
    let (next, a) = control_step(s, inputs[0], dead_zone, max_speed);
    let acts = run_actions(s, inputs, dead_zone, max_speed);
    let rest = run_actions(next, inputs.drop_first(), dead_zone, max_speed);
    assert(acts == seq![a] + rest);
    lemma_run_actions_len(next, inputs.drop_first(), dead_zone, max_speed);
    if a.wheels is Some {
        assert(acts[0].wheels is Some);
    } else {
        lemma_send_within(next, inputs.drop_first(), dead_zone, max_speed);
        let j = choose|j: int|
            0 <= j < RESEND_CYCLES + 1 - next.cycles_since_send
                && (#[trigger] rest[j]).wheels is Some;
        assert(acts[j + 1] == rest[j]);
    }
}

/// However the inputs go, among any `RESEND_CYCLES + 1` successive cycles of
/// the drive loop at least one sends a wheel command, so the robot hears from
/// the loop regularly even when nothing changes.
pub proof fn lemma_resend_within_bound(
    s: ControlState,
    inputs: Seq<NunchuckState>,
    dead_zone: u8,
    max_speed: u8,
)
    requires
        s.cycles_since_send <= RESEND_CYCLES,
        inputs.len() == RESEND_CYCLES + 1,
    ensures
        exists|i: int|
            0 <= i < RESEND_CYCLES + 1 && (#[trigger] run_actions(
                s,
                inputs,
                dead_zone,
                max_speed,
            )[i]).wheels is Some,
{
    lemma_send_within(s, inputs, dead_zone, max_speed);
}

} // verus!
