//! Nunchuck input: the state of the joystick and buttons, read from the six
//! extension bytes that a Wiimote reports.

use vstd::prelude::*;

verus! {

/// Snapshot of nunchuck controller input.
#[derive(PartialEq, Eq, Structural, Clone, Copy, Debug)]
pub struct NunchuckState {
    /// Joystick X axis (0 to 255, about 128 at the centre)
    pub joy_x: u8,
    /// Joystick Y axis (0 to 255, about 128 at the centre)
    pub joy_y: u8,
    /// Z button (trigger on the underside) is pressed
    pub z_button: bool,
    /// C button is pressed
    pub c_button: bool,
    /// Home button on the Wiimote itself is pressed
    pub home_button: bool,
}

/// The joystick at rest and no button pressed.
pub open spec fn idle_nunchuck() -> NunchuckState {
    NunchuckState { joy_x: 128, joy_y: 128, z_button: false, c_button: false, home_button: false }
}

impl Default for NunchuckState {
    fn default() -> (s: Self)
        ensures
            s == idle_nunchuck(),
    {
        NunchuckState { joy_x: 128, joy_y: 128, z_button: false, c_button: false, home_button: false }
    }
}

/// The state that six nunchuck extension bytes describe (unencrypted layout):
/// byte 0 is the joystick X, byte 1 the joystick Y, bytes 2 to 4 and the upper
/// bits of byte 5 are accelerometer data, bit 0 of byte 5 is Z and bit 1 is C,
/// both active-low. The Home button is not among these bytes.
pub open spec fn nunchuck_from_bytes(bytes: Seq<u8>) -> NunchuckState {
    NunchuckState {
        joy_x: bytes[0],
        joy_y: bytes[1],
        z_button: bytes[5] % 2 == 0,
        c_button: (bytes[5] / 2) % 2 == 0,
        home_button: false,
    }
}

/// What the six bytes mean: the joystick is bytes 0 and 1; Z is pressed
/// exactly when bit 0 of byte 5 is clear and C exactly when bit 1 is clear, so
/// the accelerometer bits 2 to 7 of byte 5 never change a button; the Home
/// button is never reported pressed.
pub proof fn lemma_nunchuck_byte_meaning(bytes: Seq<u8>, other_flags: u8)
    requires
        bytes.len() >= 6,
    ensures
        nunchuck_from_bytes(bytes).joy_x == bytes[0],
        nunchuck_from_bytes(bytes).joy_y == bytes[1],
        nunchuck_from_bytes(bytes).z_button == (bytes[5] & 1 == 0),
        nunchuck_from_bytes(bytes).c_button == (bytes[5] & 2 == 0),
        !nunchuck_from_bytes(bytes).home_button,
        other_flags & 3 == bytes[5] & 3 ==> {
            &&& nunchuck_from_bytes(bytes.update(5, other_flags)).z_button
                == nunchuck_from_bytes(bytes).z_button
            &&& nunchuck_from_bytes(bytes.update(5, other_flags)).c_button
                == nunchuck_from_bytes(bytes).c_button
        },
{
    let f = bytes[5];
    assert((f & 1) == 0 <==> f % 2 == 0) by (bit_vector);
    assert((f & 2) == 0 <==> (f / 2) % 2 == 0) by (bit_vector);
    assert((other_flags & 1) == 0 <==> other_flags % 2 == 0) by (bit_vector);
    assert((other_flags & 2) == 0 <==> (other_flags / 2) % 2 == 0) by (bit_vector);
    assert(other_flags & 3 == f & 3 ==> ((other_flags & 1) == (f & 1) && (other_flags & 2) == (f
        & 2))) by (bit_vector);
}

/// Parses raw nunchuck extension bytes into joystick and button state; fewer
/// than six bytes give `None`, and bytes after the sixth are ignored.
pub fn parse_nunchuck_bytes(bytes: &[u8]) -> (r: Option<NunchuckState>)
    ensures
        bytes@.len() < 6 ==> r is None,
        bytes@.len() >= 6 ==> r == Some(nunchuck_from_bytes(bytes@)),
{
    if bytes.len() < 6 {
        return None;
    }
    let flags = bytes[5];
    assert((flags & 0x01) == 0 <==> flags % 2 == 0) by (bit_vector);
    assert((flags & 0x02) == 0 <==> (flags / 2) % 2 == 0) by (bit_vector);
    Some(
        NunchuckState {
            joy_x: bytes[0],
            joy_y: bytes[1],
            z_button: (flags & 0x01) == 0,
            c_button: (flags & 0x02) == 0,
            home_button: false,
        },
    )
}

} // verus!
