//! The Mini JoyC hat: its I2C registers and how their bytes become a
//! joystick reading. The bus transfers themselves are done by the caller.

use vstd::prelude::*;

verus! {

/// I2C address of the Mini JoyC.
pub const DEFAULT_ADDRESS: u8 = 0x54;
/// Register that holds the signed X deflection.
pub const X_REG: u8 = 0x20;
/// Register that holds the signed Y deflection.
pub const Y_REG: u8 = 0x21;
/// Register that reads 0 while the stick is pressed in.
pub const BUTTON_REG: u8 = 0x30;

/// One reading of the joystick.
#[derive(Debug, Clone, Copy, PartialEq, Eq, Structural)]
pub struct JoyState {
    pub x: i8,
    pub y: i8,
    pub pressed: bool,
}

/// The value of a register byte read as a two's complement number.
pub open spec fn signed_byte(raw: u8) -> int {
    if raw < 128 {
        raw as int
    } else {
        raw - 256
    }
}

/// The reading that the three register bytes describe: X and Y are
/// signed bytes, and the stick is pressed when the button register is 0.
pub fn decode_joy_state(x_raw: u8, y_raw: u8, button_raw: u8) -> (r: JoyState)
    ensures
        r.x == signed_byte(x_raw),
        r.y == signed_byte(y_raw),
        r.pressed == (button_raw == 0),
{
    let x = x_raw as i8;
    let y = y_raw as i8;
    assert(x == signed_byte(x_raw)) by (bit_vector)
        requires
            x == x_raw as i8,
    ;
    assert(y == signed_byte(y_raw)) by (bit_vector)
        requires
            y == y_raw as i8,
    ;
    JoyState { x, y, pressed: button_raw == 0 }
}

} // verus!
