//! The direct mapping of the bench test: joystick deflection straight to
//! pointer motion, with a small dead zone.

use vstd::prelude::*;

use crate::mini_joyc::JoyState;
use crate::mouse::MouseState;

verus! {

/// Deflections up to this size count as centred.
pub const DEAD_ZONE: i8 = 10;

/// An axis with the dead zone applied.
pub open spec fn dead_zoned(value: int) -> int {
    if -DEAD_ZONE <= value <= DEAD_ZONE {
        0
    } else {
        value
    }
}

/// Pointer motion equal to the deflection outside the dead zone, and the
/// stick's click as the left button.
pub fn from_joystick(state: JoyState) -> (r: MouseState)
    requires
        state.x > i8::MIN,
        state.y > i8::MIN,
    ensures
        r.dx == dead_zoned(state.x as int),
        r.dy == dead_zoned(state.y as int),
        r.left_pressed == state.pressed,
{
    MouseState {
        dx: apply_dead_zone(state.x),
        dy: apply_dead_zone(state.y),
        left_pressed: state.pressed,
    }
}

fn apply_dead_zone(value: i8) -> (r: i8)
    requires
        value > i8::MIN,
    ensures
        r == dead_zoned(value as int),
{
    let magnitude = if value < 0 {
        -value
    } else {
        value
    };
    if magnitude <= DEAD_ZONE {
        0
    } else {
        value
    }
}

} // verus!
