//! Pointer motion from the joystick: a smoothing filter, a dead zone and
//! response curve, a speed gain that grows while the stick is held, and
//! sub-pixel residuals so that slow motion is not lost.

use vstd::prelude::*;

use crate::config::{
    MOUSE_BASE_SPEED_PX_PER_SEC, MOUSE_CURVE_WEIGHT_Q15, MOUSE_DEAD_ZONE,
    MOUSE_GAIN_FALL_Q15_PER_SEC, MOUSE_GAIN_RISE_Q15_PER_SEC, MOUSE_INVERT_X, MOUSE_INVERT_Y,
    MOUSE_MAX_SPEED_PX_PER_SEC, MOUSE_POLL_HZ, MOUSE_SMOOTHING_Q15,
};
use crate::mini_joyc::JoyState;

verus! {

pub const Q8_ONE: i32 = 256;
pub const Q15_ONE: i64 = 32768;
pub const Q16_ONE: i64 = 65536;

/// Smallest and largest filtered axis value: a full deflection in Q8.
pub const FILTER_MIN_Q8: i32 = -32768;
pub const FILTER_MAX_Q8: i32 = 32512;

/// Relative pointer motion and the left button.
#[derive(Debug, Clone, Copy, PartialEq, Eq, Structural)]
pub struct MouseState {
    pub dx: i8,
    pub dy: i8,
    pub left_pressed: bool,
}

/// Integer division rounded toward zero, as Rust divides (`b > 0`).
pub open spec fn trunc_div(a: int, b: int) -> int {
    if a >= 0 {
        a / b
    } else {
        -((-a) / b)
    }
}

pub open spec fn clamp(v: int, lo: int, hi: int) -> int {
    if v < lo {
        lo
    } else if v > hi {
        hi
    } else {
        v
    }
}

/// The filter moves a fixed share of the way toward the new sample.
pub open spec fn filter_next(current_q8: int, sample: int) -> int {
    current_q8 + trunc_div((sample * Q8_ONE - current_q8) * MOUSE_SMOOTHING_Q15, Q15_ONE as int)
}

/// Dead zone of the pointer in Q8.
pub open spec fn dead_zone_q8() -> int {
    MOUSE_DEAD_ZONE * Q8_ONE
}

/// Deflection past the dead zone, scaled to 0..=1 in Q15.
pub open spec fn normalized_q15(magnitude: int) -> int {
    clamp(
        (magnitude - dead_zone_q8()) * Q15_ONE / ((127 - MOUSE_DEAD_ZONE) * Q8_ONE),
        0,
        Q15_ONE as int,
    )
}

/// The response curve: a blend of the linear and the squared deflection.
pub open spec fn curve_q15(n: int) -> int {
    ((Q15_ONE - MOUSE_CURVE_WEIGHT_Q15) * n + MOUSE_CURVE_WEIGHT_Q15 * (n * n / Q15_ONE as int))
        / Q15_ONE as int
}

/// A filtered axis value after inversion, dead zone and curve, in Q15.
pub open spec fn shaped_q15(value_q8: int, invert: bool) -> int {
    let value = if invert {
        -value_q8
    } else {
        value_q8
    };
    let magnitude = if value < 0 {
        -value
    } else {
        value
    };
    if magnitude <= dead_zone_q8() {
        0
    } else {
        if value < 0 {
            -curve_q15(normalized_q15(magnitude))
        } else {
            curve_q15(normalized_q15(magnitude))
        }
    }
}

/// Speed gain in Q15 at maximum speed.
pub open spec fn max_gain_q15() -> int {
    MOUSE_MAX_SPEED_PX_PER_SEC * Q15_ONE / MOUSE_BASE_SPEED_PX_PER_SEC as int
}

/// The gain rises while the stick is out of the dead zone, up to the
/// maximum, and falls back to 1 otherwise.
pub open spec fn gain_next(gain_q15: int, active: bool) -> int {
    if active {
        clamp(
            gain_q15 + MOUSE_GAIN_RISE_Q15_PER_SEC as int / MOUSE_POLL_HZ as int,
            Q15_ONE as int,
            max_gain_q15(),
        )
    } else {
        let g = gain_q15 - MOUSE_GAIN_FALL_Q15_PER_SEC as int / MOUSE_POLL_HZ as int;
        if g < Q15_ONE {
            Q15_ONE as int
        } else {
            g
        }
    }
}

/// Largest speed in Q16 pixels per second.
pub open spec fn max_velocity_q16() -> int {
    MOUSE_MAX_SPEED_PX_PER_SEC * Q16_ONE
}

/// Axis speed in Q16 pixels per second, capped at the maximum speed.
pub open spec fn velocity_q16(shaped: int, gain_q15: int) -> int {
    clamp(
        trunc_div(shaped * gain_q15 * MOUSE_BASE_SPEED_PX_PER_SEC * 2, Q15_ONE as int),
        -max_velocity_q16(),
        max_velocity_q16(),
    )
}

/// Whole pixels taken out of a residual, at most 127 either way.
pub open spec fn delta_of(residual_q16: int) -> int {
    clamp(trunc_div(residual_q16, Q16_ONE as int), -127, 127)
}

/// The mapper's memory between polls.
#[derive(Debug, Clone, Copy, PartialEq, Eq, Structural)]
pub struct MapperState {
    pub filtered_x_q8: i32,
    pub filtered_y_q8: i32,
    pub speed_gain_q15: i64,
    pub residual_x_q16: i64,
    pub residual_y_q16: i64,
}

pub open spec fn abs_lt(v: int, bound: int) -> bool {
    -bound < v < bound
}

impl MapperState {
    pub open spec fn initial() -> MapperState {
        MapperState {
            filtered_x_q8: 0,
            filtered_y_q8: 0,
            speed_gain_q15: Q15_ONE,
            residual_x_q16: 0,
            residual_y_q16: 0,
        }
    }

    /// Filtered values stay within a full deflection, the gain between 1
    /// and the maximum, and residuals below one pixel.
    pub open spec fn wf(self) -> bool {
        &&& FILTER_MIN_Q8 <= self.filtered_x_q8 <= FILTER_MAX_Q8
        &&& FILTER_MIN_Q8 <= self.filtered_y_q8 <= FILTER_MAX_Q8
        &&& Q15_ONE <= self.speed_gain_q15 <= max_gain_q15()
        &&& abs_lt(self.residual_x_q16 as int, Q16_ONE as int)
        &&& abs_lt(self.residual_y_q16 as int, Q16_ONE as int)
    }

    /// The state and the motion after one poll of the joystick.
    pub open spec fn next(self, joy: JoyState) -> (MapperState, MouseState) {
        let fx = filter_next(self.filtered_x_q8 as int, joy.x as int);
        let fy = filter_next(self.filtered_y_q8 as int, joy.y as int);
        let sx = shaped_q15(fx, MOUSE_INVERT_X);
        let sy = shaped_q15(fy, MOUSE_INVERT_Y);
        let g = gain_next(self.speed_gain_q15 as int, sx != 0 || sy != 0);
        let rx = self.residual_x_q16 + trunc_div(velocity_q16(sx, g), MOUSE_POLL_HZ as int);
        let ry = self.residual_y_q16 + trunc_div(velocity_q16(sy, g), MOUSE_POLL_HZ as int);
        let dx = delta_of(rx);
        let dy = delta_of(ry);
        (
            MapperState {
                filtered_x_q8: fx as i32,
                filtered_y_q8: fy as i32,
                speed_gain_q15: g as i64,
                residual_x_q16: (rx - dx * Q16_ONE) as i64,
                residual_y_q16: (ry - dy * Q16_ONE) as i64,
            },
            MouseState { dx: dx as i8, dy: dy as i8, left_pressed: joy.pressed },
        )
    }
}

/// Turns joystick readings into pointer motion.
#[derive(Debug)]
pub struct MouseMapper {
    state: MapperState,
}

impl View for MouseMapper {
    type V = MapperState;

    closed spec fn view(&self) -> MapperState {
        self.state
    }
}

impl MouseMapper {
    #[verifier::type_invariant]
    spec fn well_formed(self) -> bool {
        self.state.wf()
    }

    pub fn new() -> (r: Self)
        ensures
            r@ == MapperState::initial(),
    {
        MouseMapper {
            state: MapperState {
                filtered_x_q8: 0,
                filtered_y_q8: 0,
                speed_gain_q15: Q15_ONE,
                residual_x_q16: 0,
                residual_y_q16: 0,
            },
        }
    }

    /// Feeds one joystick reading and returns the pointer motion to send.
    pub fn update(&mut self, state: JoyState) -> (r: MouseState)
        ensures
            (final(self)@, r) == old(self)@.next(state),
            final(self)@.wf(),
            -127 <= r.dx <= 127,
            -127 <= r.dy <= 127,
    {
        proof {
            use_type_invariant(&*self);
        }
        let mut filtered_x_q8 = self.state.filtered_x_q8;
        let mut filtered_y_q8 = self.state.filtered_y_q8;
        let mut speed_gain_q15 = self.state.speed_gain_q15;
        let mut residual_x_q16 = self.state.residual_x_q16;
        let mut residual_y_q16 = self.state.residual_y_q16;

        update_filter(&mut filtered_x_q8, state.x);
        update_filter(&mut filtered_y_q8, state.y);
        let shaped_x_q15 = axis_shaped_q15(filtered_x_q8, MOUSE_INVERT_X);
        let shaped_y_q15 = axis_shaped_q15(filtered_y_q8, MOUSE_INVERT_Y);
        update_speed_gain(&mut speed_gain_q15, shaped_x_q15 != 0 || shaped_y_q15 != 0);
        let velocity_x_q16 = axis_velocity_q16(shaped_x_q15, speed_gain_q15);
        let velocity_y_q16 = axis_velocity_q16(shaped_y_q15, speed_gain_q15);
        residual_x_q16 += velocity_x_q16 / MOUSE_POLL_HZ;
        residual_y_q16 += velocity_y_q16 / MOUSE_POLL_HZ;
        let dx = take_delta(&mut residual_x_q16);
        let dy = take_delta(&mut residual_y_q16);
        self.state = MapperState {
            filtered_x_q8,
            filtered_y_q8,
            speed_gain_q15,
            residual_x_q16,
            residual_y_q16,
        };
        MouseState { dx, dy, left_pressed: state.pressed }
    }
}

fn update_filter(current_q8: &mut i32, sample: i8)
    requires
        FILTER_MIN_Q8 <= *old(current_q8) <= FILTER_MAX_Q8,
    ensures
        *final(current_q8) == filter_next(*old(current_q8) as int, sample as int),
        FILTER_MIN_Q8 <= *final(current_q8) <= FILTER_MAX_Q8,
{
    let target_q8 = (sample as i32) * Q8_ONE;
    let difference = target_q8 - *current_q8;
    let step = (difference as i64) * (MOUSE_SMOOTHING_Q15 as i64) / Q15_ONE;
    assert(step == trunc_div(difference * MOUSE_SMOOTHING_Q15, Q15_ONE as int));
    *current_q8 += step as i32;
}

fn update_speed_gain(speed_gain_q15: &mut i64, active: bool)
    requires
        Q15_ONE <= *old(speed_gain_q15) <= max_gain_q15(),
    ensures
        *final(speed_gain_q15) == gain_next(*old(speed_gain_q15) as int, active),
        Q15_ONE <= *final(speed_gain_q15) <= max_gain_q15(),
{
    let max_gain_q15 = (MOUSE_MAX_SPEED_PX_PER_SEC as i64) * Q15_ONE
        / (MOUSE_BASE_SPEED_PX_PER_SEC as i64);
    if active {
        *speed_gain_q15 += (MOUSE_GAIN_RISE_Q15_PER_SEC as i64) / MOUSE_POLL_HZ;
        if *speed_gain_q15 < Q15_ONE {
            *speed_gain_q15 = Q15_ONE;
        } else if *speed_gain_q15 > max_gain_q15 {
            *speed_gain_q15 = max_gain_q15;
        }
    } else {
        *speed_gain_q15 -= (MOUSE_GAIN_FALL_Q15_PER_SEC as i64) / MOUSE_POLL_HZ;
        if *speed_gain_q15 < Q15_ONE {
            *speed_gain_q15 = Q15_ONE;
        }
    }
}

proof fn lemma_square_bound(n: int)
    requires
        0 <= n <= 32768,
    ensures
        0 <= n * n / 32768 <= 32768,
        0 <= n * n <= 32768 * 32768,
{
    assert(0 <= n * n <= 32768 * 32768) by (nonlinear_arith)
        requires
            0 <= n <= 32768,
    ;
}

fn axis_shaped_q15(value_q8: i32, invert: bool) -> (r: i64)
    requires
        FILTER_MIN_Q8 <= value_q8 <= FILTER_MAX_Q8,
    ensures
        r == shaped_q15(value_q8 as int, invert),
        -Q15_ONE <= r <= Q15_ONE,
{
    let mut value = value_q8 as i64;
    if invert {
        value = -value;
    }
    let magnitude = if value < 0 {
        -value
    } else {
        value
    };
    let dead_zone_px = MOUSE_DEAD_ZONE as i64;
    let one_q8 = Q8_ONE as i64;
    assert(dead_zone_px * one_q8 == 2048) by (nonlinear_arith)
        requires
            dead_zone_px == 8,
            one_q8 == 256,
    ;
    let dead_zone = dead_zone_px * one_q8;
    if magnitude <= dead_zone {
        return 0;
    }
    let sign: i64 = if value < 0 {
        -1
    } else {
        1
    };
    let span_px = (127 - MOUSE_DEAD_ZONE) as i64;
    assert(span_px * one_q8 == 30464) by (nonlinear_arith)
        requires
            span_px == 119,
            one_q8 == 256,
    ;
    let range = span_px * one_q8;
    let scaled = (magnitude - dead_zone) * Q15_ONE / range;
    let normalized_q15 = if scaled < 0 {
        0
    } else if scaled > Q15_ONE {
        Q15_ONE
    } else {
        scaled
    };
    proof {
        lemma_square_bound(normalized_q15 as int);
    }
    let squared_q15 = normalized_q15 * normalized_q15 / Q15_ONE;
    let weight = MOUSE_CURVE_WEIGHT_Q15 as i64;
    let shaped_q15 = ((Q15_ONE - weight) * normalized_q15 + weight * squared_q15) / Q15_ONE;
    assert(shaped_q15 == curve_q15(normalized_q15 as int));
    sign * shaped_q15
}

proof fn lemma_product_bound(s: int, g: int)
    requires
        -32768 <= s <= 32768,
        32768 <= g <= 109226,
    ensures
        -32768 * 109226 <= s * g <= 32768 * 109226,
{
    assert(-32768 * 109226 <= s * g <= 32768 * 109226) by (nonlinear_arith)
        requires
            -32768 <= s <= 32768,
            32768 <= g <= 109226,
    ;
}

fn axis_velocity_q16(shaped_q15: i64, speed_gain_q15: i64) -> (r: i64)
    requires
        -Q15_ONE <= shaped_q15 <= Q15_ONE,
        Q15_ONE <= speed_gain_q15 <= max_gain_q15(),
    ensures
        r == velocity_q16(shaped_q15 as int, speed_gain_q15 as int),
        -max_velocity_q16() <= r <= max_velocity_q16(),
{
    proof {
        lemma_product_bound(shaped_q15 as int, speed_gain_q15 as int);
    }
    let product = shaped_q15 * speed_gain_q15;
    let base_speed = MOUSE_BASE_SPEED_PX_PER_SEC as i64;
    assert(product * base_speed == product * 300) by (nonlinear_arith)
        requires
            base_speed == 300,
    ;
    let velocity_q16 = product * base_speed * 2 / Q15_ONE;
    let max_velocity_q16 = (MOUSE_MAX_SPEED_PX_PER_SEC as i64) * Q16_ONE;
    if velocity_q16 < -max_velocity_q16 {
        -max_velocity_q16
    } else if velocity_q16 > max_velocity_q16 {
        max_velocity_q16
    } else {
        velocity_q16
    }
}

fn take_delta(residual_q16: &mut i64) -> (r: i8)
    requires
        abs_lt(*old(residual_q16) as int, 200 * Q16_ONE),
    ensures
        r == delta_of(*old(residual_q16) as int),
        *final(residual_q16) == *old(residual_q16) - r * Q16_ONE,
{
    let whole = *residual_q16 / Q16_ONE;
    let delta = if whole < -127 {
        -127
    } else if whole > 127 {
        127
    } else {
        whole
    };
    *residual_q16 -= delta * Q16_ONE;
    delta as i8
}


/// Both directions respond alike: the shaped value of a reversed
/// deflection is the reversed shaped value.
pub proof fn lemma_shaping_is_symmetric(value_q8: int, invert: bool)
    ensures
        shaped_q15(-value_q8, invert) == -shaped_q15(value_q8, invert),
{
}

/// Inverting an axis reverses its shaped value.
pub proof fn lemma_inversion_reverses(value_q8: int)
    ensures
        shaped_q15(value_q8, true) == -shaped_q15(value_q8, false),
{
}

/// A stick within the dead zone moves nothing: when the filtered values
/// are inside the dead zone as well, the poll sends no motion, the
/// filtered values stay inside, and the speed gain falls back.
pub proof fn lemma_dead_zone_is_still(s: MapperState, joy: JoyState)
    requires
        s.wf(),
        -MOUSE_DEAD_ZONE <= joy.x <= MOUSE_DEAD_ZONE,
        -MOUSE_DEAD_ZONE <= joy.y <= MOUSE_DEAD_ZONE,
        -dead_zone_q8() <= s.filtered_x_q8 <= dead_zone_q8(),
        -dead_zone_q8() <= s.filtered_y_q8 <= dead_zone_q8(),
    ensures
        ({
            let (s2, out) = s.next(joy);
            &&& out.dx == 0
            &&& out.dy == 0
            &&& -dead_zone_q8() <= s2.filtered_x_q8 <= dead_zone_q8()
            &&& -dead_zone_q8() <= s2.filtered_y_q8 <= dead_zone_q8()
            &&& s2.speed_gain_q15 == gain_next(s.speed_gain_q15 as int, false)
            &&& s2.residual_x_q16 == s.residual_x_q16
            &&& s2.residual_y_q16 == s.residual_y_q16
        }),
{
    let fx = filter_next(s.filtered_x_q8 as int, joy.x as int);
    let fy = filter_next(s.filtered_y_q8 as int, joy.y as int);
    assert(-dead_zone_q8() <= fx <= dead_zone_q8());
    assert(-dead_zone_q8() <= fy <= dead_zone_q8());
    assert(shaped_q15(fx, MOUSE_INVERT_X) == 0);
    assert(shaped_q15(fy, MOUSE_INVERT_Y) == 0);
    let g = gain_next(s.speed_gain_q15 as int, false);
    assert(velocity_q16(0, g) == 0);
}

/// Motion is never lost: what a poll sends plus what it keeps equals what
/// it had plus the motion of this poll.
pub proof fn lemma_motion_is_kept(s: MapperState, joy: JoyState)
    requires
        s.wf(),
    ensures
        ({
            let (s2, out) = s.next(joy);
            let fx = filter_next(s.filtered_x_q8 as int, joy.x as int);
            let fy = filter_next(s.filtered_y_q8 as int, joy.y as int);
            let sx = shaped_q15(fx, MOUSE_INVERT_X);
            let sy = shaped_q15(fy, MOUSE_INVERT_Y);
            let g = gain_next(s.speed_gain_q15 as int, sx != 0 || sy != 0);
            &&& s2.residual_x_q16 + out.dx * Q16_ONE == s.residual_x_q16 + trunc_div(
                velocity_q16(sx, g),
                MOUSE_POLL_HZ as int,
            )
            &&& s2.residual_y_q16 + out.dy * Q16_ONE == s.residual_y_q16 + trunc_div(
                velocity_q16(sy, g),
                MOUSE_POLL_HZ as int,
            )
        }),
{
    let fx = filter_next(s.filtered_x_q8 as int, joy.x as int);
    let fy = filter_next(s.filtered_y_q8 as int, joy.y as int);
    let sx = shaped_q15(fx, MOUSE_INVERT_X);
    let sy = shaped_q15(fy, MOUSE_INVERT_Y);
    let g = gain_next(s.speed_gain_q15 as int, sx != 0 || sy != 0);
    assert(-max_velocity_q16() <= velocity_q16(sx, g) <= max_velocity_q16());
    assert(-max_velocity_q16() <= velocity_q16(sy, g) <= max_velocity_q16());
}


/// Released, the stick lets the speed gain fall: when neither axis is out
/// of the dead zone after filtering, the gain drops by the fall rate's share
/// of one poll, but not below 1, so a gain above 1 always falls.
pub proof fn lemma_gain_falls_when_idle(s: MapperState, joy: JoyState)
    requires
        s.wf(),
        shaped_q15(filter_next(s.filtered_x_q8 as int, joy.x as int), MOUSE_INVERT_X) == 0,
        shaped_q15(filter_next(s.filtered_y_q8 as int, joy.y as int), MOUSE_INVERT_Y) == 0,
    ensures
        ({
            let fall = MOUSE_GAIN_FALL_Q15_PER_SEC as int / MOUSE_POLL_HZ as int;
            let g = s.next(joy).0.speed_gain_q15;
            &&& g == (if s.speed_gain_q15 - fall < Q15_ONE {
                Q15_ONE as int
            } else {
                s.speed_gain_q15 - fall
            })
            &&& s.speed_gain_q15 > Q15_ONE ==> g < s.speed_gain_q15
            &&& g >= Q15_ONE
        }),
{
}

/// Held out of the dead zone, the stick lets the speed gain grow: it rises
/// by the rise rate's share of one poll, up to the maximum.
pub proof fn lemma_gain_rises_when_held(s: MapperState, joy: JoyState)
    requires
        s.wf(),
        shaped_q15(filter_next(s.filtered_x_q8 as int, joy.x as int), MOUSE_INVERT_X) != 0
            || shaped_q15(filter_next(s.filtered_y_q8 as int, joy.y as int), MOUSE_INVERT_Y) != 0,
    ensures
        ({
            let rise = MOUSE_GAIN_RISE_Q15_PER_SEC as int / MOUSE_POLL_HZ as int;
            let g = s.next(joy).0.speed_gain_q15;
            &&& g == (if s.speed_gain_q15 + rise > max_gain_q15() {
                max_gain_q15()
            } else {
                s.speed_gain_q15 + rise
            })
            &&& s.speed_gain_q15 < max_gain_q15() ==> g > s.speed_gain_q15
        }),
{
}

/// The pointer never moves faster than the maximum speed: at most the
/// maximum speed's pixels per poll on each axis (8 at 1000 px/s and
/// 125 Hz).
pub proof fn lemma_speed_cap(s: MapperState, joy: JoyState)
    requires
        s.wf(),
    ensures
        ({
            let out = s.next(joy).1;
            let per_poll = MOUSE_MAX_SPEED_PX_PER_SEC as int / MOUSE_POLL_HZ as int;
            &&& -per_poll <= out.dx <= per_poll
            &&& -per_poll <= out.dy <= per_poll
        }),
{
    lemma_motion_is_kept(s, joy);
    let fx = filter_next(s.filtered_x_q8 as int, joy.x as int);
    let fy = filter_next(s.filtered_y_q8 as int, joy.y as int);
    let sx = shaped_q15(fx, MOUSE_INVERT_X);
    let sy = shaped_q15(fy, MOUSE_INVERT_Y);
    let g = gain_next(s.speed_gain_q15 as int, sx != 0 || sy != 0);
    assert(-max_velocity_q16() <= velocity_q16(sx, g) <= max_velocity_q16());
    assert(-max_velocity_q16() <= velocity_q16(sy, g) <= max_velocity_q16());
}

} // verus!
