//! Settings of the presenter: the default profile's values and the types
//! that describe key mappings, combos and scrolling.

use vstd::prelude::*;

verus! {

/// Bit of button A in a button mask.
pub const BUTTON_A_BIT: u8 = 1;
/// Bit of button B in a button mask.
pub const BUTTON_B_BIT: u8 = 2;
/// Bit of the joystick click in a button mask.
pub const JOY_CLICK_BIT: u8 = 4;

/// HID mouse report bit of the left button.
pub const MOUSE_BUTTON_LEFT: u8 = 1;
/// HID mouse report bit of the right button.
pub const MOUSE_BUTTON_RIGHT: u8 = 2;
/// HID mouse report bit of the middle button.
pub const MOUSE_BUTTON_MIDDLE: u8 = 4;

/// HID keyboard usages of the arrow keys.
pub const KEY_RIGHT_ARROW: u8 = 0x4f;
pub const KEY_LEFT_ARROW: u8 = 0x50;

/// Profiles, in the order in which `next` walks through them.
pub const PROFILE_COUNT: usize = 3;
pub const DEFAULT_PROFILE_INDEX: usize = 0;

/// Pointer settings of the default profile.
pub const MOUSE_POLL_HZ: i64 = 125;
pub const MOUSE_POLL_INTERVAL_US: u64 = 8000;
pub const MOUSE_DEAD_ZONE: i32 = 8;
pub const MOUSE_BASE_SPEED_PX_PER_SEC: i32 = 300;
pub const MOUSE_MAX_SPEED_PX_PER_SEC: i32 = 1000;
pub const MOUSE_GAIN_RISE_Q15_PER_SEC: i32 = 196608;
pub const MOUSE_GAIN_FALL_Q15_PER_SEC: i32 = 196608;
pub const MOUSE_CURVE_WEIGHT_Q15: i32 = 22938;
pub const MOUSE_SMOOTHING_Q15: i32 = 16384;
pub const MOUSE_INVERT_X: bool = false;
pub const MOUSE_INVERT_Y: bool = false;

/// Keys sent by the two presenter buttons.
pub const BUTTON_A_KEY: u8 = 0x4f;
pub const BUTTON_B_KEY: u8 = 0x50;

/// Scroll settings of the default profile.
pub const SCROLL_DEAD_ZONE: i32 = 12;
pub const SCROLL_SPEED: i32 = 8;
pub const SCROLL_HORIZONTAL: bool = false;
pub const SCROLL_INVERT_VERTICAL: bool = false;
pub const SCROLL_INVERT_HORIZONTAL: bool = false;

/// Timing of taps, holds and combos.
pub const INPUT_COMBO_WINDOW_MS: u64 = 80;
pub const INPUT_TAP_MAX_MS: u64 = 300;
pub const INPUT_DEFAULT_HOLD_MS: u64 = 600;
pub const INPUT_PROFILE_COMBO_HOLD_MS: u64 = 800;

/// Raw ADC readings and voltages of an empty and a full battery.
pub const BATTERY_RAW_EMPTY: u16 = 2100;
pub const BATTERY_RAW_FULL: u16 = 2650;
pub const BATTERY_EMPTY_MV: u16 = 3300;
pub const BATTERY_FULL_MV: u16 = 4200;
pub const BATTERY_POLL_SECONDS: u64 = 5;

/// Seconds without input after which the backlight goes off.
pub const DISPLAY_TIMEOUT_SECONDS: u64 = 15;

/// What an input can trigger, by meaning rather than by HID value.
#[derive(Debug, Clone, Copy, PartialEq, Eq, Structural)]
pub enum Action {
    /// A keyboard key, by its HID usage.
    KeyboardKey(u8),
    /// A mouse button click, by its HID report bit.
    MouseButton(u8),
    ScrollMode,
    NextProfile,
    Nothing,
}

/// How the device is held; the joystick is rotated to match.
#[derive(Debug, Clone, Copy, PartialEq, Eq, Structural)]
pub enum Orientation {
    Normal,
    Right,
    Inverted,
    Left,
}

/// What one physical input does when tapped, held, or held while the
/// joystick moves.
#[derive(Debug, Clone, Copy, PartialEq, Eq, Structural)]
pub struct ButtonInputConfig {
    pub tap: Action,
    pub hold: Action,
    pub hold_ms: u64,
    pub hold_joy: Action,
}

/// A combination of inputs (a mask of the button bits) and its action.
/// A `hold_ms` of 0 makes the combo fire as soon as its inputs are down
/// within the combo window.
#[derive(Debug, Clone, Copy, PartialEq, Eq, Structural)]
pub struct ComboConfig {
    pub buttons: u8,
    pub action: Action,
    pub hold_ms: u64,
}

/// Tap, hold and combo settings of a profile.
#[derive(Debug, Clone)]
pub struct InputConfig {
    pub combo_window_ms: u64,
    pub tap_max_ms: u64,
    pub button_a: ButtonInputConfig,
    pub button_b: ButtonInputConfig,
    pub joy_click: ButtonInputConfig,
    pub combos: Vec<ComboConfig>,
}

/// Scroll settings of a profile.
#[derive(Debug, Clone, Copy, PartialEq, Eq, Structural)]
pub struct ScrollConfig {
    pub dead_zone: i32,
    pub speed: i32,
    pub horizontal: bool,
    pub invert_vertical: bool,
    pub invert_horizontal: bool,
}

/// Number of set bits of a byte.
pub open spec fn popcount(x: u8) -> nat
    decreases x,
{
    if x == 0 {
        0
    } else {
        (x % 2) as nat + popcount(x / 2)
    }
}

/// The inputs a combo may name: the three button bits and nothing else.
pub open spec fn is_button_set(buttons: u8) -> bool {
    buttons & 7u8 == buttons
}

impl ButtonInputConfig {
    /// What the settings file checks of one input: a positive hold time.
    pub open spec fn valid(self) -> bool {
        self.hold_ms > 0
    }
}

impl ComboConfig {
    /// What the settings file checks of a combo: at least two inputs, all
    /// of them buttons.
    pub open spec fn valid(self) -> bool {
        &&& is_button_set(self.buttons)
        &&& popcount(self.buttons) >= 2
    }
}

impl InputConfig {
    /// What the settings file checks of the input section.
    pub open spec fn valid(&self) -> bool {
        &&& self.combo_window_ms > 0
        &&& self.tap_max_ms > 0
        &&& self.button_a.valid()
        &&& self.button_b.valid()
        &&& self.joy_click.valid()
        &&& forall|i: int| 0 <= i < self.combos@.len() ==> (#[trigger] self.combos@[i]).valid()
    }
}

impl ScrollConfig {
    /// What the settings file checks of the scroll section.
    pub open spec fn valid(self) -> bool {
        &&& 0 <= self.dead_zone < 127
        &&& self.speed > 0
    }
}

/// The default profile's input settings: A and B send the arrow keys, the
/// joystick click is the left button, A with the joystick scrolls, A with
/// the click is the right button, B with the click the middle one, and
/// holding A and B switches to the next profile.
pub fn default_input_config() -> (r: InputConfig)
    ensures
        r.valid(),
        r.combo_window_ms == INPUT_COMBO_WINDOW_MS,
        r.tap_max_ms == INPUT_TAP_MAX_MS,
        r.button_a == (ButtonInputConfig {
            tap: Action::KeyboardKey(KEY_RIGHT_ARROW),
            hold: Action::Nothing,
            hold_ms: INPUT_DEFAULT_HOLD_MS,
            hold_joy: Action::ScrollMode,
        }),
        r.button_b == (ButtonInputConfig {
            tap: Action::KeyboardKey(KEY_LEFT_ARROW),
            hold: Action::Nothing,
            hold_ms: INPUT_DEFAULT_HOLD_MS,
            hold_joy: Action::Nothing,
        }),
        r.joy_click == (ButtonInputConfig {
            tap: Action::MouseButton(MOUSE_BUTTON_LEFT),
            hold: Action::Nothing,
            hold_ms: INPUT_DEFAULT_HOLD_MS,
            hold_joy: Action::Nothing,
        }),
        r.combos@ == seq![
            ComboConfig {
                buttons: BUTTON_A_BIT | JOY_CLICK_BIT,
                action: Action::MouseButton(MOUSE_BUTTON_RIGHT),
                hold_ms: 0,
            },
            ComboConfig {
                buttons: BUTTON_B_BIT | JOY_CLICK_BIT,
                action: Action::MouseButton(MOUSE_BUTTON_MIDDLE),
                hold_ms: 0,
            },
            ComboConfig {
                buttons: BUTTON_A_BIT | BUTTON_B_BIT,
                action: Action::NextProfile,
                hold_ms: INPUT_PROFILE_COMBO_HOLD_MS,
            },
        ],
{
    let mut combos: Vec<ComboConfig> = Vec::new();
    combos.push(
        ComboConfig {
            buttons: BUTTON_A_BIT | JOY_CLICK_BIT,
            action: Action::MouseButton(MOUSE_BUTTON_RIGHT),
            hold_ms: 0,
        },
    );
    combos.push(
        ComboConfig {
            buttons: BUTTON_B_BIT | JOY_CLICK_BIT,
            action: Action::MouseButton(MOUSE_BUTTON_MIDDLE),
            hold_ms: 0,
        },
    );
    combos.push(
        ComboConfig {
            buttons: BUTTON_A_BIT | BUTTON_B_BIT,
            action: Action::NextProfile,
            hold_ms: INPUT_PROFILE_COMBO_HOLD_MS,
        },
    );
    proof {
        assert((BUTTON_A_BIT | JOY_CLICK_BIT) == 5u8) by (bit_vector);
        assert((BUTTON_B_BIT | JOY_CLICK_BIT) == 6u8) by (bit_vector);
        assert((BUTTON_A_BIT | BUTTON_B_BIT) == 3u8) by (bit_vector);
        assert(5u8 & 7u8 == 5u8) by (bit_vector);
        assert(6u8 & 7u8 == 6u8) by (bit_vector);
        assert(3u8 & 7u8 == 3u8) by (bit_vector);
        reveal_with_fuel(popcount, 4);
        assert(popcount(5) == 2);
        assert(popcount(6) == 2);
        assert(popcount(3) == 2);
    }
    InputConfig {
        combo_window_ms: INPUT_COMBO_WINDOW_MS,
        tap_max_ms: INPUT_TAP_MAX_MS,
        button_a: ButtonInputConfig {
            tap: Action::KeyboardKey(KEY_RIGHT_ARROW),
            hold: Action::Nothing,
            hold_ms: INPUT_DEFAULT_HOLD_MS,
            hold_joy: Action::ScrollMode,
        },
        button_b: ButtonInputConfig {
            tap: Action::KeyboardKey(KEY_LEFT_ARROW),
            hold: Action::Nothing,
            hold_ms: INPUT_DEFAULT_HOLD_MS,
            hold_joy: Action::Nothing,
        },
        joy_click: ButtonInputConfig {
            tap: Action::MouseButton(MOUSE_BUTTON_LEFT),
            hold: Action::Nothing,
            hold_ms: INPUT_DEFAULT_HOLD_MS,
            hold_joy: Action::Nothing,
        },
        combos,
    }
}

/// The default profile's scroll settings.
pub fn default_scroll_config() -> (r: ScrollConfig)
    ensures
        r.valid(),
        r == (ScrollConfig {
            dead_zone: SCROLL_DEAD_ZONE,
            speed: SCROLL_SPEED,
            horizontal: SCROLL_HORIZONTAL,
            invert_vertical: SCROLL_INVERT_VERTICAL,
            invert_horizontal: SCROLL_INVERT_HORIZONTAL,
        }),
{
    ScrollConfig {
        dead_zone: SCROLL_DEAD_ZONE,
        speed: SCROLL_SPEED,
        horizontal: SCROLL_HORIZONTAL,
        invert_vertical: SCROLL_INVERT_VERTICAL,
        invert_horizontal: SCROLL_INVERT_HORIZONTAL,
    }
}

} // verus!
