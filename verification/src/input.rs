//! The input state machine: taps, holds, combos and scroll mode of the
//! two buttons and the joystick click.

use vstd::prelude::*;

use crate::config::{
    popcount, Action, ButtonInputConfig, ComboConfig, InputConfig, Orientation, ScrollConfig,
    BUTTON_A_BIT, BUTTON_B_BIT, JOY_CLICK_BIT,
};
use crate::mini_joyc::JoyState;

verus! {

/// Which inputs are down.
#[derive(Debug, Clone, Copy, PartialEq, Eq, Structural)]
pub struct InputState {
    pub button_a: bool,
    pub button_b: bool,
    pub joy_click: bool,
}

/// The bits of a mask that stand for inputs that are down.
pub open spec fn bit_when(down: bool, bit: u8) -> int {
    if down {
        bit as int
    } else {
        0
    }
}

impl InputState {
    /// The button mask: bit 0 for A, bit 1 for B, bit 2 for the click.
    pub open spec fn mask(self) -> u8 {
        (bit_when(self.button_a, BUTTON_A_BIT) + bit_when(self.button_b, BUTTON_B_BIT) + bit_when(
            self.joy_click,
            JOY_CLICK_BIT,
        )) as u8
    }

    /// No input is down.
    pub open spec fn none_down(self) -> bool {
        !self.button_a && !self.button_b && !self.joy_click
    }

    pub fn button_mask(self) -> (r: u8)
        ensures
            r == self.mask(),
            r < 8,
    {
        let mut mask: u8 = 0;
        if self.button_a {
            assert(0u8 | 1u8 == 1u8) by (bit_vector);
            mask |= BUTTON_A_BIT;
        }
        assert(mask < 2);
        if self.button_b {
            assert(mask | 2u8 == mask + 2) by (bit_vector)
                requires
                    mask < 2,
            ;
            mask |= BUTTON_B_BIT;
        }
        assert(mask < 4);
        if self.joy_click {
            assert(mask | 4u8 == mask + 4) by (bit_vector)
                requires
                    mask < 4,
            ;
            mask |= JOY_CLICK_BIT;
        }
        mask
    }
}

/// One poll of the inputs: buttons and joystick.
#[derive(Debug, Clone, Copy, PartialEq, Eq, Structural)]
pub struct InputSample {
    pub buttons: InputState,
    pub joy: JoyState,
}

/// An action that the input machine decided to send.
#[derive(Debug, Clone, Copy, PartialEq, Eq, Structural)]
pub struct InputEvent {
    pub action: Action,
}

/// What one poll produced: at most one event, and whether the joystick
/// now scrolls.
#[derive(Debug, Clone, Copy, PartialEq, Eq, Structural)]
pub struct InputOutcome {
    pub event: Option<InputEvent>,
    pub scroll_mode: bool,
}

/// Milliseconds from `since` to `now`, and 0 when `now` is earlier.
pub open spec fn elapsed_ms(now: u64, since: u64) -> int {
    if now >= since {
        now - since
    } else {
        0
    }
}

fn saturating_elapsed(now: u64, since: u64) -> (r: u64)
    ensures
        r == elapsed_ms(now, since),
{
    if now >= since {
        now - since
    } else {
        0
    }
}

/// An action, unless it is the empty one.
pub open spec fn action_option(action: Action) -> Option<Action> {
    match action {
        Action::Nothing => Option::None,
        other => Option::Some(other),
    }
}

fn action_or_none(action: Action) -> (r: Option<Action>)
    ensures
        r == action_option(action),
{
    match action {
        Action::Nothing => None,
        other => Some(other),
    }
}

/// The press of one input: whether it is down, when it went down, whether
/// an action already used this press, and whether its hold was sent.
#[derive(Debug, Clone, Copy, PartialEq, Eq, Structural)]
pub struct ButtonRuntime {
    pub down: bool,
    pub pressed_at_ms: u64,
    pub consumed: bool,
    pub hold_sent: bool,
}

impl ButtonRuntime {
    pub open spec fn released() -> ButtonRuntime {
        ButtonRuntime { down: false, pressed_at_ms: 0, consumed: false, hold_sent: false }
    }

    /// The press after a poll: a new press starts fresh at `now_ms`.
    pub open spec fn after_sample(self, down: bool, now_ms: u64) -> ButtonRuntime {
        if down && !self.down {
            ButtonRuntime { down: true, pressed_at_ms: now_ms, consumed: false, hold_sent: false }
        } else {
            ButtonRuntime { down, ..self }
        }
    }

    /// A release that sends the tap: short enough and not used otherwise.
    pub open spec fn tap_due(self, was_down: bool, is_down: bool, now_ms: u64, tap_max_ms: u64) -> bool {
        &&& was_down
        &&& !is_down
        &&& !self.consumed
        &&& elapsed_ms(now_ms, self.pressed_at_ms) <= tap_max_ms
    }

    /// A press held long enough to send its hold action, once.
    pub open spec fn hold_due(self, now_ms: u64, config: ButtonInputConfig) -> bool {
        &&& self.down
        &&& !self.consumed
        &&& !self.hold_sent
        &&& config.hold != Action::Nothing
        &&& elapsed_ms(now_ms, self.pressed_at_ms) >= config.hold_ms
    }

    pub open spec fn tap_result(
        self,
        was_down: bool,
        is_down: bool,
        now_ms: u64,
        config: ButtonInputConfig,
        tap_max_ms: u64,
    ) -> (ButtonRuntime, Option<Action>) {
        if self.tap_due(was_down, is_down, now_ms, tap_max_ms) {
            (ButtonRuntime { consumed: true, ..self }, action_option(config.tap))
        } else {
            (self, Option::None)
        }
    }

    pub open spec fn hold_result(self, now_ms: u64, config: ButtonInputConfig) -> (
        ButtonRuntime,
        Option<Action>,
    ) {
        if self.hold_due(now_ms, config) {
            (ButtonRuntime { consumed: true, hold_sent: true, ..self }, Option::Some(config.hold))
        } else {
            (self, Option::None)
        }
    }

    fn new() -> (r: Self)
        ensures
            r == ButtonRuntime::released(),
    {
        ButtonRuntime { down: false, pressed_at_ms: 0, consumed: false, hold_sent: false }
    }

    fn update_down(&mut self, down: bool, now_ms: u64)
        ensures
            *final(self) == old(self).after_sample(down, now_ms),
    {
        if down && !self.down {
            self.pressed_at_ms = now_ms;
            self.consumed = false;
            self.hold_sent = false;
        }
        self.down = down;
    }

    fn released_tap(
        &mut self,
        was_down: bool,
        is_down: bool,
        now_ms: u64,
        config: &ButtonInputConfig,
        tap_max_ms: u64,
    ) -> (r: Option<Action>)
        ensures
            (*final(self), r) == old(self).tap_result(was_down, is_down, now_ms, *config, tap_max_ms),
    {
        if was_down && !is_down && !self.consumed && saturating_elapsed(now_ms, self.pressed_at_ms)
            <= tap_max_ms {
            self.consumed = true;
            return action_or_none(config.tap);
        }
        None
    }

    fn hold_event(&mut self, now_ms: u64, config: &ButtonInputConfig) -> (r: Option<Action>)
        ensures
            (*final(self), r) == old(self).hold_result(now_ms, *config),
    {
        if self.down && !self.consumed && !self.hold_sent && config.hold != Action::Nothing
            && saturating_elapsed(now_ms, self.pressed_at_ms) >= config.hold_ms {
            self.consumed = true;
            self.hold_sent = true;
            return Some(config.hold);
        }
        None
    }
}

/// Everything the input machine remembers between polls.
#[derive(Debug, Clone, Copy, PartialEq, Eq, Structural)]
pub struct EngineState {
    pub button_a: ButtonRuntime,
    pub button_b: ButtonRuntime,
    pub joy_click: ButtonRuntime,
    /// The buttons of the combo that fired last; no combo fires again
    /// until one of them is released.
    pub combo_lock: u8,
    pub scroll_mode: bool,
}

pub open spec fn min_u64(a: u64, b: u64) -> u64 {
    if a <= b {
        a
    } else {
        b
    }
}

pub open spec fn max_u64(a: u64, b: u64) -> u64 {
    if a >= b {
        a
    } else {
        b
    }
}

/// The joystick as seen by a user who holds the device in `orientation`.
pub open spec fn rotated(x: int, y: int, orientation: Orientation) -> (int, int) {
    match orientation {
        Orientation::Normal => (x, y),
        Orientation::Right => (-y, x),
        Orientation::Inverted => (-x, -y),
        Orientation::Left => (y, -x),
    }
}

pub open spec fn abs_int(v: int) -> int {
    if v < 0 {
        -v
    } else {
        v
    }
}

impl EngineState {
    /// Nothing down, no combo locked, no scrolling.
    pub open spec fn initial() -> EngineState {
        EngineState {
            button_a: ButtonRuntime::released(),
            button_b: ButtonRuntime::released(),
            joy_click: ButtonRuntime::released(),
            combo_lock: 0,
            scroll_mode: false,
        }
    }

    /// Which inputs the machine holds as down.
    pub open spec fn down_state(self) -> InputState {
        InputState {
            button_a: self.button_a.down,
            button_b: self.button_b.down,
            joy_click: self.joy_click.down,
        }
    }

    /// No input down and no combo locked.
    pub open spec fn idle(self) -> bool {
        &&& !self.button_a.down
        &&& !self.button_b.down
        &&& !self.joy_click.down
        &&& self.combo_lock == 0
    }

    pub open spec fn sampled(self, buttons: InputState, now_ms: u64) -> EngineState {
        EngineState {
            button_a: self.button_a.after_sample(buttons.button_a, now_ms),
            button_b: self.button_b.after_sample(buttons.button_b, now_ms),
            joy_click: self.joy_click.after_sample(buttons.joy_click, now_ms),
            ..self
        }
    }

    /// The combo lock lasts while all of its buttons stay down.
    pub open spec fn lock_checked(self, mask: u8) -> EngineState {
        if self.combo_lock != 0 && (mask & self.combo_lock) != self.combo_lock {
            EngineState { combo_lock: 0, ..self }
        } else {
            self
        }
    }

    /// Earliest press time among `buttons` (the largest time when none).
    pub open spec fn first_pressed_at(self, buttons: u8) -> u64 {
        let f0 = u64::MAX;
        let f1 = if buttons & BUTTON_A_BIT != 0 {
            min_u64(f0, self.button_a.pressed_at_ms)
        } else {
            f0
        };
        let f2 = if buttons & BUTTON_B_BIT != 0 {
            min_u64(f1, self.button_b.pressed_at_ms)
        } else {
            f1
        };
        if buttons & JOY_CLICK_BIT != 0 {
            min_u64(f2, self.joy_click.pressed_at_ms)
        } else {
            f2
        }
    }

    /// Latest press time among `buttons` (0 when none).
    pub open spec fn last_pressed_at(self, buttons: u8) -> u64 {
        let l0 = 0u64;
        let l1 = if buttons & BUTTON_A_BIT != 0 {
            max_u64(l0, self.button_a.pressed_at_ms)
        } else {
            l0
        };
        let l2 = if buttons & BUTTON_B_BIT != 0 {
            max_u64(l1, self.button_b.pressed_at_ms)
        } else {
            l1
        };
        if buttons & JOY_CLICK_BIT != 0 {
            max_u64(l2, self.joy_click.pressed_at_ms)
        } else {
            l2
        }
    }

    /// The combo's inputs went down within `window_ms` of each other.
    pub open spec fn in_combo_window(self, combo: ComboConfig, window_ms: u64) -> bool {
        elapsed_ms(self.last_pressed_at(combo.buttons), self.first_pressed_at(combo.buttons))
            <= window_ms
    }

    /// A combo may fire: all of its inputs are down and, unless it is a
    /// hold combo, they went down together.
    pub open spec fn combo_candidate(self, mask: u8, combo: ComboConfig, window_ms: u64) -> bool {
        &&& (mask & combo.buttons) == combo.buttons
        &&& (combo.hold_ms != 0 || self.in_combo_window(combo, window_ms))
    }

    /// The candidate with the most inputs, the earliest one among equals,
    /// with its number of inputs (0 when there is none).
    pub open spec fn best_combo(self, mask: u8, combos: Seq<ComboConfig>, window_ms: u64) -> (
        Option<ComboConfig>,
        nat,
    )
        decreases combos.len(),
    {
        if combos.len() == 0 {
            (Option::None, 0)
        } else {
            let prev = self.best_combo(mask, combos.drop_last(), window_ms);
            let combo = combos.last();
            if self.combo_candidate(mask, combo, window_ms) && popcount(combo.buttons) > prev.1 {
                (Option::Some(combo), popcount(combo.buttons))
            } else {
                prev
            }
        }
    }

    /// Marks the presses of `buttons` as used.
    pub open spec fn consumed(self, buttons: u8) -> EngineState {
        EngineState {
            button_a: if buttons & BUTTON_A_BIT != 0 {
                ButtonRuntime { consumed: true, ..self.button_a }
            } else {
                self.button_a
            },
            button_b: if buttons & BUTTON_B_BIT != 0 {
                ButtonRuntime { consumed: true, ..self.button_b }
            } else {
                self.button_b
            },
            joy_click: if buttons & JOY_CLICK_BIT != 0 {
                ButtonRuntime { consumed: true, ..self.joy_click }
            } else {
                self.joy_click
            },
            ..self
        }
    }

    /// The best combo fires, unless it is a hold combo not yet held long
    /// enough; firing uses its presses and locks it.
    pub open spec fn combo_result(self, mask: u8, config: &InputConfig, now_ms: u64) -> (
        EngineState,
        Option<Action>,
    ) {
        match self.best_combo(mask, config.combos@, config.combo_window_ms).0 {
            Option::None => (self, Option::None),
            Option::Some(combo) => {
                if combo.hold_ms > 0 && elapsed_ms(now_ms, self.first_pressed_at(combo.buttons))
                    < combo.hold_ms {
                    (self, Option::None)
                } else {
                    (
                        EngineState { combo_lock: combo.buttons, ..self.consumed(combo.buttons) },
                        Option::Some(combo.action),
                    )
                }
            },
        }
    }

    /// The first hold that is due, in the order A, B, click.
    pub open spec fn hold_result(self, config: &InputConfig, now_ms: u64) -> (
        EngineState,
        Option<Action>,
    ) {
        let (a, ea) = self.button_a.hold_result(now_ms, config.button_a);
        if ea is Some {
            (EngineState { button_a: a, ..self }, ea)
        } else {
            let (b, eb) = self.button_b.hold_result(now_ms, config.button_b);
            if eb is Some {
                (EngineState { button_b: b, ..self }, eb)
            } else {
                let (j, ej) = self.joy_click.hold_result(now_ms, config.joy_click);
                (EngineState { joy_click: j, ..self }, ej)
            }
        }
    }

    /// Scroll mode holds while A is down; it starts when the joystick,
    /// turned to the device's orientation, leaves the scroll dead zone
    /// vertically, and it uses A's press.
    pub open spec fn scroll_result(
        self,
        sample: InputSample,
        config: &InputConfig,
        scroll: ScrollConfig,
        orientation: Orientation,
    ) -> EngineState {
        if !sample.buttons.button_a {
            EngineState { scroll_mode: false, ..self }
        } else if config.button_a.hold_joy != Action::ScrollMode {
            self
        } else if abs_int(rotated(sample.joy.x as int, sample.joy.y as int, orientation).1)
            > scroll.dead_zone {
            EngineState {
                button_a: ButtonRuntime { consumed: true, ..self.button_a },
                scroll_mode: true,
                ..self
            }
        } else {
            self
        }
    }

    /// Taps of released inputs, in the order A, B, click; releasing A
    /// also ends scroll mode.
    pub open spec fn release_result(
        self,
        current: InputState,
        previous: InputState,
        config: &InputConfig,
        now_ms: u64,
    ) -> (EngineState, Option<Action>) {
        let s1 = if previous.button_a && !current.button_a {
            let (a, e) = self.button_a.tap_result(
                previous.button_a,
                current.button_a,
                now_ms,
                config.button_a,
                config.tap_max_ms,
            );
            (EngineState { button_a: a, scroll_mode: false, ..self }, e)
        } else {
            (self, Option::None)
        };
        let s2 = if s1.1 is None && previous.button_b && !current.button_b {
            let (b, e) = s1.0.button_b.tap_result(
                previous.button_b,
                current.button_b,
                now_ms,
                config.button_b,
                config.tap_max_ms,
            );
            (EngineState { button_b: b, ..s1.0 }, e)
        } else {
            s1
        };
        if s2.1 is None && previous.joy_click && !current.joy_click {
            let (j, e) = s2.0.joy_click.tap_result(
                previous.joy_click,
                current.joy_click,
                now_ms,
                config.joy_click,
                config.tap_max_ms,
            );
            (EngineState { joy_click: j, ..s2.0 }, e)
        } else {
            s2
        }
    }

    /// One poll: record the inputs, then a combo, else a due hold, then
    /// scroll mode, else a tap of a released input.
    pub open spec fn step(
        self,
        sample: InputSample,
        config: &InputConfig,
        scroll: ScrollConfig,
        orientation: Orientation,
        now_ms: u64,
    ) -> (EngineState, InputOutcome) {
        let previous = self.down_state();
        let mask = sample.buttons.mask();
        let m1 = self.sampled(sample.buttons, now_ms).lock_checked(mask);
        let c = if m1.combo_lock == 0 {
            m1.combo_result(mask, config, now_ms)
        } else {
            (m1, Option::None)
        };
        let h = if c.1 is None {
            c.0.hold_result(config, now_ms)
        } else {
            c
        };
        let m3 = h.0.scroll_result(sample, config, scroll, orientation);
        let r = if h.1 is None {
            m3.release_result(sample.buttons, previous, config, now_ms)
        } else {
            (m3, h.1)
        };
        (
            r.0,
            InputOutcome {
                event: match r.1 {
                    Option::Some(action) => Option::Some(InputEvent { action }),
                    Option::None => Option::None,
                },
                scroll_mode: r.0.scroll_mode,
            },
        )
    }
}

/// The input machine.
#[derive(Debug, Clone, Copy, PartialEq, Eq)]
pub struct InputEngine {
    state: EngineState,
}

impl View for InputEngine {
    type V = EngineState;

    closed spec fn view(&self) -> EngineState {
        self.state
    }
}

proof fn lemma_popcount_le(x: u8)
    ensures
        popcount(x) <= x,
    decreases x,
{
    if x != 0 {
        lemma_popcount_le(x / 2);
    }
}

fn count_ones(x: u8) -> (r: u32)
    ensures
        r == popcount(x),
{
    let mut v: u8 = x;
    let mut count: u32 = 0;
    proof {
        lemma_popcount_le(x);
    }
    while v != 0
        invariant
            count + popcount(v) == popcount(x),
            popcount(x) <= 255,
        decreases v,
    {
        count = count + (v % 2) as u32;
        v = v / 2;
    }
    count
}

fn min_of(a: u64, b: u64) -> (r: u64)
    ensures
        r == min_u64(a, b),
{
    if a <= b {
        a
    } else {
        b
    }
}

fn max_of(a: u64, b: u64) -> (r: u64)
    ensures
        r == max_u64(a, b),
{
    if a >= b {
        a
    } else {
        b
    }
}

impl InputEngine {
    pub fn new() -> (r: Self)
        ensures
            r@ == EngineState::initial(),
    {
        InputEngine {
            state: EngineState {
                button_a: ButtonRuntime::new(),
                button_b: ButtonRuntime::new(),
                joy_click: ButtonRuntime::new(),
                combo_lock: 0,
                scroll_mode: false,
            },
        }
    }

    /// Feeds one poll of the inputs taken at `now_ms`.
    pub fn update(
        &mut self,
        sample: InputSample,
        config: &InputConfig,
        scroll: &ScrollConfig,
        orientation: Orientation,
        now_ms: u64,
    ) -> (r: InputOutcome)
        ensures
            (final(self)@, r) == old(self)@.step(sample, config, *scroll, orientation, now_ms),
    {
        let previous = InputState {
            button_a: self.state.button_a.down,
            button_b: self.state.button_b.down,
            joy_click: self.state.joy_click.down,
        };
        self.state.button_a.update_down(sample.buttons.button_a, now_ms);
        self.state.button_b.update_down(sample.buttons.button_b, now_ms);
        self.state.joy_click.update_down(sample.buttons.joy_click, now_ms);
        let mask = sample.buttons.button_mask();
        if self.state.combo_lock != 0 && (mask & self.state.combo_lock) != self.state.combo_lock {
            self.state.combo_lock = 0;
        }
        let mut event = None;
        if self.state.combo_lock == 0 {
            event = self.combo_event(mask, config, now_ms);
        }
        if event.is_none() {
            event = self.hold_event(config, now_ms);
        }
        self.update_scroll_mode(sample, config, scroll, orientation);
        if event.is_none() {
            event = self.release_event(sample.buttons, previous, config, now_ms);
        }
        InputOutcome {
            event: match event {
                Some(action) => Some(InputEvent { action }),
                None => None,
            },
            scroll_mode: self.state.scroll_mode,
        }
    }

    fn combo_event(&mut self, mask: u8, config: &InputConfig, now_ms: u64) -> (r: Option<Action>)
        ensures
            (final(self)@, r) == old(self)@.combo_result(mask, config, now_ms),
    {
        let mut selected: Option<ComboConfig> = None;
        let mut selected_bits: u32 = 0;
        let mut i: usize = 0;
        let ghost combos = config.combos@;
        while i < config.combos.len()
            invariant
                0 <= i <= combos.len(),
                combos == config.combos@,
                (selected, selected_bits as nat) == self@.best_combo(
                    mask,
                    combos.take(i as int),
                    config.combo_window_ms,
                ),
            decreases combos.len() - i,
        {
            let combo = config.combos[i];
            proof {
                assert(combos.take(i + 1).drop_last() =~= combos.take(i as int));
                assert(combos.take(i + 1).last() == combo);
            }
            if (mask & combo.buttons) != combo.buttons {
                i = i + 1;
                continue;
            }
            if combo.hold_ms == 0 && !self.within_combo_window(&combo, config.combo_window_ms) {
                i = i + 1;
                continue;
            }
            let bits = count_ones(combo.buttons);
            if bits > selected_bits {
                selected = Some(combo);
                selected_bits = bits;
            }
            i = i + 1;
        }
        proof {
            assert(combos.take(combos.len() as int) =~= combos);
        }
        let combo = match selected {
            Some(combo) => combo,
            None => {
                return None;
            },
        };
        let first_pressed_at_ms = self.first_pressed_at_ms(combo.buttons);
        if combo.hold_ms > 0 && saturating_elapsed(now_ms, first_pressed_at_ms) < combo.hold_ms {
            return None;
        }
        self.consume(combo.buttons);
        self.state.combo_lock = combo.buttons;
        Some(combo.action)
    }

    fn hold_event(&mut self, config: &InputConfig, now_ms: u64) -> (r: Option<Action>)
        ensures
            (final(self)@, r) == old(self)@.hold_result(config, now_ms),
    {
        let a = self.state.button_a.hold_event(now_ms, &config.button_a);
        if a.is_some() {
            return a;
        }
        let b = self.state.button_b.hold_event(now_ms, &config.button_b);
        if b.is_some() {
            return b;
        }
        self.state.joy_click.hold_event(now_ms, &config.joy_click)
    }

    fn release_event(
        &mut self,
        current: InputState,
        previous: InputState,
        config: &InputConfig,
        now_ms: u64,
    ) -> (r: Option<Action>)
        ensures
            (final(self)@, r) == old(self)@.release_result(current, previous, config, now_ms),
    {
        let mut event = None;
        if previous.button_a && !current.button_a {
            event =
            self.state.button_a.released_tap(
                previous.button_a,
                current.button_a,
                now_ms,
                &config.button_a,
                config.tap_max_ms,
            );
            self.state.scroll_mode = false;
        }
        if event.is_none() && previous.button_b && !current.button_b {
            event =
            self.state.button_b.released_tap(
                previous.button_b,
                current.button_b,
                now_ms,
                &config.button_b,
                config.tap_max_ms,
            );
        }
        if event.is_none() && previous.joy_click && !current.joy_click {
            event =
            self.state.joy_click.released_tap(
                previous.joy_click,
                current.joy_click,
                now_ms,
                &config.joy_click,
                config.tap_max_ms,
            );
        }
        event
    }

    fn update_scroll_mode(
        &mut self,
        sample: InputSample,
        config: &InputConfig,
        scroll: &ScrollConfig,
        orientation: Orientation,
    )
        ensures
            final(self)@ == old(self)@.scroll_result(sample, config, *scroll, orientation),
    {
        if !sample.buttons.button_a {
            self.state.scroll_mode = false;
            return;
        }
        if config.button_a.hold_joy != Action::ScrollMode {
            return;
        }
        let (_, rotated_y) = rotate_joy(sample.joy.x as i32, sample.joy.y as i32, orientation);
        let magnitude = if rotated_y < 0 {
            -rotated_y
        } else {
            rotated_y
        };
        if magnitude > scroll.dead_zone {
            self.state.button_a.consumed = true;
            self.state.scroll_mode = true;
        }
    }

    fn within_combo_window(&self, combo: &ComboConfig, combo_window_ms: u64) -> (r: bool)
        ensures
            r == self@.in_combo_window(*combo, combo_window_ms),
    {
        let first = self.first_pressed_at_ms(combo.buttons);
        let last = self.last_pressed_at_ms(combo.buttons);
        saturating_elapsed(last, first) <= combo_window_ms
    }

    fn first_pressed_at_ms(&self, buttons: u8) -> (r: u64)
        ensures
            r == self@.first_pressed_at(buttons),
    {
        let mut first = u64::MAX;
        if buttons & BUTTON_A_BIT != 0 {
            first = min_of(first, self.state.button_a.pressed_at_ms);
        }
        if buttons & BUTTON_B_BIT != 0 {
            first = min_of(first, self.state.button_b.pressed_at_ms);
        }
        if buttons & JOY_CLICK_BIT != 0 {
            first = min_of(first, self.state.joy_click.pressed_at_ms);
        }
        first
    }

    fn last_pressed_at_ms(&self, buttons: u8) -> (r: u64)
        ensures
            r == self@.last_pressed_at(buttons),
    {
        let mut last: u64 = 0;
        if buttons & BUTTON_A_BIT != 0 {
            last = max_of(last, self.state.button_a.pressed_at_ms);
        }
        if buttons & BUTTON_B_BIT != 0 {
            last = max_of(last, self.state.button_b.pressed_at_ms);
        }
        if buttons & JOY_CLICK_BIT != 0 {
            last = max_of(last, self.state.joy_click.pressed_at_ms);
        }
        last
    }

    fn consume(&mut self, buttons: u8)
        ensures
            final(self)@ == old(self)@.consumed(buttons),
    {
        if buttons & BUTTON_A_BIT != 0 {
            self.state.button_a.consumed = true;
        }
        if buttons & BUTTON_B_BIT != 0 {
            self.state.button_b.consumed = true;
        }
        if buttons & JOY_CLICK_BIT != 0 {
            self.state.joy_click.consumed = true;
        }
    }
}

/// Turns a joystick reading to the way the device is held.
pub fn rotate_joy(x: i32, y: i32, orientation: Orientation) -> (r: (i32, i32))
    requires
        x > i32::MIN,
        y > i32::MIN,
    ensures
        (r.0 as int, r.1 as int) == rotated(x as int, y as int, orientation),
{
    match orientation {
        Orientation::Normal => (x, y),
        Orientation::Right => (-y, x),
        Orientation::Inverted => (-x, -y),
        Orientation::Left => (y, -x),
    }
}

} // verus!
