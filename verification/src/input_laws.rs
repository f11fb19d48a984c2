//! What the input machine promises over one or more polls: combo
//! priority, silent presses, taps on release, and the inputs that a combo
//! or scroll mode has used never tapping.

use vstd::prelude::*;

use crate::config::{
    popcount, Action, ButtonInputConfig, ComboConfig, InputConfig, Orientation, ScrollConfig,
};
use crate::input::{
    abs_int, action_option, elapsed_ms, rotated, ButtonRuntime, EngineState, InputEvent, InputSample,
    InputState,
};

verus! {

/// The event an outcome carries for an action that may be empty.
pub open spec fn event_of(action: Option<Action>) -> Option<InputEvent> {
    match action {
        Option::Some(a) => Option::Some(InputEvent { action: a }),
        Option::None => Option::None,
    }
}

/// Among the combos that may fire, the chosen one has the most inputs and
/// is the earliest in the list among those with as many; none is chosen
/// only when no combo with inputs may fire.
pub proof fn lemma_best_combo_priority(
    m: EngineState,
    mask: u8,
    combos: Seq<ComboConfig>,
    window_ms: u64,
) -> (k: int)
    ensures
        ({
            let (best, bits) = m.best_combo(mask, combos, window_ms);
            match best {
                Option::None => bits == 0 && forall|j: int|
                    0 <= j < combos.len() && m.combo_candidate(mask, #[trigger] combos[j], window_ms)
                        ==> popcount(combos[j].buttons) == 0,
                Option::Some(c) => {
                    &&& 0 <= k < combos.len()
                    &&& combos[k] == c
                    &&& m.combo_candidate(mask, c, window_ms)
                    &&& bits == popcount(c.buttons)
                    &&& bits > 0
                    &&& forall|j: int|
                        0 <= j < combos.len() && m.combo_candidate(mask, #[trigger] combos[j], window_ms)
                            ==> popcount(combos[j].buttons) <= bits
                    &&& forall|j: int|
                        0 <= j < k && m.combo_candidate(mask, #[trigger] combos[j], window_ms)
                            ==> popcount(combos[j].buttons) < bits
                },
            }
        }),
    decreases combos.len(),
{
    if combos.len() == 0 {
        0
    } else {
        let prefix = combos.drop_last();
        let k0 = lemma_best_combo_priority(m, mask, prefix, window_ms);
        let c = combos.last();
        let n = combos.len() - 1;
        let prev = m.best_combo(mask, prefix, window_ms);
        assert forall|j: int| 0 <= j < prefix.len() implies #[trigger] prefix[j] == combos[j] by {}
        assert forall|j: int|
            0 <= j < n && m.combo_candidate(mask, #[trigger] combos[j], window_ms) implies popcount(
                combos[j].buttons,
            ) <= prev.1 by {
            assert(prefix[j] == combos[j]);
        }
        if m.combo_candidate(mask, c, window_ms) && popcount(c.buttons) > prev.1 {
            n
        } else {
            match prev.0 {
                Option::Some(p) => {
                    assert forall|j: int|
                        0 <= j < k0 && m.combo_candidate(mask, #[trigger] combos[j], window_ms)
                            implies popcount(combos[j].buttons) < prev.1 by {
                        assert(prefix[j] == combos[j]);
                    }
                    assert(combos[k0] == prefix[k0]);
                },
                Option::None => {},
            }
            k0
        }
    }
}

/// Bits of a byte below 8, counted with bit operations.
pub open spec fn low_bits(x: u8) -> u8 {
    ((x & 1u8) + ((x >> 1u8) & 1u8) + ((x >> 2u8) & 1u8)) as u8
}

proof fn lemma_popcount_low(x: u8)
    requires
        x < 8,
    ensures
        popcount(x) == low_bits(x),
{
    reveal_with_fuel(popcount, 4);
    assert(x == 0 || x == 1 || x == 2 || x == 3 || x == 4 || x == 5 || x == 6 || x == 7);
    if x == 0 {
        assert(low_bits(0) == 0) by (bit_vector);
    } else if x == 1 {
        assert(low_bits(1) == 1) by (bit_vector);
    } else if x == 2 {
        assert(low_bits(2) == 1) by (bit_vector);
    } else if x == 3 {
        assert(low_bits(3) == 2) by (bit_vector);
    } else if x == 4 {
        assert(low_bits(4) == 1) by (bit_vector);
    } else if x == 5 {
        assert(low_bits(5) == 2) by (bit_vector);
    } else if x == 6 {
        assert(low_bits(6) == 2) by (bit_vector);
    } else {
        assert(low_bits(7) == 3) by (bit_vector);
    }
}

/// A subset of the inputs has at most as many inputs, and as many only
/// when it is the whole set.
proof fn lemma_subset_popcount(c: u8, mask: u8)
    requires
        mask < 8,
        (mask & c) == c,
    ensures
        popcount(c) <= popcount(mask),
        popcount(c) == popcount(mask) ==> c == mask,
{
    assert(c < 8) by (bit_vector)
        requires
            mask < 8,
            (mask & c) == c,
    ;
    lemma_popcount_low(c);
    lemma_popcount_low(mask);
    assert(low_bits(c) <= low_bits(mask) && (low_bits(c) == low_bits(mask) ==> c == mask))
        by (bit_vector)
        requires
            mask < 8,
            (mask & c) == c,
    ;
}

/// Exactly one input is down.
pub open spec fn one_down(s: InputState) -> bool {
    ||| s.button_a && !s.button_b && !s.joy_click
    ||| !s.button_a && s.button_b && !s.joy_click
    ||| !s.button_a && !s.button_b && s.joy_click
}

proof fn lemma_mask_range(s: InputState)
    ensures
        s.mask() < 8,
        s.none_down() ==> s.mask() == 0,
        one_down(s) ==> (s.mask() == 1 || s.mask() == 2 || s.mask() == 4),
{
}

/// No valid combo may fire while a single input is down.
proof fn lemma_no_combo_for_single(m: EngineState, mask: u8, config: &InputConfig)
    requires
        config.valid(),
        mask == 1 || mask == 2 || mask == 4,
    ensures
        m.best_combo(mask, config.combos@, config.combo_window_ms).0 is None,
{
    let combos = config.combos@;
    let k = lemma_best_combo_priority(m, mask, combos, config.combo_window_ms);
    match m.best_combo(mask, combos, config.combo_window_ms).0 {
        Option::Some(c) => {
            assert(combos[k].valid());
            lemma_subset_popcount(c.buttons, mask);
            reveal_with_fuel(popcount, 4);
            assert(popcount(mask) == 1);
        },
        Option::None => {},
    }
}

/// No valid combo may fire while no input is down.
proof fn lemma_no_combo_for_none(m: EngineState, config: &InputConfig)
    requires
        config.valid(),
    ensures
        m.best_combo(0, config.combos@, config.combo_window_ms).0 is None,
{
    let combos = config.combos@;
    let k = lemma_best_combo_priority(m, 0, combos, config.combo_window_ms);
    match m.best_combo(0, combos, config.combo_window_ms).0 {
        Option::Some(c) => {
            assert(combos[k].valid());
            lemma_subset_popcount(c.buttons, 0);
            reveal_with_fuel(popcount, 2);
        },
        Option::None => {},
    }
}

/// Pressing a single input from rest sends nothing at once: a tap waits
/// for the release, a hold for its time, and no combo has one input.
pub proof fn lemma_press_alone_is_silent(
    m: EngineState,
    sample: InputSample,
    config: &InputConfig,
    scroll: ScrollConfig,
    orientation: Orientation,
    now_ms: u64,
)
    requires
        config.valid(),
        !m.button_a.down,
        !m.button_b.down,
        !m.joy_click.down,
        one_down(sample.buttons),
    ensures
        m.step(sample, config, scroll, orientation, now_ms).1.event is None,
{
    let mask = sample.buttons.mask();
    lemma_mask_range(sample.buttons);
    let m1 = m.sampled(sample.buttons, now_ms).lock_checked(mask);
    lemma_no_combo_for_single(m1, mask, config);
}


/// The joystick does not start scroll mode in this poll.
pub open spec fn no_scroll_start(
    sample: InputSample,
    config: &InputConfig,
    scroll: ScrollConfig,
    orientation: Orientation,
) -> bool {
    config.button_a.hold_joy != Action::ScrollMode || abs_int(
        rotated(sample.joy.x as int, sample.joy.y as int, orientation).1,
    ) <= scroll.dead_zone
}

/// The press record of the one input that `s` has down.
pub open spec fn runtime_of(m: EngineState, s: InputState) -> ButtonRuntime {
    if s.button_a {
        m.button_a
    } else if s.button_b {
        m.button_b
    } else {
        m.joy_click
    }
}

/// The settings of the one input that `s` has down.
pub open spec fn config_of(config: &InputConfig, s: InputState) -> ButtonInputConfig {
    if s.button_a {
        config.button_a
    } else if s.button_b {
        config.button_b
    } else {
        config.joy_click
    }
}

/// The machine holds a fresh press of the one input of `s` and nothing
/// else: down, not used, no hold sent.
pub open spec fn fresh_single_press(m: EngineState, s: InputState) -> bool {
    &&& one_down(s)
    &&& m.down_state() == s
    &&& !runtime_of(m, s).consumed
    &&& !runtime_of(m, s).hold_sent
}

/// Pressing a single input from rest (with the joystick not starting
/// scroll mode) starts a fresh press at `now_ms` and sends nothing.
pub proof fn lemma_single_press_starts(
    m: EngineState,
    sample: InputSample,
    config: &InputConfig,
    scroll: ScrollConfig,
    orientation: Orientation,
    now_ms: u64,
)
    requires
        config.valid(),
        !m.button_a.down,
        !m.button_b.down,
        !m.joy_click.down,
        one_down(sample.buttons),
        no_scroll_start(sample, config, scroll, orientation),
    ensures
        ({
            let (m2, out) = m.step(sample, config, scroll, orientation, now_ms);
            &&& out.event is None
            &&& fresh_single_press(m2, sample.buttons)
            &&& runtime_of(m2, sample.buttons).pressed_at_ms == now_ms
        }),
{
    lemma_press_alone_is_silent(m, sample, config, scroll, orientation, now_ms);
    let mask = sample.buttons.mask();
    lemma_mask_range(sample.buttons);
    let m1 = m.sampled(sample.buttons, now_ms).lock_checked(mask);
    lemma_no_combo_for_single(m1, mask, config);
}

/// Keeping a single input down, before its hold time and with the
/// joystick not starting scroll mode, keeps the press fresh and sends
/// nothing.
pub proof fn lemma_single_press_stays_fresh(
    m: EngineState,
    sample: InputSample,
    config: &InputConfig,
    scroll: ScrollConfig,
    orientation: Orientation,
    now_ms: u64,
)
    requires
        config.valid(),
        fresh_single_press(m, sample.buttons),
        no_scroll_start(sample, config, scroll, orientation),
        config_of(config, sample.buttons).hold == Action::Nothing || crate::input::elapsed_ms(
            now_ms,
            runtime_of(m, sample.buttons).pressed_at_ms,
        ) < config_of(config, sample.buttons).hold_ms,
    ensures
        ({
            let (m2, out) = m.step(sample, config, scroll, orientation, now_ms);
            &&& out.event is None
            &&& fresh_single_press(m2, sample.buttons)
            &&& runtime_of(m2, sample.buttons).pressed_at_ms == runtime_of(
                m,
                sample.buttons,
            ).pressed_at_ms
        }),
{
    let mask = sample.buttons.mask();
    lemma_mask_range(sample.buttons);
    let m1 = m.sampled(sample.buttons, now_ms).lock_checked(mask);
    lemma_no_combo_for_single(m1, mask, config);
}

/// Holding a single input for its hold time sends its hold action (when
/// it has one) and uses the press.
pub proof fn lemma_single_hold_fires(
    m: EngineState,
    sample: InputSample,
    config: &InputConfig,
    scroll: ScrollConfig,
    orientation: Orientation,
    now_ms: u64,
)
    requires
        config.valid(),
        fresh_single_press(m, sample.buttons),
        config_of(config, sample.buttons).hold != Action::Nothing,
        crate::input::elapsed_ms(now_ms, runtime_of(m, sample.buttons).pressed_at_ms)
            >= config_of(config, sample.buttons).hold_ms,
    ensures
        ({
            let (m2, out) = m.step(sample, config, scroll, orientation, now_ms);
            &&& out.event == Option::Some(
                InputEvent { action: config_of(config, sample.buttons).hold },
            )
            &&& runtime_of(m2, sample.buttons).consumed
            &&& runtime_of(m2, sample.buttons).down
        }),
{
    let mask = sample.buttons.mask();
    lemma_mask_range(sample.buttons);
    let m1 = m.sampled(sample.buttons, now_ms).lock_checked(mask);
    lemma_no_combo_for_single(m1, mask, config);
}

/// Releasing a fresh single press within the tap time sends that input's
/// tap action, and leaves the machine at rest.
pub proof fn lemma_single_release_taps(
    m: EngineState,
    pressed: InputState,
    sample: InputSample,
    config: &InputConfig,
    scroll: ScrollConfig,
    orientation: Orientation,
    now_ms: u64,
)
    requires
        config.valid(),
        fresh_single_press(m, pressed),
        sample.buttons.none_down(),
        crate::input::elapsed_ms(now_ms, runtime_of(m, pressed).pressed_at_ms)
            <= config.tap_max_ms,
    ensures
        ({
            let (m2, out) = m.step(sample, config, scroll, orientation, now_ms);
            &&& out.event == event_of(action_option(config_of(config, pressed).tap))
            &&& !out.scroll_mode
            &&& m2.idle()
        }),
{
    lemma_mask_range(sample.buttons);
    let lock = m.combo_lock;
    assert((0u8 & lock) == 0u8) by (bit_vector);
    let m1 = m.sampled(sample.buttons, now_ms).lock_checked(0);
    lemma_no_combo_for_none(m1, config);
}

/// A tap: an input pressed alone from rest (with the joystick not
/// starting scroll mode) and released within the tap time sends nothing
/// on the press and its tap action on the release. For A this is the next
/// slide, for B the previous one, for the click the left button.
pub proof fn lemma_quick_tap(
    m: EngineState,
    press: InputSample,
    release: InputSample,
    config: &InputConfig,
    scroll: ScrollConfig,
    orientation: Orientation,
    t_press: u64,
    t_release: u64,
)
    requires
        config.valid(),
        !m.button_a.down,
        !m.button_b.down,
        !m.joy_click.down,
        one_down(press.buttons),
        no_scroll_start(press, config, scroll, orientation),
        release.buttons.none_down(),
        t_press <= t_release,
        t_release - t_press <= config.tap_max_ms,
    ensures
        ({
            let (m1, o1) = m.step(press, config, scroll, orientation, t_press);
            let (m2, o2) = m1.step(release, config, scroll, orientation, t_release);
            &&& o1.event is None
            &&& o2.event == event_of(action_option(config_of(config, press.buttons).tap))
        }),
{
    lemma_single_press_starts(m, press, config, scroll, orientation, t_press);
    let (m1, o1) = m.step(press, config, scroll, orientation, t_press);
    lemma_single_release_taps(m1, press.buttons, release, config, scroll, orientation, t_release);
}

/// Every input that is down has had its press used.
pub open spec fn all_down_consumed(m: EngineState) -> bool {
    &&& m.button_a.down ==> m.button_a.consumed
    &&& m.button_b.down ==> m.button_b.consumed
    &&& m.joy_click.down ==> m.joy_click.consumed
}

/// Releasing inputs whose presses a combo, a hold or scroll mode used
/// sends no tap: the poll that releases everything sends nothing.
pub proof fn lemma_used_presses_never_tap(
    m: EngineState,
    sample: InputSample,
    config: &InputConfig,
    scroll: ScrollConfig,
    orientation: Orientation,
    now_ms: u64,
)
    requires
        config.valid(),
        all_down_consumed(m),
        sample.buttons.none_down(),
    ensures
        ({
            let (m2, out) = m.step(sample, config, scroll, orientation, now_ms);
            &&& out.event is None
            &&& !out.scroll_mode
            &&& !m2.button_a.down && !m2.button_b.down && !m2.joy_click.down
        }),
{
    lemma_mask_range(sample.buttons);
    let m1 = m.sampled(sample.buttons, now_ms).lock_checked(0);
    lemma_no_combo_for_none(m1, config);
}

impl EngineState {
    /// Scroll mode only while A is down, and then A's press is used.
    pub open spec fn inv(self) -> bool {
        self.scroll_mode ==> self.button_a.down && self.button_a.consumed
    }
}

/// Every poll keeps scroll mode tied to a used press of A.
pub proof fn lemma_step_keeps_inv(
    m: EngineState,
    sample: InputSample,
    config: &InputConfig,
    scroll: ScrollConfig,
    orientation: Orientation,
    now_ms: u64,
)
    requires
        m.inv(),
    ensures
        m.step(sample, config, scroll, orientation, now_ms).0.inv(),
        m.step(sample, config, scroll, orientation, now_ms).1.scroll_mode ==> m.step(
            sample,
            config,
            scroll,
            orientation,
            now_ms,
        ).0.button_a.consumed,
{
}

/// The machine starts without scroll mode.
pub proof fn lemma_initial_inv()
    ensures
        EngineState::initial().inv(),
        EngineState::initial().idle(),
{
}

/// Scrolling with A cancels A's tap: when a poll reports scroll mode and
/// only A is down, releasing it sends nothing.
pub proof fn lemma_scroll_cancels_tap(
    m: EngineState,
    during: InputSample,
    release: InputSample,
    config: &InputConfig,
    scroll: ScrollConfig,
    orientation: Orientation,
    t_during: u64,
    t_release: u64,
)
    requires
        config.valid(),
        m.inv(),
        during.buttons.button_a && !during.buttons.button_b && !during.buttons.joy_click,
        release.buttons.none_down(),
        m.step(during, config, scroll, orientation, t_during).1.scroll_mode,
    ensures
        ({
            let (m1, o1) = m.step(during, config, scroll, orientation, t_during);
            m1.step(release, config, scroll, orientation, t_release).1.event is None
        }),
{
    lemma_step_keeps_inv(m, during, config, scroll, orientation, t_during);
    let (m1, o1) = m.step(during, config, scroll, orientation, t_during);
    lemma_used_presses_never_tap(m1, release, config, scroll, orientation, t_release);
}


proof fn lemma_mask_bits(s: InputState)
    ensures
        (s.mask() & 1u8 != 0) == s.button_a,
        (s.mask() & 2u8 != 0) == s.button_b,
        (s.mask() & 4u8 != 0) == s.joy_click,
        (s.mask() & s.mask()) == s.mask(),
        s.mask() < 8,
{
    let m = s.mask();
    assert(m < 8);
    assert((m & 1u8 != 0) == (m % 2 == 1) && (m & 2u8 != 0) == ((m / 2) % 2 == 1) && (m & 4u8
        != 0) == ((m / 4) % 2 == 1) && (m & m) == m) by (bit_vector)
        requires
            m < 8,
    ;
}

/// When the first listed combo made of exactly the inputs down may fire,
/// it is the one chosen for them.
proof fn lemma_exact_combo_chosen(ms: EngineState, mask: u8, config: &InputConfig, k: int)
    requires
        config.valid(),
        mask < 8,
        (mask & mask) == mask,
        ms.combo_candidate(mask, config.combos@[k], config.combo_window_ms),
        0 <= k < config.combos@.len(),
        config.combos@[k].buttons == mask,
        forall|j: int| 0 <= j < k ==> (#[trigger] config.combos@[j]).buttons != mask,
    ensures
        ms.best_combo(mask, config.combos@, config.combo_window_ms).0 == Option::Some(
            config.combos@[k],
        ),
{
    let combos = config.combos@;
    let window = config.combo_window_ms;
    let target = combos[k];
    let kb = lemma_best_combo_priority(ms, mask, combos, window);
    let (best, bits) = ms.best_combo(mask, combos, window);
    let c = best.unwrap();
    lemma_subset_popcount(c.buttons, mask);
    lemma_subset_popcount(target.buttons, mask);
    assert(c.buttons == mask);
    if kb < k {
        assert(combos[kb].buttons != mask);
    }
    if kb > k {
        assert(popcount(combos[k].buttons) < bits);
    }
}

/// Pressing, from rest, exactly the inputs of a combo that fires without
/// a hold sends that combo's action at once (the first such combo in the
/// list), uses all the pressed inputs and locks the combo.
pub proof fn lemma_combo_fires(
    m: EngineState,
    sample: InputSample,
    config: &InputConfig,
    scroll: ScrollConfig,
    orientation: Orientation,
    now_ms: u64,
    k: int,
)
    requires
        config.valid(),
        m.idle(),
        0 <= k < config.combos@.len(),
        config.combos@[k].buttons == sample.buttons.mask(),
        config.combos@[k].hold_ms == 0,
        forall|j: int| 0 <= j < k ==> (#[trigger] config.combos@[j]).buttons != sample.buttons.mask(),
    ensures
        ({
            let (m1, o1) = m.step(sample, config, scroll, orientation, now_ms);
            &&& o1.event == Option::Some(InputEvent { action: config.combos@[k].action })
            &&& all_down_consumed(m1)
            &&& m1.combo_lock == sample.buttons.mask()
        }),
{
    let mask = sample.buttons.mask();
    lemma_mask_bits(sample.buttons);
    let ms = m.sampled(sample.buttons, now_ms);
    assert(ms.lock_checked(mask) == ms);
    assert(config.combos@[k].valid());
    assert(mask != 0) by {
        reveal_with_fuel(popcount, 2);
    }
    assert(ms.first_pressed_at(mask) == now_ms);
    assert(ms.last_pressed_at(mask) == now_ms);
    assert(ms.combo_candidate(mask, config.combos@[k], config.combo_window_ms));
    lemma_exact_combo_chosen(ms, mask, config, k);
}

/// Pressing, from rest, exactly the inputs of a hold combo sends nothing
/// yet: the inputs are down together, pressed at the same time, and no
/// combo is locked.
proof fn lemma_hold_combo_waits(
    m: EngineState,
    press: InputSample,
    config: &InputConfig,
    scroll: ScrollConfig,
    orientation: Orientation,
    t_press: u64,
    k: int,
)
    requires
        config.valid(),
        m.idle(),
        0 <= k < config.combos@.len(),
        config.combos@[k].buttons == press.buttons.mask(),
        config.combos@[k].hold_ms > 0,
        forall|j: int| 0 <= j < k ==> (#[trigger] config.combos@[j]).buttons != press.buttons.mask(),
    ensures
        ({
            let (m1, o1) = m.step(press, config, scroll, orientation, t_press);
            &&& o1.event is None
            &&& m1.combo_lock == 0
            &&& m1.down_state() == press.buttons
            &&& m1.first_pressed_at(press.buttons.mask()) == t_press
            &&& m1.last_pressed_at(press.buttons.mask()) == t_press
        }),
{
    let mask = press.buttons.mask();
    lemma_mask_bits(press.buttons);
    assert(config.combos@[k].valid());
    assert(mask != 0) by {
        reveal_with_fuel(popcount, 2);
    }
    let ms1 = m.sampled(press.buttons, t_press);
    assert(ms1.lock_checked(mask) == ms1);
    assert(ms1.first_pressed_at(mask) == t_press);
    assert(ms1.last_pressed_at(mask) == t_press);
    assert(ms1.combo_candidate(mask, config.combos@[k], config.combo_window_ms));
    lemma_exact_combo_chosen(ms1, mask, config, k);
}

/// Still holding exactly the inputs of a hold combo, pressed together and
/// now for its hold time, sends its action and uses the presses.
proof fn lemma_hold_combo_due(
    m1: EngineState,
    held: InputSample,
    config: &InputConfig,
    scroll: ScrollConfig,
    orientation: Orientation,
    t_press: u64,
    t_held: u64,
    k: int,
)
    requires
        config.valid(),
        m1.combo_lock == 0,
        m1.down_state() == held.buttons,
        m1.first_pressed_at(held.buttons.mask()) == t_press,
        m1.last_pressed_at(held.buttons.mask()) == t_press,
        0 <= k < config.combos@.len(),
        config.combos@[k].buttons == held.buttons.mask(),
        config.combos@[k].hold_ms > 0,
        forall|j: int| 0 <= j < k ==> (#[trigger] config.combos@[j]).buttons != held.buttons.mask(),
        t_press <= t_held,
        t_held - t_press >= config.combos@[k].hold_ms,
    ensures
        ({
            let (m2, o2) = m1.step(held, config, scroll, orientation, t_held);
            &&& o2.event == Option::Some(InputEvent { action: config.combos@[k].action })
            &&& all_down_consumed(m2)
        }),
{
    let mask = held.buttons.mask();
    lemma_mask_bits(held.buttons);
    let ms2 = m1.sampled(held.buttons, t_held);
    assert(ms2 == m1);
    assert(ms2.lock_checked(mask) == ms2);
    assert(ms2.combo_candidate(mask, config.combos@[k], config.combo_window_ms));
    lemma_exact_combo_chosen(ms2, mask, config, k);
    let c = config.combos@[k];
    assert(ms2.combo_result(mask, config, t_held) == (
        EngineState { combo_lock: c.buttons, ..ms2.consumed(c.buttons) },
        Option::Some(c.action),
    ));
}

/// A hold combo: pressing exactly its inputs from rest sends nothing at
/// first; once they have been held together for its hold time it sends its
/// action (the first listed combo of those inputs, e.g. the profile
/// switch on A and B), and releasing them afterwards sends nothing.
pub proof fn lemma_hold_combo_fires(
    m: EngineState,
    press: InputSample,
    held: InputSample,
    release: InputSample,
    config: &InputConfig,
    scroll: ScrollConfig,
    orientation: Orientation,
    t_press: u64,
    t_held: u64,
    t_release: u64,
    k: int,
)
    requires
        config.valid(),
        m.idle(),
        0 <= k < config.combos@.len(),
        config.combos@[k].buttons == press.buttons.mask(),
        config.combos@[k].hold_ms > 0,
        forall|j: int| 0 <= j < k ==> (#[trigger] config.combos@[j]).buttons != press.buttons.mask(),
        held.buttons == press.buttons,
        release.buttons.none_down(),
        t_press <= t_held,
        t_held - t_press >= config.combos@[k].hold_ms,
    ensures
        ({
            let (m1, o1) = m.step(press, config, scroll, orientation, t_press);
            let (m2, o2) = m1.step(held, config, scroll, orientation, t_held);
            let (m3, o3) = m2.step(release, config, scroll, orientation, t_release);
            &&& o1.event is None
            &&& o2.event == Option::Some(InputEvent { action: config.combos@[k].action })
            &&& o3.event is None
        }),
{
    lemma_hold_combo_waits(m, press, config, scroll, orientation, t_press, k);
    let (m1, o1) = m.step(press, config, scroll, orientation, t_press);
    lemma_hold_combo_due(m1, held, config, scroll, orientation, t_press, t_held, k);
    let (m2, o2) = m1.step(held, config, scroll, orientation, t_held);
    lemma_used_presses_never_tap(m2, release, config, scroll, orientation, t_release);
}

/// A hold combo waits for its hold time, counted from the earliest press
/// among its inputs, however far apart they went down: with exactly its
/// inputs down and no combo locked, a poll at which one of them has been
/// down for at least the hold time sends the combo's action (the first
/// listed combo of those inputs) and locks it.
pub proof fn lemma_hold_combo_ignores_window(
    m: EngineState,
    held: InputSample,
    config: &InputConfig,
    scroll: ScrollConfig,
    orientation: Orientation,
    now_ms: u64,
    k: int,
)
    requires
        config.valid(),
        m.combo_lock == 0,
        m.down_state() == held.buttons,
        0 <= k < config.combos@.len(),
        config.combos@[k].buttons == held.buttons.mask(),
        config.combos@[k].hold_ms > 0,
        forall|j: int| 0 <= j < k ==> (#[trigger] config.combos@[j]).buttons != held.buttons.mask(),
        (held.buttons.button_a && m.button_a.pressed_at_ms + config.combos@[k].hold_ms <= now_ms)
            || (held.buttons.button_b && m.button_b.pressed_at_ms + config.combos@[k].hold_ms
            <= now_ms) || (held.buttons.joy_click && m.joy_click.pressed_at_ms
            + config.combos@[k].hold_ms <= now_ms),
    ensures
        ({
            let (m1, o1) = m.step(held, config, scroll, orientation, now_ms);
            &&& o1.event == Option::Some(InputEvent { action: config.combos@[k].action })
            &&& m1.combo_lock == held.buttons.mask()
        }),
{
    let mask = held.buttons.mask();
    lemma_mask_bits(held.buttons);
    let ms = m.sampled(held.buttons, now_ms);
    assert(ms == m);
    assert(ms.lock_checked(mask) == ms);
    let c = config.combos@[k];
    assert(ms.combo_candidate(mask, c, config.combo_window_ms));
    lemma_exact_combo_chosen(ms, mask, config, k);
    assert(elapsed_ms(now_ms, ms.first_pressed_at(mask)) >= c.hold_ms);
    assert(ms.combo_result(mask, config, now_ms) == (
        EngineState { combo_lock: c.buttons, ..ms.consumed(c.buttons) },
        Option::Some(c.action),
    ));
}

/// Nor does a hold combo fire early: with exactly its inputs down and no
/// combo locked, while none of them has been down for its hold time, the
/// poll locks no combo.
pub proof fn lemma_hold_combo_not_early(
    m: EngineState,
    held: InputSample,
    config: &InputConfig,
    scroll: ScrollConfig,
    orientation: Orientation,
    now_ms: u64,
    k: int,
)
    requires
        config.valid(),
        m.combo_lock == 0,
        m.down_state() == held.buttons,
        0 <= k < config.combos@.len(),
        config.combos@[k].buttons == held.buttons.mask(),
        config.combos@[k].hold_ms > 0,
        forall|j: int| 0 <= j < k ==> (#[trigger] config.combos@[j]).buttons != held.buttons.mask(),
        held.buttons.button_a ==> m.button_a.pressed_at_ms <= now_ms < m.button_a.pressed_at_ms
            + config.combos@[k].hold_ms,
        held.buttons.button_b ==> m.button_b.pressed_at_ms <= now_ms < m.button_b.pressed_at_ms
            + config.combos@[k].hold_ms,
        held.buttons.joy_click ==> m.joy_click.pressed_at_ms <= now_ms < m.joy_click.pressed_at_ms
            + config.combos@[k].hold_ms,
    ensures
        m.step(held, config, scroll, orientation, now_ms).0.combo_lock == 0,
{
    let mask = held.buttons.mask();
    lemma_mask_bits(held.buttons);
    let ms = m.sampled(held.buttons, now_ms);
    assert(ms == m);
    assert(ms.lock_checked(mask) == ms);
    let c = config.combos@[k];
    assert(c.valid());
    assert(mask != 0) by {
        reveal_with_fuel(popcount, 2);
    }
    assert(ms.combo_candidate(mask, c, config.combo_window_ms));
    lemma_exact_combo_chosen(ms, mask, config, k);
    assert(elapsed_ms(now_ms, ms.first_pressed_at(mask)) < c.hold_ms);
    assert(ms.combo_result(mask, config, now_ms) == (ms, Option::<Action>::None));
}

/// A combo cancels the taps of its inputs: pressing exactly a combo's
/// inputs from rest sends the combo's action, and releasing them all
/// afterwards sends nothing.
pub proof fn lemma_combo_cancels_taps(
    m: EngineState,
    press: InputSample,
    release: InputSample,
    config: &InputConfig,
    scroll: ScrollConfig,
    orientation: Orientation,
    t_press: u64,
    t_release: u64,
    k: int,
)
    requires
        config.valid(),
        m.idle(),
        0 <= k < config.combos@.len(),
        config.combos@[k].buttons == press.buttons.mask(),
        config.combos@[k].hold_ms == 0,
        forall|j: int| 0 <= j < k ==> (#[trigger] config.combos@[j]).buttons != press.buttons.mask(),
        release.buttons.none_down(),
    ensures
        ({
            let (m1, o1) = m.step(press, config, scroll, orientation, t_press);
            let (m2, o2) = m1.step(release, config, scroll, orientation, t_release);
            &&& o1.event == Option::Some(InputEvent { action: config.combos@[k].action })
            &&& o2.event is None
        }),
{
    lemma_combo_fires(m, press, config, scroll, orientation, t_press, k);
    let (m1, o1) = m.step(press, config, scroll, orientation, t_press);
    lemma_used_presses_never_tap(m1, release, config, scroll, orientation, t_release);
}

/// A held input sends its hold action once per press: after it fired, no
/// later poll of the same press fires it again.
pub proof fn lemma_hold_fires_once(
    b: ButtonRuntime,
    now_ms: u64,
    later_ms: u64,
    config: ButtonInputConfig,
)
    requires
        b.hold_result(now_ms, config).1 is Some,
    ensures
        ({
            let b1 = b.hold_result(now_ms, config).0;
            b1.after_sample(true, later_ms).hold_result(later_ms, config).1 is None
        }),
{
}


/// Turning the device right twice is turning it upside down.
pub proof fn lemma_rotation_twice(x: int, y: int)
    ensures
        ({
            let (x1, y1) = rotated(x, y, Orientation::Right);
            rotated(x1, y1, Orientation::Right) == rotated(x, y, Orientation::Inverted)
        }),
{
}

/// Turning right four times gives the reading back.
pub proof fn lemma_rotation_full_turn(x: int, y: int)
    ensures
        ({
            let (x1, y1) = rotated(x, y, Orientation::Right);
            let (x2, y2) = rotated(x1, y1, Orientation::Right);
            let (x3, y3) = rotated(x2, y2, Orientation::Right);
            rotated(x3, y3, Orientation::Right) == (x, y)
        }),
{
}

/// Turning left undoes turning right, and the normal holding changes
/// nothing.
pub proof fn lemma_rotation_inverse(x: int, y: int)
    ensures
        ({
            let (x1, y1) = rotated(x, y, Orientation::Right);
            rotated(x1, y1, Orientation::Left) == (x, y)
        }),
        rotated(x, y, Orientation::Normal) == (x, y),
{
}

} // verus!
