use m5stick::config::{
    default_input_config, default_scroll_config, Action, ButtonInputConfig, ComboConfig,
    InputConfig, Orientation, KEY_LEFT_ARROW, KEY_RIGHT_ARROW, MOUSE_BUTTON_LEFT,
    MOUSE_BUTTON_MIDDLE, MOUSE_BUTTON_RIGHT,
};
use m5stick::input::{rotate_joy, InputEngine, InputEvent, InputSample, InputState};
use m5stick::mini_joyc::JoyState;

fn sample(a: bool, b: bool, click: bool, x: i8, y: i8) -> InputSample {
    InputSample {
        buttons: InputState { button_a: a, button_b: b, joy_click: click },
        joy: JoyState { x, y, pressed: click },
    }
}

fn event(action: Action) -> Option<InputEvent> {
    Some(InputEvent { action })
}

#[test]
fn button_mask_bits() {
    let none = InputState { button_a: false, button_b: false, joy_click: false };
    let all = InputState { button_a: true, button_b: true, joy_click: true };
    let b_and_click = InputState { button_a: false, button_b: true, joy_click: true };
    assert_eq!(none.button_mask(), 0);
    assert_eq!(all.button_mask(), 7);
    assert_eq!(b_and_click.button_mask(), 6);
}

#[test]
fn pressing_a_alone_sends_nothing_then_tap_sends_right_arrow() {
    let config = default_input_config();
    let scroll = default_scroll_config();
    let mut engine = InputEngine::new();
    let o1 = engine.update(sample(true, false, false, 0, 0), &config, &scroll, Orientation::Normal, 1000);
    assert_eq!(o1.event, None);
    assert!(!o1.scroll_mode);
    let o2 = engine.update(sample(true, false, false, 0, 0), &config, &scroll, Orientation::Normal, 1100);
    assert_eq!(o2.event, None);
    let o3 = engine.update(sample(false, false, false, 0, 0), &config, &scroll, Orientation::Normal, 1200);
    assert_eq!(o3.event, event(Action::KeyboardKey(KEY_RIGHT_ARROW)));
}

#[test]
fn b_tap_sends_left_arrow() {
    let config = default_input_config();
    let scroll = default_scroll_config();
    let mut engine = InputEngine::new();
    assert_eq!(engine.update(sample(false, true, false, 0, 0), &config, &scroll, Orientation::Normal, 10).event, None);
    let o = engine.update(sample(false, false, false, 0, 0), &config, &scroll, Orientation::Normal, 50);
    assert_eq!(o.event, event(Action::KeyboardKey(KEY_LEFT_ARROW)));
}

#[test]
fn click_tap_sends_left_button() {
    let config = default_input_config();
    let scroll = default_scroll_config();
    let mut engine = InputEngine::new();
    assert_eq!(engine.update(sample(false, false, true, 0, 0), &config, &scroll, Orientation::Normal, 0).event, None);
    let o = engine.update(sample(false, false, false, 0, 0), &config, &scroll, Orientation::Normal, 0);
    assert_eq!(o.event, event(Action::MouseButton(MOUSE_BUTTON_LEFT)));
}

#[test]
fn long_press_past_tap_time_sends_no_tap() {
    let config = default_input_config();
    let scroll = default_scroll_config();
    let mut engine = InputEngine::new();
    engine.update(sample(true, false, false, 0, 0), &config, &scroll, Orientation::Normal, 1000);
    let o = engine.update(sample(false, false, false, 0, 0), &config, &scroll, Orientation::Normal, 1301);
    assert_eq!(o.event, None);
}

#[test]
fn tap_at_exactly_tap_time_still_taps() {
    let config = default_input_config();
    let scroll = default_scroll_config();
    let mut engine = InputEngine::new();
    engine.update(sample(true, false, false, 0, 0), &config, &scroll, Orientation::Normal, 1000);
    let o = engine.update(sample(false, false, false, 0, 0), &config, &scroll, Orientation::Normal, 1300);
    assert_eq!(o.event, event(Action::KeyboardKey(KEY_RIGHT_ARROW)));
}

#[test]
fn a_with_click_is_right_click_and_cancels_taps() {
    let config = default_input_config();
    let scroll = default_scroll_config();
    let mut engine = InputEngine::new();
    let o1 = engine.update(sample(true, false, true, 0, 0), &config, &scroll, Orientation::Normal, 500);
    assert_eq!(o1.event, event(Action::MouseButton(MOUSE_BUTTON_RIGHT)));
    let o2 = engine.update(sample(true, false, true, 0, 0), &config, &scroll, Orientation::Normal, 520);
    assert_eq!(o2.event, None);
    let o3 = engine.update(sample(false, false, false, 0, 0), &config, &scroll, Orientation::Normal, 540);
    assert_eq!(o3.event, None);
}

#[test]
fn click_within_combo_window_after_a_is_right_click() {
    let config = default_input_config();
    let scroll = default_scroll_config();
    let mut engine = InputEngine::new();
    assert_eq!(engine.update(sample(true, false, false, 0, 0), &config, &scroll, Orientation::Normal, 1000).event, None);
    let o = engine.update(sample(true, false, true, 0, 0), &config, &scroll, Orientation::Normal, 1080);
    assert_eq!(o.event, event(Action::MouseButton(MOUSE_BUTTON_RIGHT)));
}

#[test]
fn click_after_combo_window_is_not_a_combo() {
    let config = default_input_config();
    let scroll = default_scroll_config();
    let mut engine = InputEngine::new();
    engine.update(sample(true, false, false, 0, 0), &config, &scroll, Orientation::Normal, 1000);
    let o1 = engine.update(sample(true, false, true, 0, 0), &config, &scroll, Orientation::Normal, 1081);
    assert_eq!(o1.event, None);
    // A is released first: its tap is still in time.
    let o2 = engine.update(sample(false, false, true, 0, 0), &config, &scroll, Orientation::Normal, 1100);
    assert_eq!(o2.event, event(Action::KeyboardKey(KEY_RIGHT_ARROW)));
    let o3 = engine.update(sample(false, false, false, 0, 0), &config, &scroll, Orientation::Normal, 1120);
    assert_eq!(o3.event, event(Action::MouseButton(MOUSE_BUTTON_LEFT)));
}

#[test]
fn b_with_click_is_middle_click() {
    let config = default_input_config();
    let scroll = default_scroll_config();
    let mut engine = InputEngine::new();
    let o = engine.update(sample(false, true, true, 0, 0), &config, &scroll, Orientation::Normal, 7);
    assert_eq!(o.event, event(Action::MouseButton(MOUSE_BUTTON_MIDDLE)));
}

#[test]
fn holding_a_and_b_switches_profile_after_hold_time() {
    let config = default_input_config();
    let scroll = default_scroll_config();
    let mut engine = InputEngine::new();
    assert_eq!(engine.update(sample(true, true, false, 0, 0), &config, &scroll, Orientation::Normal, 0).event, None);
    assert_eq!(engine.update(sample(true, true, false, 0, 0), &config, &scroll, Orientation::Normal, 799).event, None);
    let o = engine.update(sample(true, true, false, 0, 0), &config, &scroll, Orientation::Normal, 800);
    assert_eq!(o.event, event(Action::NextProfile));
    assert_eq!(engine.update(sample(true, true, false, 0, 0), &config, &scroll, Orientation::Normal, 1600).event, None);
    assert_eq!(engine.update(sample(false, false, false, 0, 0), &config, &scroll, Orientation::Normal, 1700).event, None);
}

#[test]
fn scrolling_with_a_cancels_its_tap() {
    let config = default_input_config();
    let scroll = default_scroll_config();
    let mut engine = InputEngine::new();
    let o1 = engine.update(sample(true, false, false, 0, 0), &config, &scroll, Orientation::Normal, 0);
    assert!(!o1.scroll_mode);
    let o2 = engine.update(sample(true, false, false, 0, 13), &config, &scroll, Orientation::Normal, 50);
    assert!(o2.scroll_mode);
    assert_eq!(o2.event, None);
    let o3 = engine.update(sample(true, false, false, 0, 0), &config, &scroll, Orientation::Normal, 60);
    assert!(o3.scroll_mode);
    let o4 = engine.update(sample(false, false, false, 0, 0), &config, &scroll, Orientation::Normal, 100);
    assert_eq!(o4.event, None);
    assert!(!o4.scroll_mode);
}

#[test]
fn scroll_dead_zone_edge_does_not_scroll() {
    let config = default_input_config();
    let scroll = default_scroll_config();
    let mut engine = InputEngine::new();
    let o = engine.update(sample(true, false, false, 0, -12), &config, &scroll, Orientation::Normal, 0);
    assert!(!o.scroll_mode);
    let o = engine.update(sample(true, false, false, 0, -13), &config, &scroll, Orientation::Normal, 10);
    assert!(o.scroll_mode);
}

#[test]
fn scroll_follows_orientation() {
    let config = default_input_config();
    let scroll = default_scroll_config();
    let mut engine = InputEngine::new();
    // Held to the right, the user's vertical is the stick's X.
    let o = engine.update(sample(true, false, false, 0, 50), &config, &scroll, Orientation::Right, 0);
    assert!(!o.scroll_mode);
    let o = engine.update(sample(true, false, false, 50, 0), &config, &scroll, Orientation::Right, 10);
    assert!(o.scroll_mode);
}

fn config_with_hold() -> InputConfig {
    let mut config = default_input_config();
    config.joy_click = ButtonInputConfig {
        tap: Action::MouseButton(MOUSE_BUTTON_LEFT),
        hold: Action::MouseButton(MOUSE_BUTTON_RIGHT),
        hold_ms: 600,
        hold_joy: Action::Nothing,
    };
    config
}

#[test]
fn hold_fires_once_and_cancels_tap() {
    let config = config_with_hold();
    let scroll = default_scroll_config();
    let mut engine = InputEngine::new();
    assert_eq!(engine.update(sample(false, false, true, 0, 0), &config, &scroll, Orientation::Normal, 0).event, None);
    assert_eq!(engine.update(sample(false, false, true, 0, 0), &config, &scroll, Orientation::Normal, 599).event, None);
    let o = engine.update(sample(false, false, true, 0, 0), &config, &scroll, Orientation::Normal, 600);
    assert_eq!(o.event, event(Action::MouseButton(MOUSE_BUTTON_RIGHT)));
    assert_eq!(engine.update(sample(false, false, true, 0, 0), &config, &scroll, Orientation::Normal, 2000).event, None);
    assert_eq!(engine.update(sample(false, false, false, 0, 0), &config, &scroll, Orientation::Normal, 2010).event, None);
}

#[test]
fn larger_combo_wins_and_first_listed_wins_ties() {
    let mut config = default_input_config();
    config.combos = vec![
        ComboConfig { buttons: 3, action: Action::KeyboardKey(0x2c), hold_ms: 0 },
        ComboConfig { buttons: 7, action: Action::KeyboardKey(0x29), hold_ms: 0 },
        ComboConfig { buttons: 3, action: Action::KeyboardKey(0x28), hold_ms: 0 },
    ];
    let scroll = default_scroll_config();
    let mut engine = InputEngine::new();
    let o = engine.update(sample(true, true, true, 0, 0), &config, &scroll, Orientation::Normal, 0);
    assert_eq!(o.event, event(Action::KeyboardKey(0x29)));
    let mut engine = InputEngine::new();
    let o = engine.update(sample(true, true, false, 0, 0), &config, &scroll, Orientation::Normal, 0);
    assert_eq!(o.event, event(Action::KeyboardKey(0x2c)));
}

#[test]
fn combo_lock_holds_until_a_button_is_released() {
    let config = default_input_config();
    let scroll = default_scroll_config();
    let mut engine = InputEngine::new();
    assert_eq!(engine.update(sample(true, false, true, 0, 0), &config, &scroll, Orientation::Normal, 0).event, event(Action::MouseButton(MOUSE_BUTTON_RIGHT)));
    // While both stay down, the combo does not fire again.
    assert_eq!(engine.update(sample(true, false, true, 0, 0), &config, &scroll, Orientation::Normal, 10).event, None);
    // Releasing the click clears the lock; pressing it again within the
    // window of A's press is a new combo.
    assert_eq!(engine.update(sample(true, false, false, 0, 0), &config, &scroll, Orientation::Normal, 20).event, None);
    assert_eq!(engine.update(sample(true, false, true, 0, 0), &config, &scroll, Orientation::Normal, 40).event, event(Action::MouseButton(MOUSE_BUTTON_RIGHT)));
    assert_eq!(engine.update(sample(true, false, false, 0, 0), &config, &scroll, Orientation::Normal, 60).event, None);
    // Later than the window after A's press, the click alone counts.
    assert_eq!(engine.update(sample(true, false, true, 0, 0), &config, &scroll, Orientation::Normal, 100).event, None);
}

#[test]
fn rotate_joy_orientations() {
    assert_eq!(rotate_joy(3, 5, Orientation::Normal), (3, 5));
    assert_eq!(rotate_joy(3, 5, Orientation::Right), (-5, 3));
    assert_eq!(rotate_joy(3, 5, Orientation::Inverted), (-3, -5));
    assert_eq!(rotate_joy(3, 5, Orientation::Left), (5, -3));
    let (x, y) = rotate_joy(3, 5, Orientation::Right);
    let (x, y) = rotate_joy(x, y, Orientation::Right);
    assert_eq!((x, y), rotate_joy(3, 5, Orientation::Inverted));
    let (x, y) = rotate_joy(x, y, Orientation::Right);
    let (x, y) = rotate_joy(x, y, Orientation::Right);
    assert_eq!((x, y), (3, 5));
    let (x, y) = rotate_joy(3, 5, Orientation::Right);
    assert_eq!(rotate_joy(x, y, Orientation::Left), (3, 5));
}
