use m5stick::battery::{millivolts, percent, update, BatteryLevel};
use m5stick::config::{Action, BUTTON_A_KEY, BUTTON_B_KEY};
use m5stick::display::{
    battery_color, battery_icon, battery_text, no_peer_text, status_color, status_text, Color,
    Status,
};
use m5stick::hid::{
    click_buttons, format_peer_address, keyboard_release_report, keyboard_report, mouse_report,
    notifications_enabled,
};
use m5stick::mouse::MouseState;
use m5stick::presenter::PresenterAction;
use m5stick::profile::ProfileManager;
use m5stick::session::{BatteryNotifier, Motion, PresenterSession};
use m5stick::text::PeerText;

#[test]
fn battery_levels() {
    let mut level = BatteryLevel::new();
    assert_eq!((percent(&level), millivolts(&level)), (0, 0));
    update(&mut level, 0);
    assert_eq!((percent(&level), millivolts(&level)), (0, 3300));
    update(&mut level, 2100);
    assert_eq!((percent(&level), millivolts(&level)), (0, 3300));
    update(&mut level, 2375);
    assert_eq!((percent(&level), millivolts(&level)), (50, 3750));
    update(&mut level, 2200);
    // 100 * 100 / 550 = 18, 3300 + 100 * 900 / 550 = 3463
    assert_eq!((percent(&level), millivolts(&level)), (18, 3463));
    update(&mut level, 2650);
    assert_eq!((percent(&level), millivolts(&level)), (100, 4200));
    update(&mut level, u16::MAX);
    assert_eq!((percent(&level), millivolts(&level)), (100, 4200));
}

#[test]
fn battery_is_monotone() {
    let mut previous = (0u8, 0u16);
    for raw in (0..=3000u16).step_by(7) {
        let mut level = BatteryLevel::new();
        update(&mut level, raw);
        let now = (percent(&level), millivolts(&level));
        assert!(now.0 >= previous.0 && now.1 >= previous.1 && now.0 <= 100);
        previous = now;
    }
}

#[test]
fn presenter_keys() {
    assert_eq!(PresenterAction::ButtonA.key_code(), BUTTON_A_KEY);
    assert_eq!(PresenterAction::ButtonB.key_code(), BUTTON_B_KEY);
    assert_eq!(PresenterAction::ButtonA.key_code(), 0x4f);
    assert_eq!(PresenterAction::ButtonB.key_code(), 0x50);
}

#[test]
fn profiles_cycle() {
    let mut profiles = ProfileManager::new();
    let first = profiles.current();
    assert_eq!((first.index, first.name, first.label), (0, "linux", "Linux"));
    let second = profiles.next();
    assert_eq!((second.index, second.name, second.label), (1, "mac", "Mac"));
    let third = profiles.next();
    assert_eq!((third.index, third.name, third.label), (2, "landscape", "Landscape"));
    assert_eq!(profiles.next(), first);
    assert_eq!(profiles.current(), first);
}

#[test]
fn status_screen_texts() {
    assert_eq!(status_text(Status::Waiting), "WAITING");
    assert_eq!(status_text(Status::Connected), "CONNECTED");
    assert_eq!(status_color(Status::Waiting), Color::Yellow);
    assert_eq!(status_color(Status::Connected), Color::Green);
    assert_eq!(no_peer_text(), "--:--:--:--:--:--");
}

#[test]
fn battery_gauge() {
    assert_eq!(battery_color(100), Color::Green);
    assert_eq!(battery_color(50), Color::Green);
    assert_eq!(battery_color(49), Color::Yellow);
    assert_eq!(battery_color(20), Color::Yellow);
    assert_eq!(battery_color(19), Color::Red);
    assert_eq!(battery_color(101), Color::Red);
    assert_eq!(battery_icon(100), "###");
    assert_eq!(battery_icon(75), "###");
    assert_eq!(battery_icon(74), "## ");
    assert_eq!(battery_icon(40), "## ");
    assert_eq!(battery_icon(39), "#  ");
    assert_eq!(battery_icon(10), "#  ");
    assert_eq!(battery_icon(9), "   ");
    assert_eq!(battery_icon(200), "   ");
    assert_eq!(battery_text(82).as_str(), "[###] 82%");
    assert_eq!(battery_text(100).as_str(), "[###] 100%");
    assert_eq!(battery_text(5).as_str(), "[   ] 5%");
    assert_eq!(battery_text(40).as_str(), "[## ] 40%");
    assert_eq!(battery_text(0).as_str(), "[   ] 0%");
    assert_eq!(battery_text(255).as_str(), "[   ] 255%");
}

#[test]
fn hid_reports() {
    assert_eq!(keyboard_report(0x4f), [0, 0, 0x4f, 0, 0, 0, 0, 0]);
    assert_eq!(keyboard_release_report(), [0u8; 8]);
    assert_eq!(mouse_report(1, -1, 127, -127), [1, 0xff, 0x7f, 0x81]);
    assert_eq!(mouse_report(0, 3, -3, 0), [0, 3, 0xfd, 0]);
    assert_eq!(click_buttons(0xff), 7);
    assert_eq!(click_buttons(0x08), 0);
    assert_eq!(click_buttons(2), 2);
}

#[test]
fn notification_switch() {
    assert_eq!(notifications_enabled(&[1, 0]), Some(true));
    assert_eq!(notifications_enabled(&[2, 0]), Some(false));
    assert_eq!(notifications_enabled(&[0, 0, 0]), Some(false));
    assert_eq!(notifications_enabled(&[1]), None);
    assert_eq!(notifications_enabled(&[]), None);
}

#[test]
fn peer_address_text() {
    let mut text = PeerText::new();
    format_peer_address(&mut text, [0x01, 0x23, 0x45, 0x67, 0x89, 0xab]);
    assert_eq!(text.as_str(), "ab:89:67:45:23:01");
    let mut text = PeerText::new();
    format_peer_address(&mut text, [0xc0, 0x44, 0x33, 0x22, 0x11, 0x42]);
    assert_eq!(text.as_str(), "42:11:22:33:44:c0");
    assert_eq!(PeerText::new().as_str(), "");
}

fn still() -> Motion {
    Motion::Pointer(MouseState { dx: 0, dy: 0, left_pressed: false })
}

#[test]
fn session_sends_events_and_motion() {
    let mut session = PresenterSession::new();
    let plan = session.poll(1, Some(Action::KeyboardKey(0x4f)), still());
    assert_eq!(plan.key, Some(0x4f));
    assert_eq!(plan.click, None);
    assert!(!plan.next_profile && !plan.wake_display && !plan.sleep_display);
    assert_eq!(plan.mouse_report, None);
    let plan = session.poll(0, Some(Action::MouseButton(2)), still());
    assert_eq!(plan.click, Some(2));
    let plan = session.poll(0, None, Motion::Pointer(MouseState { dx: -2, dy: 3, left_pressed: false }));
    assert_eq!(plan.mouse_report, Some([0, 0xfe, 3, 0]));
    let plan = session.poll(1, None, Motion::Scroll(-1));
    assert_eq!(plan.mouse_report, Some([0, 0, 0, 0xff]));
    let plan = session.poll(1, None, Motion::Scroll(0));
    assert_eq!(plan.mouse_report, None);
    let plan = session.poll(0, Some(Action::NextProfile), still());
    assert!(plan.next_profile);
    assert!(!plan.wake_for_profile);
}

#[test]
fn screen_sleeps_after_timeout_and_wakes_on_input() {
    let mut session = PresenterSession::new();
    // One poll is 8 ms; the timeout is 15 s without input.
    let mut slept_at = None;
    for i in 0..3000u32 {
        let plan = session.poll(0, None, still());
        assert!(!plan.wake_display);
        if plan.sleep_display {
            slept_at = Some(i);
            break;
        }
    }
    // Time 0 is the last activity; the poll at 15000 ms (poll 1875) sleeps.
    assert_eq!(slept_at, Some(1875));
    let plan = session.poll(0, None, still());
    assert!(!plan.sleep_display && !plan.wake_display);
    let plan = session.poll(2, None, still());
    assert!(plan.wake_display);
    let plan = session.poll(0, None, still());
    assert!(!plan.wake_display && !plan.sleep_display);
}

#[test]
fn profile_switch_wakes_sleeping_screen() {
    let mut session = PresenterSession::new();
    loop {
        if session.poll(0, None, still()).sleep_display {
            break;
        }
    }
    let plan = session.poll(0, Some(Action::NextProfile), still());
    assert!(plan.next_profile && plan.wake_for_profile);
    assert!(!plan.wake_display);
}

#[test]
fn battery_notifications_on_change_only() {
    let mut notifier = BatteryNotifier::new();
    assert!(notifier.should_notify(80));
    assert!(!notifier.should_notify(80));
    assert!(notifier.should_notify(79));
    assert!(!notifier.should_notify(79));
    assert!(notifier.should_notify(255) == true);
}
