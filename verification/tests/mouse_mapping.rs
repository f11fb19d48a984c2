use m5stick::joystick_mouse::from_joystick;
use m5stick::mini_joyc::{decode_joy_state, JoyState};
use m5stick::mouse::{MouseMapper, MouseState};

fn joy(x: i8, y: i8, pressed: bool) -> JoyState {
    JoyState { x, y, pressed }
}

#[test]
fn centred_stick_moves_nothing() {
    let mut mapper = MouseMapper::new();
    for _ in 0..20 {
        let out = mapper.update(joy(0, 0, false));
        assert_eq!(out, MouseState { dx: 0, dy: 0, left_pressed: false });
    }
}

#[test]
fn stick_inside_dead_zone_moves_nothing() {
    let mut mapper = MouseMapper::new();
    for _ in 0..50 {
        let out = mapper.update(joy(8, -8, true));
        assert_eq!(out, MouseState { dx: 0, dy: 0, left_pressed: true });
    }
}

#[test]
fn full_deflection_accelerates() {
    let mut mapper = MouseMapper::new();
    let expected = [(0, 0), (2, 0), (2, -1), (3, 0), (2, -1), (3, -1), (3, -1), (4, -1)];
    for (dx, dy) in expected {
        let out = mapper.update(joy(127, -60, false));
        assert_eq!((out.dx, out.dy), (dx, dy));
    }
    let after = [(1, 0), (0, 0), (0, 0)];
    for (dx, dy) in after {
        let out = mapper.update(joy(0, 0, false));
        assert_eq!((out.dx, out.dy), (dx, dy));
    }
}

#[test]
fn opposite_deflections_move_opposite_ways() {
    let mut right = MouseMapper::new();
    let mut left = MouseMapper::new();
    for _ in 0..30 {
        let r = right.update(joy(100, 40, false));
        let l = left.update(joy(-100, -40, false));
        assert_eq!(r.dx, -l.dx);
        assert_eq!(r.dy, -l.dy);
    }
}

#[test]
fn speed_is_capped() {
    let mut mapper = MouseMapper::new();
    for _ in 0..2000 {
        let out = mapper.update(joy(127, 127, false));
        assert!(out.dx >= 0 && out.dy >= 0);
        assert!(out.dx <= 8 && out.dy <= 8);
    }
}

#[test]
fn direct_mapping_dead_zone() {
    assert_eq!(from_joystick(joy(10, -10, true)), MouseState { dx: 0, dy: 0, left_pressed: true });
    assert_eq!(from_joystick(joy(11, -11, false)), MouseState { dx: 11, dy: -11, left_pressed: false });
    assert_eq!(from_joystick(joy(127, -127, false)), MouseState { dx: 127, dy: -127, left_pressed: false });
    assert_eq!(from_joystick(joy(0, 5, false)), MouseState { dx: 0, dy: 0, left_pressed: false });
}

#[test]
fn registers_decode_as_signed_bytes() {
    assert_eq!(decode_joy_state(0x05, 0xfb, 0), JoyState { x: 5, y: -5, pressed: true });
    assert_eq!(decode_joy_state(0x80, 0x7f, 1), JoyState { x: -128, y: 127, pressed: false });
    assert_eq!(decode_joy_state(0, 0, 0xff), JoyState { x: 0, y: 0, pressed: false });
}

#[test]
fn slow_motion_accumulates() {
    let mut mapper = MouseMapper::new();
    let mut total: i32 = 0;
    let mut first_move = None;
    for i in 0..200 {
        let out = mapper.update(joy(12, 0, false));
        assert!(out.dx >= 0 && out.dx <= 1 && out.dy == 0);
        if out.dx != 0 && first_move.is_none() {
            first_move = Some(i);
        }
        total += i32::from(out.dx);
    }
    assert!(first_move.is_some());
    assert!(total > 0);
}
