//! Input, pointer and status logic of the M5Stick presenter: a BLE HID
//! remote built from an M5StickC Plus2 and a Mini JoyC hat.

pub mod config;
pub mod mini_joyc;
pub mod input;
pub mod mouse;
pub mod joystick_mouse;
pub mod presenter;
pub mod battery;
pub mod profile;
pub mod bond_format;
pub mod display;
pub mod hid;
pub mod session;
pub mod input_laws;
pub mod text;
