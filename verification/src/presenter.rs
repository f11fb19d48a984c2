//! The two presenter buttons and the keys they send.

use vstd::prelude::*;

use crate::config::{BUTTON_A_KEY, BUTTON_B_KEY};

verus! {

#[derive(Debug, Clone, Copy, PartialEq, Eq, Structural)]
pub enum PresenterAction {
    ButtonA,
    ButtonB,
}

impl PresenterAction {
    /// The HID keyboard usage that the button sends.
    pub fn key_code(self) -> (r: u8)
        ensures
            r == (match self {
                PresenterAction::ButtonA => BUTTON_A_KEY,
                PresenterAction::ButtonB => BUTTON_B_KEY,
            }),
    {
        match self {
            Self::ButtonA => BUTTON_A_KEY,
            Self::ButtonB => BUTTON_B_KEY,
        }
    }
}

} // verus!
