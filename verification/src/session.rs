//! Decisions of a connected session, one poll at a time: which reports to
//! send for an input outcome, and when the backlight goes off or on. The
//! caller performs the sends, the drawing and the waiting.

use vstd::prelude::*;

use crate::config::{Action, DISPLAY_TIMEOUT_SECONDS, MOUSE_POLL_INTERVAL_US};
use crate::hid::{mouse_report, wire_byte};
use crate::mouse::MouseState;

verus! {

/// What the joystick did in this poll: move the pointer, or scroll.
#[derive(Debug, Clone, Copy, PartialEq, Eq, Structural)]
pub enum Motion {
    Pointer(MouseState),
    Scroll(i8),
}

/// What the caller is to do after one poll, in this order: send the key,
/// click, switch profile (waking the screen first if asked), send the
/// mouse report, then wake or put the screen to sleep.
#[derive(Debug, Clone, Copy, PartialEq, Eq)]
pub struct PollPlan {
    pub key: Option<u8>,
    pub click: Option<u8>,
    pub next_profile: bool,
    pub wake_for_profile: bool,
    pub mouse_report: Option<[u8; 4]>,
    pub wake_display: bool,
    pub sleep_display: bool,
}

/// What a session remembers between polls.
#[derive(Debug, Clone, Copy, PartialEq, Eq, Structural)]
pub struct SessionState {
    pub now_ms: u64,
    pub last_activity_ms: u64,
    pub display_awake: bool,
    pub previous_mouse_buttons: u8,
}

/// Milliseconds without input after which the screen sleeps.
pub open spec fn display_timeout_ms() -> int {
    DISPLAY_TIMEOUT_SECONDS * 1000
}

pub open spec fn elapsed(now: u64, since: u64) -> int {
    if now >= since {
        now - since
    } else {
        0
    }
}

/// The plan of one poll, before the screen decision.
pub open spec fn event_plan(event: Option<Action>) -> (Option<u8>, Option<u8>, bool) {
    match event {
        Option::Some(Action::KeyboardKey(key)) => (Option::Some(key), Option::None, false),
        Option::Some(Action::MouseButton(button)) => (Option::None, Option::Some(button), false),
        Option::Some(Action::NextProfile) => (Option::None, Option::None, true),
        _ => (Option::None, Option::None, false),
    }
}

/// The mouse report of one poll, if any, for the buttons held.
pub open spec fn report_of(buttons: u8, motion: Motion) -> Option<Seq<u8>> {
    match motion {
        Motion::Scroll(wheel) => if wheel != 0 {
            Option::Some(seq![buttons, 0u8, 0u8, wire_byte(wheel)])
        } else {
            Option::None
        },
        Motion::Pointer(p) => if p.dx != 0 || p.dy != 0 || buttons != 0 {
            Option::Some(seq![buttons, wire_byte(p.dx), wire_byte(p.dy), 0u8])
        } else {
            Option::None
        },
    }
}

impl SessionState {
    pub open spec fn initial() -> SessionState {
        SessionState { now_ms: 0, last_activity_ms: 0, display_awake: true, previous_mouse_buttons: 0 }
    }

    /// A poll counts as activity when a button is down, an event fires,
    /// or a mouse report goes out.
    pub open spec fn active(self, mask: u8, event: Option<Action>, motion: Motion) -> bool {
        let buttons = if event_plan(event).1 is Some {
            0
        } else {
            self.previous_mouse_buttons
        };
        mask != 0 || event is Some || report_of(buttons, motion) is Some
    }

    /// The session after one poll.
    pub open spec fn after_poll(self, mask: u8, event: Option<Action>, motion: Motion) -> SessionState {
        let (_, click, next_profile) = event_plan(event);
        let buttons = if click is Some {
            0
        } else {
            self.previous_mouse_buttons
        };
        let awake_after_event = self.display_awake || next_profile;
        let active = self.active(mask, event, motion);
        let now_next = if self.now_ms + MOUSE_POLL_INTERVAL_US / 1000 > u64::MAX {
            u64::MAX
        } else {
            (self.now_ms + MOUSE_POLL_INTERVAL_US / 1000) as u64
        };
        SessionState {
            now_ms: now_next,
            last_activity_ms: if active {
                self.now_ms
            } else {
                self.last_activity_ms
            },
            display_awake: if active {
                true
            } else if awake_after_event && elapsed(self.now_ms, self.last_activity_ms)
                >= display_timeout_ms() {
                false
            } else {
                awake_after_event
            },
            previous_mouse_buttons: buttons,
        }
    }

    /// The screen goes to sleep in this poll.
    pub open spec fn sleeps(self, mask: u8, event: Option<Action>, motion: Motion) -> bool {
        let awake_after_event = self.display_awake || event_plan(event).2;
        !self.active(mask, event, motion) && awake_after_event && elapsed(
            self.now_ms,
            self.last_activity_ms,
        ) >= display_timeout_ms()
    }

    /// The screen wakes because of activity in this poll.
    pub open spec fn wakes(self, mask: u8, event: Option<Action>, motion: Motion) -> bool {
        let awake_after_event = self.display_awake || event_plan(event).2;
        self.active(mask, event, motion) && !awake_after_event
    }
}

/// The state of a connected session.
#[derive(Debug, Clone, Copy, PartialEq, Eq)]
pub struct PresenterSession {
    state: SessionState,
}

impl View for PresenterSession {
    type V = SessionState;

    closed spec fn view(&self) -> SessionState {
        self.state
    }
}

impl PresenterSession {
    /// A new session: time 0, screen on, no mouse button held.
    pub fn new() -> (r: Self)
        ensures
            r@ == SessionState::initial(),
    {
        PresenterSession {
            state: SessionState {
                now_ms: 0,
                last_activity_ms: 0,
                display_awake: true,
                previous_mouse_buttons: 0,
            },
        }
    }

    /// The session's clock: milliseconds of polling since it began.
    pub fn now_ms(&self) -> (r: u64)
        ensures
            r == self@.now_ms,
    {
        self.state.now_ms
    }

    /// Decides one poll from the button mask, the input event and the
    /// joystick motion.
    pub fn poll(&mut self, mask: u8, event: Option<Action>, motion: Motion) -> (r: PollPlan)
        ensures
            final(self)@ == old(self)@.after_poll(mask, event, motion),
            r.key == event_plan(event).0,
            r.click == event_plan(event).1,
            r.next_profile == event_plan(event).2,
            r.wake_for_profile == (event_plan(event).2 && !old(self)@.display_awake),
            match r.mouse_report {
                Some(report) => report_of(final(self)@.previous_mouse_buttons, motion) == Some(
                    report@,
                ),
                None => report_of(final(self)@.previous_mouse_buttons, motion) is None,
            },
            r.wake_display == old(self)@.wakes(mask, event, motion),
            r.sleep_display == old(self)@.sleeps(mask, event, motion),
            motion matches Motion::Pointer(p) ==> (r.mouse_report is Some <==> (p.dx != 0 || p.dy
                != 0 || final(self)@.previous_mouse_buttons != 0)),
            motion matches Motion::Pointer(p) ==> (r.mouse_report is Some ==> r.mouse_report->0@
                == seq![final(self)@.previous_mouse_buttons, wire_byte(p.dx), wire_byte(p.dy), 0u8]),
    {
        let mut plan = PollPlan {
            key: None,
            click: None,
            next_profile: false,
            wake_for_profile: false,
            mouse_report: None,
            wake_display: false,
            sleep_display: false,
        };
        let mut activity = mask != 0;
        if let Some(action) = event {
            activity = true;
            match action {
                Action::KeyboardKey(key) => {
                    plan.key = Some(key);
                },
                Action::MouseButton(button) => {
                    plan.click = Some(button);
                    self.state.previous_mouse_buttons = 0;
                },
                Action::NextProfile => {
                    plan.next_profile = true;
                    if !self.state.display_awake {
                        plan.wake_for_profile = true;
                        self.state.display_awake = true;
                    }
                },
                Action::ScrollMode | Action::Nothing => {},
            }
        }
        let buttons = self.state.previous_mouse_buttons;
        match motion {
            Motion::Scroll(wheel) => {
                if wheel != 0 {
                    activity = true;
                    plan.mouse_report = Some(mouse_report(buttons, 0, 0, wheel));
                }
            },
            Motion::Pointer(pointer) => {
                if pointer.dx != 0 || pointer.dy != 0 || buttons != 0 {
                    activity = true;
                    plan.mouse_report = Some(mouse_report(buttons, pointer.dx, pointer.dy, 0));
                }
            },
        }
        let timeout_ms = DISPLAY_TIMEOUT_SECONDS * 1_000;
        if activity {
            self.state.last_activity_ms = self.state.now_ms;
            if !self.state.display_awake {
                self.state.display_awake = true;
                plan.wake_display = true;
            }
        } else if self.state.display_awake && self.state.now_ms.saturating_sub(
            self.state.last_activity_ms,
        ) >= timeout_ms {
            self.state.display_awake = false;
            plan.sleep_display = true;
        }
        self.state.now_ms = self.state.now_ms.saturating_add(MOUSE_POLL_INTERVAL_US / 1_000);
        plan
    }
}

/// Decides when the battery level is worth a notification.
#[derive(Debug, Clone, Copy, PartialEq, Eq)]
pub struct BatteryNotifier {
    previous: u8,
}

impl View for BatteryNotifier {
    type V = u8;

    /// The last level notified (255 before the first).
    closed spec fn view(&self) -> u8 {
        self.previous
    }
}

impl BatteryNotifier {
    pub fn new() -> (r: Self)
        ensures
            r@ == u8::MAX,
    {
        BatteryNotifier { previous: u8::MAX }
    }

    /// Whether `level` is to be sent: it is when it differs from the last
    /// one sent, which it then becomes.
    pub fn should_notify(&mut self, level: u8) -> (r: bool)
        ensures
            r == (level != old(self)@),
            final(self)@ == level,
    {
        if level != self.previous {
            self.previous = level;
            true
        } else {
            false
        }
    }
}


/// Pointer motion is reported whenever there is any: with the buttons
/// `buttons` held, a report `[buttons, dx, dy, 0]` goes out exactly when
/// the pointer moves on either axis or a button is held; so vertical motion
/// alone is sent, and counts as activity.
pub proof fn lemma_pointer_report(
    s: SessionState,
    mask: u8,
    event: Option<Action>,
    buttons: u8,
    p: MouseState,
)
    ensures
        report_of(buttons, Motion::Pointer(p)) is Some <==> (p.dx != 0 || p.dy != 0 || buttons
            != 0),
        report_of(buttons, Motion::Pointer(p)) is Some ==> report_of(buttons, Motion::Pointer(p))
            == Option::Some(seq![buttons, wire_byte(p.dx), wire_byte(p.dy), 0u8]),
        p.dy != 0 ==> s.active(mask, event, Motion::Pointer(p)),
        p.dy != 0 ==> s.after_poll(mask, event, Motion::Pointer(p)).last_activity_ms == s.now_ms,
{
}

/// Any activity leaves the screen on, and it is the time of the last
/// activity from then on.
pub proof fn lemma_activity_wakes(s: SessionState, mask: u8, event: Option<Action>, motion: Motion)
    requires
        s.active(mask, event, motion),
    ensures
        s.after_poll(mask, event, motion).display_awake,
        s.after_poll(mask, event, motion).last_activity_ms == s.now_ms,
        !s.sleeps(mask, event, motion),
{
}

/// The screen goes to sleep only after the timeout without activity, and
/// stays on before it.
pub proof fn lemma_sleep_after_timeout(
    s: SessionState,
    mask: u8,
    event: Option<Action>,
    motion: Motion,
)
    ensures
        s.sleeps(mask, event, motion) ==> !s.active(mask, event, motion) && elapsed(
            s.now_ms,
            s.last_activity_ms,
        ) >= display_timeout_ms(),
        s.display_awake && elapsed(s.now_ms, s.last_activity_ms) < display_timeout_ms()
            ==> s.after_poll(mask, event, motion).display_awake,
        s.sleeps(mask, event, motion) ==> !s.after_poll(mask, event, motion).display_awake,
{
}

} // verus!
