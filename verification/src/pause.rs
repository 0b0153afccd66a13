//! The pause button: a push button whose confirmed presses toggle between
//! paused and running.
//!
//! The button is watched from outside: whoever owns the input line waits for
//! what [`PauseButton::pending`] names, and reports what happened to
//! [`PauseButton::run`]. A press counts once the line has been seen to fall
//! and is still low after the settle delay; a line that is high again by then
//! has only bounced.

use vstd::prelude::*;
use crate::pomodoro::Pause;

verus! {

/// Milliseconds between the falling edge and the second look at the line.
pub const SETTLE_DELAY_MS: u64 = 50;

/// What the owner of the input line does next.
#[derive(Debug, PartialEq, Eq, Clone, Copy, Structural)]
pub enum ButtonAction {
    /// Wait until the line falls from high to low.
    AwaitFallingEdge,
    /// Let `millis` milliseconds pass, then read the level of the line.
    Settle { millis: u64 },
}

/// What the owner of the input line has seen.
#[derive(Debug, PartialEq, Eq, Clone, Copy, Structural)]
pub enum ButtonEvent {
    /// The line fell from high to low.
    FallingEdge,
    /// The settle delay is over, and the line is low or not.
    Settled { is_low: bool },
}

/// The debounced pause button.
#[derive(Debug, PartialEq, Eq, Clone, Copy, Structural)]
pub struct PauseButton {
    is_paused: bool,
    settling: bool,
}

impl PauseButton {
    /// Whether the button says "paused".
    pub closed spec fn is_paused(&self) -> bool {
        self.is_paused
    }

    /// Whether a falling edge has been seen and the settle delay is running.
    pub closed spec fn is_settling(&self) -> bool {
        self.settling
    }

    /// The outside work that the button waits for.
    pub open spec fn spec_pending(&self) -> ButtonAction {
        if self.is_settling() {
            ButtonAction::Settle { millis: SETTLE_DELAY_MS }
        } else {
            ButtonAction::AwaitFallingEdge
        }
    }

    /// Whether `event` confirms a press: the settle delay was running, and
    /// at its end the line is still low.
    pub open spec fn confirms(&self, event: ButtonEvent) -> bool {
        self.is_settling() && event == (ButtonEvent::Settled { is_low: true })
    }

    /// Whether `next` is the button after `event`.
    ///
    /// A falling edge starts the settle delay. The level after the delay
    /// ends it, and toggles the pause state if the line is still low. An
    /// event that the button does not wait for changes nothing.
    pub open spec fn steps_to(&self, event: ButtonEvent, next: &PauseButton) -> bool {
        &&& next.is_paused() == (self.is_paused() != self.confirms(event))
        &&& next.is_settling() == match event {
            ButtonEvent::FallingEdge => true,
            ButtonEvent::Settled { .. } => false,
        }
    }

    /// A button that says "paused" and waits for a falling edge.
    pub fn new() -> (button: PauseButton)
        ensures
            button.is_paused(),
            !button.is_settling(),
    {
        PauseButton { is_paused: true, settling: false }
    }

    /// The outside work that the button waits for.
    #[verifier::when_used_as_spec(spec_pending)]
    pub fn pending(&self) -> (action: ButtonAction)
        ensures
            action == self.spec_pending(),
    {
        if self.settling {
            ButtonAction::Settle { millis: SETTLE_DELAY_MS }
        } else {
            ButtonAction::AwaitFallingEdge
        }
    }

    /// Takes in what happened on the input line, and says what to wait for next.
    pub fn run(&mut self, event: ButtonEvent) -> (action: ButtonAction)
        ensures
            old(self).steps_to(event, final(self)),
            action == final(self).spec_pending(),
    {
        match event {
            ButtonEvent::FallingEdge => {
                self.settling = true;
            },
            ButtonEvent::Settled { is_low } => {
                if self.settling && is_low {
                    self.is_paused = !self.is_paused;
                }
                self.settling = false;
            },
        }
        self.pending()
    }

    /// The pause state that the button says.
    pub fn pause_state(&self) -> (state: Pause)
        ensures
            state == (if self.is_paused() { Pause::Paused } else { Pause::Running }),
    {
        Pause::from_flag(self.is_paused)
    }
}

/// A press that is held through the settle delay toggles the pause state
/// exactly once, and leaves the button waiting for the next edge.
pub proof fn lemma_sustained_press_toggles_once(
    before: PauseButton,
    edge: PauseButton,
    after: PauseButton,
)
    requires
        before.steps_to(ButtonEvent::FallingEdge, &edge),
        edge.steps_to(ButtonEvent::Settled { is_low: true }, &after),
    ensures
        edge.is_paused() == before.is_paused(),
        after.is_paused() == !before.is_paused(),
        after.spec_pending() == ButtonAction::AwaitFallingEdge,
{
}

/// A line that is high again when the settle delay is over toggles nothing.
pub proof fn lemma_blip_toggles_nothing(before: PauseButton, edge: PauseButton, after: PauseButton)
    requires
        before.steps_to(ButtonEvent::FallingEdge, &edge),
        edge.steps_to(ButtonEvent::Settled { is_low: false }, &after),
    ensures
        edge.is_paused() == before.is_paused(),
        after.is_paused() == before.is_paused(),
        after.spec_pending() == ButtonAction::AwaitFallingEdge,
{
}

} // verus!
