//! # Buttons
//! The buttons of the clock, and the press-and-hold recognition of their task: a press
//! released within a second sends one event, a longer hold sends one event per hold interval.
use vstd::prelude::*;

verus! {

/// The debounce time of every button, in milliseconds.
pub const DEBOUNCE_MS: u64 = 80;

/// Milliseconds a press may last and still count as a single press.
pub const PRESS_RELEASE_WINDOW_MS: u64 = 1000;

/// Milliseconds between two events while a button is held.
pub const HOLD_EVENT_INTERVAL_MS: u64 = 150;

/// The buttons of the system
#[derive(Debug, Clone, Copy, PartialEq, Eq, Structural)]
pub enum Button {
    /// No button (written `None` in the firmware's logs)
    NoButton,
    /// Green button
    Green,
    /// Blue button
    Blue,
    /// Yellow button
    Yellow,
}

/// The level a debounce settles on: the level read after the edge and the debounce time, if it
/// differs from the level before the edge; else the debounce waits for the next edge.
pub fn debounce_settled(level_before_high: bool, level_after_high: bool) -> (settled: Option<bool>)
    ensures
        level_before_high != level_after_high ==> settled == Some(level_after_high),
        level_before_high == level_after_high ==> settled.is_none(),
{
    if level_before_high != level_after_high {
        Some(level_after_high)
    } else {
        None
    }
}

/// What the button task waits for. The button is high when released and low when pressed.
#[derive(Debug, Clone, Copy, PartialEq, Eq, Structural)]
pub enum ButtonPhase {
    /// Waiting for a debounced press.
    Idle,
    /// Pressed: waiting, for up to a second, for the debounced release.
    AwaitRelease,
    /// Held for more than a second: waiting for an edge or the next hold interval.
    Holding,
}

/// What the button task observed.
#[derive(Debug, Clone, Copy, PartialEq, Eq, Structural)]
pub enum ButtonInput {
    /// A debounce settled on this level (`true` for high).
    Settled(bool),
    /// The second after the press passed without a debounced release.
    ReleaseWindowElapsed,
    /// While holding, the level changed before the hold interval ended.
    HoldEdge,
    /// While holding, the hold interval ended; the level is read (`true` for high).
    HoldIntervalElapsed(bool),
}

/// The next phase of the button task and whether a button event is sent.
pub open spec fn button_step_spec(phase: ButtonPhase, input: ButtonInput) -> (ButtonPhase, bool) {
    match (phase, input) {
        (ButtonPhase::Idle, ButtonInput::Settled(high)) => {
            if high { (ButtonPhase::Idle, false) } else { (ButtonPhase::AwaitRelease, false) }
        },
        (ButtonPhase::AwaitRelease, ButtonInput::Settled(high)) => (ButtonPhase::Idle, high),
        (ButtonPhase::AwaitRelease, ButtonInput::ReleaseWindowElapsed) => (ButtonPhase::Holding, false),
        (ButtonPhase::Holding, ButtonInput::HoldEdge) => (ButtonPhase::Idle, false),
        (ButtonPhase::Holding, ButtonInput::HoldIntervalElapsed(high)) => {
            if high { (ButtonPhase::Idle, false) } else { (ButtonPhase::Holding, true) }
        },
        _ => (phase, false),
    }
}

/// Whether an input can occur in a phase.
pub open spec fn input_fits(phase: ButtonPhase, input: ButtonInput) -> bool {
    match input {
        ButtonInput::Settled(_) => phase == ButtonPhase::Idle || phase == ButtonPhase::AwaitRelease,
        ButtonInput::ReleaseWindowElapsed => phase == ButtonPhase::AwaitRelease,
        ButtonInput::HoldEdge | ButtonInput::HoldIntervalElapsed(_) => phase == ButtonPhase::Holding,
    }
}

/// One step of the button task: a debounced press starts the release window; a release within
/// it sends one event; after it, every hold interval with the button still down sends one
/// event, and any edge or a release ends the hold without an event.
pub fn button_step(phase: ButtonPhase, input: ButtonInput) -> (r: (ButtonPhase, bool))
    requires
        input_fits(phase, input),
    ensures
        r == button_step_spec(phase, input),
{
    match input {
        ButtonInput::Settled(high) => {
            if phase == ButtonPhase::Idle {
                if high {
                    (ButtonPhase::Idle, false)
                } else {
                    (ButtonPhase::AwaitRelease, false)
                }
            } else {
                (ButtonPhase::Idle, high)
            }
        },
        ButtonInput::ReleaseWindowElapsed => (ButtonPhase::Holding, false),
        ButtonInput::HoldEdge => (ButtonPhase::Idle, false),
        ButtonInput::HoldIntervalElapsed(high) => {
            if high {
                (ButtonPhase::Idle, false)
            } else {
                (ButtonPhase::Holding, true)
            }
        },
    }
}

/// An event is sent only when a press is released within the release window, or when the
/// button is still down at the end of a hold interval; a debounced press alone never sends.
pub proof fn law_events_only_on_release_or_hold(phase: ButtonPhase, input: ButtonInput)
    ensures
        button_step_spec(phase, input).1 ==> (phase == ButtonPhase::AwaitRelease && input == ButtonInput::Settled(true))
            || (phase == ButtonPhase::Holding && input == ButtonInput::HoldIntervalElapsed(false)),
        phase == ButtonPhase::Idle ==> !button_step_spec(phase, input).1,
{
}

} // verus!
