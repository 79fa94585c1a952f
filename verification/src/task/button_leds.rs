//! # Button LEDs
//! The ring lights of the buttons: the commands they take, and the small state machine of the
//! task that switches them, with the timeout that darkens them after a press.
use vstd::prelude::*;

verus! {

/// Seconds the button LEDs stay on after `OnWithTimeout`.
pub const BUTTON_LED_TIMEOUT_SECS: u64 = 10;

/// Command for controlling the button LEDs
#[derive(Debug, Clone, Copy, PartialEq, Eq, Structural)]
pub enum ButtonLedCommand {
    /// Turn on the button LEDs
    On,
    /// Turn off the button LEDs
    Off,
    /// Turn on the button LEDs with a 10-second timeout before turning off
    OnWithTimeout,
}

/// What the LED task waits for.
#[derive(Debug, Clone, Copy, PartialEq, Eq, Structural)]
pub enum LedPhase {
    /// Waiting for the next command, with no timeout running.
    Waiting,
    /// Waiting for the timeout of an `OnWithTimeout` or for a new command.
    Timing,
}

/// What woke the LED task.
#[derive(Debug, Clone, Copy, PartialEq, Eq, Structural)]
pub enum LedInput {
    /// A command arrived.
    Command(ButtonLedCommand),
    /// The timeout elapsed without a new command.
    TimeoutElapsed,
}

/// The next phase of the LED task and whether the LEDs are lit after an input.
pub open spec fn led_step(phase: LedPhase, input: LedInput) -> (LedPhase, bool) {
    match input {
        LedInput::Command(ButtonLedCommand::On) => (LedPhase::Waiting, true),
        LedInput::Command(ButtonLedCommand::Off) => (LedPhase::Waiting, false),
        LedInput::Command(ButtonLedCommand::OnWithTimeout) => (LedPhase::Timing, true),
        LedInput::TimeoutElapsed => (LedPhase::Waiting, false),
    }
}

/// One step of the button LED task: `On` and `Off` switch the LEDs for good, `OnWithTimeout`
/// lights them and starts (or restarts) the timeout, and an elapsed timeout darkens them.
/// The timeout only elapses while the task is timing.
pub fn button_leds_step(phase: LedPhase, input: LedInput) -> (r: (LedPhase, bool))
    requires
        input == LedInput::TimeoutElapsed ==> phase == LedPhase::Timing,
    ensures
        r == led_step(phase, input),
{
    match input {
        LedInput::Command(ButtonLedCommand::On) => (LedPhase::Waiting, true),
        LedInput::Command(ButtonLedCommand::Off) => (LedPhase::Waiting, false),
        LedInput::Command(ButtonLedCommand::OnWithTimeout) => (LedPhase::Timing, true),
        LedInput::TimeoutElapsed => (LedPhase::Waiting, false),
    }
}

/// A press lights the LEDs, and without another command they are dark again once the timeout
/// has elapsed; a repeated press while timing keeps them lit and the timeout running.
pub proof fn law_press_light_times_out(phase: LedPhase)
    ensures
        led_step(phase, LedInput::Command(ButtonLedCommand::OnWithTimeout)) == (LedPhase::Timing, true),
        led_step(LedPhase::Timing, LedInput::TimeoutElapsed) == (LedPhase::Waiting, false),
        led_step(LedPhase::Timing, LedInput::Command(ButtonLedCommand::OnWithTimeout)) == (LedPhase::Timing, true),
{
}

} // verus!
