use alarmclock::datetime::{DateTime, DayOfWeek};
use alarmclock::task::button_leds::{button_leds_step, ButtonLedCommand, LedInput, LedPhase};
use alarmclock::task::buttons::{button_step, debounce_settled, ButtonInput, ButtonPhase};
use alarmclock::task::rtc_manager::{manual_datetime, request_result};
use alarmclock::task::sound::{is_elapsed, sound_start_plan, SoundCommand};

#[test]
fn debounce_settles_on_a_change() {
    assert_eq!(debounce_settled(true, false), Some(false));
    assert_eq!(debounce_settled(true, true), None);
}

#[test]
fn short_press_sends_one_event() {
    let (p1, e1) = button_step(ButtonPhase::Idle, ButtonInput::Settled(false));
    assert_eq!((p1, e1), (ButtonPhase::AwaitRelease, false));
    assert_eq!(button_step(p1, ButtonInput::Settled(true)), (ButtonPhase::Idle, true));
    assert_eq!(button_step(ButtonPhase::Idle, ButtonInput::Settled(true)), (ButtonPhase::Idle, false));
}

#[test]
fn hold_repeats_events() {
    let (p, e) = button_step(ButtonPhase::AwaitRelease, ButtonInput::ReleaseWindowElapsed);
    assert_eq!((p, e), (ButtonPhase::Holding, false));
    assert_eq!(button_step(p, ButtonInput::HoldIntervalElapsed(false)), (ButtonPhase::Holding, true));
    assert_eq!(button_step(p, ButtonInput::HoldIntervalElapsed(true)), (ButtonPhase::Idle, false));
    assert_eq!(button_step(p, ButtonInput::HoldEdge), (ButtonPhase::Idle, false));
}

#[test]
fn button_leds_time_out() {
    let (p, lit) = button_leds_step(LedPhase::Waiting, LedInput::Command(ButtonLedCommand::OnWithTimeout));
    assert_eq!((p, lit), (LedPhase::Timing, true));
    assert_eq!(button_leds_step(p, LedInput::TimeoutElapsed), (LedPhase::Waiting, false));
    assert_eq!(button_leds_step(p, LedInput::Command(ButtonLedCommand::On)), (LedPhase::Waiting, true));
    assert_eq!(button_leds_step(p, LedInput::Command(ButtonLedCommand::Off)), (LedPhase::Waiting, false));
}

#[test]
fn sound_plan() {
    let plan = sound_start_plan(true, 13);
    assert_eq!(plan.len(), 4);
    assert_eq!(plan[0].command, SoundCommand::SetVolume(13));
    assert_eq!(sound_start_plan(true, 25)[0].command, SoundCommand::SetVolume(25));
    assert_eq!(plan[3].command, SoundCommand::Play(1));
    assert_eq!(plan[3].pause_ms, 200);
    assert!(sound_start_plan(false, 13).is_empty());
}

#[test]
fn elapsed_time() {
    assert!(is_elapsed(1_500, 500, 1_000));
    assert!(!is_elapsed(1_499, 500, 1_000));
}

#[test]
fn manual_time_keeps_the_date() {
    let now = DateTime { year: 2024, month: 3, day: 9, day_of_week: DayOfWeek::Saturday, hour: 1, minute: 2, second: 3 };
    let set = manual_datetime(&now, 6, 30);
    assert_eq!(set, DateTime { hour: 6, minute: 30, second: 0, ..now });
}

#[test]
fn rtc_request_results() {
    assert_eq!(request_result(Some(true)), Ok(()));
    assert_eq!(request_result(Some(false)), Err(()));
    assert_eq!(request_result(None), Err(()));
}
