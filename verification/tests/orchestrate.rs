use alarmclock::datetime::{DateTime, DayOfWeek};
use alarmclock::event::Event;
use alarmclock::state::{AlarmSettings, AlarmState, DisplayState, OperationMode, SystemSettings, SystemState};
use alarmclock::task::alarm_settings::SettingsWriteCommand;
use alarmclock::task::button_leds::ButtonLedCommand;
use alarmclock::task::buttons::Button;
use alarmclock::task::orchestrate::{
    enter_manual_time_mode, handle_blue_button_press, handle_event, handle_green_button_press,
    handle_yellow_button_press, scheduler_time, ticker_update, timeout_checks, vbus_event_actions, Action,
    InitializationState,
};

const NO_SHUFFLE: [usize; 3] = [0, 1, 2];

fn ready_state() -> (Option<SystemState>, InitializationState) {
    let mut state = Some(SystemState::new());
    let mut init = InitializationState::new();
    handle_event(&mut state, &mut init, Event::AlarmSettingsReadFromFlash(AlarmSettings::new_empty()), 0, NO_SHUFFLE);
    handle_event(&mut state, &mut init, Event::RtcUpdated, 0, NO_SHUFFLE);
    (state, init)
}

fn mode(state: &Option<SystemState>) -> OperationMode {
    state.as_ref().unwrap().operation_mode
}

#[test]
fn initialization_needs_the_clock_and_the_settings() {
    let mut state = Some(SystemState::new());
    let mut init = InitializationState::new();
    assert!(!init.is_ready());
    let actions = handle_event(&mut state, &mut init, Event::RtcUpdated, 0, NO_SHUFFLE);
    assert_eq!(mode(&state), OperationMode::Initializing);
    assert_eq!(actions.len(), 1);
    assert!(matches!(actions[0], Action::DisplayUpdate));
    let actions = handle_event(&mut state, &mut init, Event::AlarmSettingsReadFromFlash(AlarmSettings::new_empty()), 0, NO_SHUFFLE);
    assert!(init.is_ready());
    assert_eq!(mode(&state), OperationMode::Normal);
    assert!(matches!(actions[..], [Action::DisplayUpdate, Action::SchedulerWake]));
}

#[test]
fn buttons_are_ignored_while_initializing() {
    let mut state = Some(SystemState::new());
    let mut init = InitializationState::new();
    let actions = handle_event(&mut state, &mut init, Event::GreenBtn, 5, NO_SHUFFLE);
    assert_eq!(mode(&state), OperationMode::Initializing);
    assert!(!state.as_ref().unwrap().alarm_settings.get_enabled());
    assert!(matches!(actions[..], [Action::DisplayUpdate, Action::ButtonLeds(ButtonLedCommand::OnWithTimeout)]));
}

#[test]
fn green_in_normal_mode_toggles_and_saves_the_alarm() {
    let (mut state, mut init) = ready_state();
    let actions = handle_event(&mut state, &mut init, Event::GreenBtn, 10, NO_SHUFFLE);
    assert!(state.as_ref().unwrap().alarm_settings.get_enabled());
    assert!(matches!(
        actions[..],
        [
            Action::Persist(SettingsWriteCommand::AlarmSettings(_)),
            Action::LightFxStart(0, 0, 0),
            Action::AlarmScheduleUpdate,
            Action::DisplayUpdate,
            Action::ButtonLeds(ButtonLedCommand::OnWithTimeout)
        ]
    ));
    let actions = handle_event(&mut state, &mut init, Event::GreenBtn, 20, NO_SHUFFLE);
    assert!(!state.as_ref().unwrap().alarm_settings.get_enabled());
    assert!(matches!(actions[1], Action::AlarmScheduleDisable));
    assert!(matches!(actions[2], Action::SchedulerWake));
}

#[test]
fn setting_the_alarm_time() {
    let (mut state, mut init) = ready_state();
    handle_event(&mut state, &mut init, Event::BlueBtn, 1, NO_SHUFFLE);
    assert_eq!(mode(&state), OperationMode::SetAlarmTime);
    handle_event(&mut state, &mut init, Event::GreenBtn, 2, NO_SHUFFLE);
    handle_event(&mut state, &mut init, Event::YellowBtn, 3, NO_SHUFFLE);
    handle_event(&mut state, &mut init, Event::YellowBtn, 4, NO_SHUFFLE);
    let a = state.as_ref().unwrap().alarm_settings;
    assert_eq!((a.get_hour(), a.get_minute()), (1, 2));
    let actions = handle_event(&mut state, &mut init, Event::BlueBtn, 5, NO_SHUFFLE);
    assert_eq!(mode(&state), OperationMode::Normal);
    assert!(matches!(actions[0], Action::Persist(SettingsWriteCommand::AlarmSettings(_))));
}

#[test]
fn menu_navigation() {
    let (mut state, mut init) = ready_state();
    handle_event(&mut state, &mut init, Event::YellowBtn, 1, NO_SHUFFLE);
    assert_eq!(mode(&state), OperationMode::Menu);
    handle_event(&mut state, &mut init, Event::GreenBtn, 2, NO_SHUFFLE);
    assert_eq!(mode(&state), OperationMode::SettingsMenu);
    handle_event(&mut state, &mut init, Event::GreenBtn, 3, NO_SHUFFLE);
    assert_eq!(mode(&state), OperationMode::SetVolume);
    handle_event(&mut state, &mut init, Event::GreenBtn, 4, NO_SHUFFLE);
    assert_eq!(state.as_ref().unwrap().system_settings.get_volume(), 14);
    let actions = handle_event(&mut state, &mut init, Event::BlueBtn, 5, NO_SHUFFLE);
    assert_eq!(mode(&state), OperationMode::SettingsMenu);
    assert!(matches!(
        actions[..3],
        [Action::Persist(SettingsWriteCommand::SystemSettings(_)), Action::SoundVolumeUpdate(14), Action::NeopixelBrightnessUpdate]
    ));
}

#[test]
fn brightness_changes_preview_at_once() {
    let mut s = SystemState::new();
    s.set_clock_brightness_mode();
    let actions = handle_green_button_press(&mut s, 7);
    assert_eq!(s.system_settings.get_clock_brightness(), 2);
    assert!(matches!(actions[..], [Action::NeopixelBrightnessUpdate]));
    let actions = handle_yellow_button_press(&mut s, 8);
    assert_eq!(s.system_settings.get_clock_brightness(), 1);
    assert!(matches!(actions[..], [Action::NeopixelBrightnessUpdate]));
    assert_eq!(s.last_interaction_tick, 8);
}

#[test]
fn manual_time_is_set_on_blue() {
    let mut s = SystemState::new();
    s.set_time_manual_mode(7, 59);
    handle_green_button_press(&mut s, 1);
    handle_yellow_button_press(&mut s, 2);
    assert_eq!(s.manual_time_buffer, (8, 0));
    let actions = handle_blue_button_press(&mut s, 3);
    assert_eq!(s.operation_mode, OperationMode::SettingsMenu);
    assert!(matches!(actions[..], [Action::SetRtcTimeManual(8, 0), Action::DisplayUpdate]));
}

#[test]
fn standby_and_wake_up_actions() {
    let (mut state, mut init) = ready_state();
    handle_event(&mut state, &mut init, Event::YellowBtn, 1, NO_SHUFFLE);
    let actions = handle_event(&mut state, &mut init, Event::BlueBtn, 2, NO_SHUFFLE);
    assert_eq!(mode(&state), OperationMode::Standby);
    assert!(matches!(
        actions[..4],
        [Action::SchedulerStop, Action::DisplayUpdate, Action::LightFxStart(0, 0, 0), Action::TimeUpdaterSuspend]
    ));
    let actions = handle_event(&mut state, &mut init, Event::YellowBtn, 3, NO_SHUFFLE);
    assert_eq!(mode(&state), OperationMode::Normal);
    assert!(matches!(actions[..3], [Action::SchedulerStart, Action::VsysWake, Action::TimeUpdaterResume]));
}

#[test]
fn the_alarm_stops_after_the_right_sequence() {
    let (mut state, mut init) = ready_state();
    let actions = handle_event(&mut state, &mut init, Event::Alarm, 100, [2, 2, 2]);
    assert_eq!(mode(&state), OperationMode::Alarm);
    assert_eq!(state.as_ref().unwrap().alarm_state, AlarmState::Sunrise);
    assert!(matches!(actions[..], [Action::DisplayUpdate, Action::LightFxStart(0, 0, 0), Action::ButtonLeds(ButtonLedCommand::On)]));
    assert_eq!(
        state.as_ref().unwrap().alarm_settings.get_stop_alarm_button_sequence(),
        [Button::Yellow, Button::Green, Button::Blue]
    );
    let actions = handle_event(&mut state, &mut init, Event::SunriseEffectFinished, 101, NO_SHUFFLE);
    assert_eq!(state.as_ref().unwrap().alarm_state, AlarmState::Noise);
    assert!(matches!(actions[..], [Action::SoundStart, Action::LightFxStart(0, 0, 0)]));
    handle_event(&mut state, &mut init, Event::BlueBtn, 102, NO_SHUFFLE);
    assert_eq!(state.as_ref().unwrap().alarm_settings.get_first_valid_stop_alarm_button(), Button::Yellow);
    handle_event(&mut state, &mut init, Event::YellowBtn, 103, NO_SHUFFLE);
    handle_event(&mut state, &mut init, Event::GreenBtn, 104, NO_SHUFFLE);
    assert_eq!(mode(&state), OperationMode::Alarm);
    let actions = handle_event(&mut state, &mut init, Event::BlueBtn, 105, NO_SHUFFLE);
    assert_eq!(mode(&state), OperationMode::Normal);
    assert_eq!(state.as_ref().unwrap().alarm_state, AlarmState::Inactive);
    assert!(matches!(
        actions[..],
        [
            Action::DisplayUpdate,
            Action::LightFxStop,
            Action::LightFxStart(0, 0, 0),
            Action::SoundStop,
            Action::ButtonLeds(ButtonLedCommand::Off),
            Action::DisplayUpdate,
            Action::ButtonLeds(ButtonLedCommand::OnWithTimeout)
        ]
    ));
}

#[test]
fn a_press_on_a_dark_display_only_wakes_it() {
    let (mut state, mut init) = ready_state();
    state.as_mut().unwrap().set_display_off();
    let actions = handle_event(&mut state, &mut init, Event::GreenBtn, 9, NO_SHUFFLE);
    assert_eq!(state.as_ref().unwrap().display_state, DisplayState::On);
    assert!(!state.as_ref().unwrap().alarm_settings.get_enabled());
    assert!(matches!(actions[..], [Action::DisplayUpdate]));
}

#[test]
fn interactive_timeout_saves_and_returns() {
    let (mut state, mut init) = ready_state();
    state.as_mut().unwrap().set_volume_mode();
    let actions = handle_event(&mut state, &mut init, Event::InteractiveModeTimeout, 50_000, NO_SHUFFLE);
    assert_eq!(mode(&state), OperationMode::Normal);
    assert!(matches!(
        actions[..],
        [
            Action::Persist(SettingsWriteCommand::SystemSettings(_)),
            Action::SoundVolumeUpdate(13),
            Action::NeopixelBrightnessUpdate,
            Action::DisplayUpdate
        ]
    ));
}

#[test]
fn scheduler_ticks_drive_the_clock_face() {
    let (mut state, mut init) = ready_state();
    let actions = handle_event(&mut state, &mut init, Event::Scheduler((7, 8, 9)), 1, NO_SHUFFLE);
    assert!(matches!(actions[..], [Action::LightFxStart(7, 8, 9), Action::DisplayUpdate]));
    state.as_mut().unwrap().alarm_settings.set_enabled(true);
    let actions = handle_event(&mut state, &mut init, Event::Scheduler((7, 8, 10)), 2, NO_SHUFFLE);
    assert!(matches!(actions[..], [Action::DisplayUpdate]));
}

#[test]
fn system_settings_from_flash_are_applied() {
    let (mut state, mut init) = ready_state();
    let mut ss = SystemSettings::new_default();
    ss.set_volume(20);
    let actions = handle_event(&mut state, &mut init, Event::SystemSettingsReadFromFlash(ss), 0, NO_SHUFFLE);
    assert_eq!(state.as_ref().unwrap().system_settings.get_volume(), 20);
    assert!(matches!(actions[..], [Action::SoundVolumeUpdate(20), Action::NeopixelBrightnessUpdate]));
}

#[test]
fn scheduler_helpers() {
    assert_eq!(scheduler_time(None), (0, 0, 0));
    let now = DateTime { year: 2024, month: 1, day: 2, day_of_week: DayOfWeek::Tuesday, hour: 3, minute: 4, second: 5 };
    assert_eq!(scheduler_time(Some(now)), (3, 4, 5));
    assert_eq!(ticker_update(true, None), Some(10_000));
    assert_eq!(ticker_update(false, Some(true)), Some(1_000));
    assert_eq!(ticker_update(false, Some(false)), None);
}

#[test]
fn timeout_checks_run_once_a_second() {
    let mut s = SystemState::new();
    s.set_menu_mode();
    let early = timeout_checks(Some(&s), 10_500, 10_000);
    assert!(!early.checked && !early.interactive_timeout);
    let due = timeout_checks(Some(&s), 11_000, 10_000);
    assert!(due.checked && due.interactive_timeout && !due.display_sleep);
    let none = timeout_checks(None, 11_000, 10_000);
    assert!(none.checked && !none.interactive_timeout);
}

#[test]
fn display_sleeps_only_when_due() {
    let (mut state, mut init) = ready_state();
    state.as_mut().unwrap().alarm_settings.set_enabled(true);
    state.as_mut().unwrap().update_interaction_tick(1_000);
    let actions = handle_event(&mut state, &mut init, Event::DisplaySleepTimeout, 30_999, NO_SHUFFLE);
    assert!(actions.is_empty());
    assert_eq!(state.as_ref().unwrap().display_state, DisplayState::On);
    let actions = handle_event(&mut state, &mut init, Event::DisplaySleepTimeout, 31_000, NO_SHUFFLE);
    assert!(matches!(actions[..], [Action::DisplayUpdate]));
    assert_eq!(state.as_ref().unwrap().display_state, DisplayState::Off);
}

#[test]
fn setting_the_time_by_hand_keeps_the_alarm() {
    let mut s = SystemState::new();
    s.alarm_settings.set_time((6, 30));
    s.alarm_settings.set_enabled(true);
    s.set_time_manual_mode(12, 0);
    handle_green_button_press(&mut s, 1);
    handle_yellow_button_press(&mut s, 2);
    handle_blue_button_press(&mut s, 3);
    let a = s.alarm_settings;
    assert_eq!((a.get_hour(), a.get_minute(), a.get_enabled()), (6, 30, true));
}

#[test]
fn yellow_in_settings_menu_opens_manual_time_with_the_clock() {
    let (mut state, mut init) = ready_state();
    handle_event(&mut state, &mut init, Event::YellowBtn, 1, NO_SHUFFLE);
    handle_event(&mut state, &mut init, Event::GreenBtn, 2, NO_SHUFFLE);
    assert_eq!(mode(&state), OperationMode::SettingsMenu);
    let actions = handle_event(&mut state, &mut init, Event::YellowBtn, 3, NO_SHUFFLE);
    assert!(matches!(actions[0], Action::EnterManualTimeMode));
    assert_eq!(mode(&state), OperationMode::SettingsMenu);
    let now = DateTime { year: 2024, month: 5, day: 6, day_of_week: DayOfWeek::Monday, hour: 21, minute: 45, second: 30 };
    let before = state.unwrap();
    let mut s = before;
    enter_manual_time_mode(&mut s, Some(now));
    assert_eq!(s.operation_mode, OperationMode::SetTimeManual);
    assert_eq!(s.manual_time_buffer, (21, 45));
    assert_eq!(s.last_interaction_tick, 3);
    assert_eq!(s.alarm_settings, before.alarm_settings);
    assert_eq!(s.system_settings, before.system_settings);
}

#[test]
fn manual_time_starts_at_midnight_without_the_clock() {
    let mut s = SystemState::new();
    s.set_settings_menu_mode();
    s.manual_time_buffer = (9, 9);
    enter_manual_time_mode(&mut s, None);
    assert_eq!(s.operation_mode, OperationMode::SetTimeManual);
    assert_eq!(s.manual_time_buffer, (0, 0));
}

#[test]
fn usb_power_change_wakes_the_voltage_reader_on_battery() {
    let s = SystemState::new();
    let actions = vbus_event_actions(Some(&s), false);
    assert!(matches!(actions[..], [Action::VsysWake, Action::DisplayUpdate]));
    let actions = vbus_event_actions(Some(&s), true);
    assert!(matches!(actions[..], [Action::DisplayUpdate]));
    let actions = vbus_event_actions(None, false);
    assert!(actions.is_empty());
}
