use alarmclock::task::alarm_mgr::{AlarmManager, AlarmState as LifeCycle};
use alarmclock::task::buttons::Button;
use alarmclock::task::light_effects::Rgb;
use alarmclock::task::neopixel::NeopixelManager;
use alarmclock::task::state::{AlarmState, OperationMode, StateManager};
use alarmclock::task::task_messages::Events;

#[test]
fn alarm_manager_life_cycle() {
    let mut m = AlarmManager::new();
    assert_eq!(m.state, LifeCycle::Idle);
    assert_eq!((m.time, m.last_triggered), (0, 0));
    m.arm();
    assert_eq!(m.state, LifeCycle::Armed);
    m.trigger();
    assert_eq!(m.state, LifeCycle::Triggered);
    m.disarm();
    assert_eq!(m.state, LifeCycle::Idle);
}

#[test]
fn neopixel_manager_swaps_red_and_green() {
    let m = NeopixelManager::new(100, 10);
    assert_eq!((m.alarm_brightness(), m.clock_brightness()), (100, 10));
    assert_eq!(m.rgb_to_grb((1, 2, 3)), Rgb { r: 2, g: 1, b: 3 });
}

#[test]
fn state_manager_starts_normal() {
    let s = StateManager::new();
    assert_eq!(s.operation_mode, OperationMode::Normal);
    assert_eq!(s.alarm_state, AlarmState::Inactive);
}

#[test]
fn green_toggles_the_alarm_and_asks_to_save() {
    let mut s = StateManager::new();
    let e = s.handle_green_button_press();
    assert!(matches!(e, Some(Events::AlarmSettingsNeedUpdate)));
    assert!(s.alarm_settings.get_enabled());
}

#[test]
fn menu_system_info_and_standby() {
    let mut s = StateManager::new();
    assert!(s.handle_yellow_button_press().is_none());
    assert_eq!(s.operation_mode, OperationMode::Menu);
    assert!(s.handle_green_button_press().is_none());
    assert_eq!(s.operation_mode, OperationMode::SystemInfo);
    s.handle_yellow_button_press();
    assert_eq!(s.operation_mode, OperationMode::Normal);
    s.handle_yellow_button_press();
    assert!(matches!(s.handle_blue_button_press(), Some(Events::Standby)));
    assert_eq!(s.operation_mode, OperationMode::Standby);
    assert!(matches!(s.handle_green_button_press(), Some(Events::WakeUp)));
    assert_eq!(s.operation_mode, OperationMode::Normal);
}

#[test]
fn setting_the_alarm_and_saving() {
    let mut s = StateManager::new();
    s.handle_blue_button_press();
    assert_eq!(s.operation_mode, OperationMode::SetAlarmTime);
    s.handle_green_button_press();
    s.handle_yellow_button_press();
    assert_eq!((s.alarm_settings.get_hour(), s.alarm_settings.get_minute()), (1, 1));
    assert!(matches!(s.handle_blue_button_press(), Some(Events::AlarmSettingsNeedUpdate)));
    assert_eq!(s.operation_mode, OperationMode::Normal);
}

#[test]
fn alarm_stops_after_the_sequence() {
    let mut s = StateManager::new();
    s.set_alarm_mode();
    s.randomize_alarm_stop_buttom_sequence([0, 1, 2]);
    assert!(s.handle_blue_button_press().is_none());
    assert_eq!(s.alarm_settings.get_first_valid_stop_alarm_button(), Button::Green);
    assert!(s.handle_green_button_press().is_none());
    assert!(s.handle_blue_button_press().is_none());
    assert!(matches!(s.handle_yellow_button_press(), Some(Events::AlarmStop)));
}
