use alarmclock::state::{
    AlarmSettings, AlarmState, DisplayState, OperationMode, SystemSettings, SystemState,
    DISPLAY_SLEEP_TIMEOUT_MS, INTERACTIVE_MODE_TIMEOUT_MS,
};
use alarmclock::task::buttons::Button;

#[test]
fn default_system_settings() {
    let s = SystemSettings::new_default();
    assert_eq!(s.get_volume(), 13);
    assert_eq!(s.get_clock_brightness(), 1);
}

#[test]
fn volume_wraps_in_both_directions() {
    let mut s = SystemSettings::new_default();
    s.set_volume(30);
    s.increment_volume();
    assert_eq!(s.get_volume(), 0);
    s.decrement_volume();
    assert_eq!(s.get_volume(), 30);
    s.decrement_volume();
    assert_eq!(s.get_volume(), 29);
}

#[test]
fn volume_and_brightness_are_clamped() {
    let mut s = SystemSettings::new_default();
    s.set_volume(99);
    assert_eq!(s.get_volume(), 30);
    s.set_clock_brightness(200);
    assert_eq!(s.get_clock_brightness(), 20);
}

#[test]
fn brightness_wraps_in_both_directions() {
    let mut s = SystemSettings::new_default();
    s.set_clock_brightness(20);
    s.increment_clock_brightness();
    assert_eq!(s.get_clock_brightness(), 0);
    s.decrement_clock_brightness();
    assert_eq!(s.get_clock_brightness(), 20);
}

#[test]
fn alarm_time_wraps() {
    let mut a = AlarmSettings::new_empty();
    a.set_time((23, 59));
    a.increment_alarm_hour();
    a.increment_alarm_minute();
    assert_eq!((a.get_hour(), a.get_minute()), (0, 0));
    a.increment_alarm_hour();
    assert_eq!(a.get_hour(), 1);
}

#[test]
fn empty_alarm_settings() {
    let a = AlarmSettings::new_empty();
    assert_eq!((a.get_hour(), a.get_minute(), a.get_enabled()), (0, 0, false));
    assert_eq!(a.get_stop_alarm_button_sequence(), [Button::Green, Button::Blue, Button::Yellow]);
}

#[test]
fn stop_sequence_is_struck_off_in_order() {
    let mut a = AlarmSettings::new_empty();
    assert_eq!(a.get_first_valid_stop_alarm_button(), Button::Green);
    a.erase_first_valid_stop_alarm_button();
    assert_eq!(a.get_stop_alarm_button_sequence(), [Button::NoButton, Button::Blue, Button::Yellow]);
    assert_eq!(a.get_first_valid_stop_alarm_button(), Button::Blue);
    assert!(!a.is_alarm_stop_button_sequence_complete());
    a.erase_first_valid_stop_alarm_button();
    a.erase_first_valid_stop_alarm_button();
    assert!(a.is_alarm_stop_button_sequence_complete());
    assert_eq!(a.get_first_valid_stop_alarm_button(), Button::NoButton);
    a.erase_first_valid_stop_alarm_button();
    assert!(a.is_alarm_stop_button_sequence_complete());
}

#[test]
fn shuffle_swaps_in_turn() {
    let mut a = AlarmSettings::new_empty();
    a.randomize_stop_alarm_button_sequence([0, 1, 2]);
    assert_eq!(a.get_stop_alarm_button_sequence(), [Button::Green, Button::Blue, Button::Yellow]);
    a.randomize_stop_alarm_button_sequence([2, 2, 2]);
    assert_eq!(a.get_stop_alarm_button_sequence(), [Button::Yellow, Button::Green, Button::Blue]);
    a.randomize_stop_alarm_button_sequence([1, 0, 0]);
    assert_eq!(a.get_stop_alarm_button_sequence(), [Button::Yellow, Button::Blue, Button::Green]);
}

#[test]
fn alarm_state_activity() {
    assert!(!AlarmState::Inactive.is_active());
    assert!(AlarmState::Sunrise.is_active());
    assert!(AlarmState::Noise.is_active());
}

#[test]
fn normal_mode_ends_the_alarm() {
    let mut s = SystemState::new();
    s.set_alarm_mode();
    assert_eq!(s.alarm_state, AlarmState::Sunrise);
    s.set_normal_mode();
    assert_eq!(s.operation_mode, OperationMode::Normal);
    assert_eq!(s.alarm_state, AlarmState::Inactive);
}

#[test]
fn manual_time_buffer() {
    let mut s = SystemState::new();
    s.set_time_manual_mode(23, 59);
    assert_eq!(s.operation_mode, OperationMode::SetTimeManual);
    s.increment_manual_hour();
    s.increment_manual_minute();
    assert_eq!(s.manual_time_buffer, (0, 0));
}

#[test]
fn system_info_has_two_pages() {
    let mut s = SystemState::new();
    s.set_system_info_mode();
    assert!(s.next_system_info_page());
    assert_eq!(s.system_info_page, 1);
    assert!(!s.next_system_info_page());
}

#[test]
fn interactive_modes_time_out_after_ten_seconds() {
    let mut s = SystemState::new();
    s.set_menu_mode();
    s.update_interaction_tick(1_000);
    assert!(!s.should_interactive_mode_timeout(1_000 + INTERACTIVE_MODE_TIMEOUT_MS - 1));
    assert!(s.should_interactive_mode_timeout(1_000 + INTERACTIVE_MODE_TIMEOUT_MS));
    s.set_normal_mode();
    assert!(!s.should_interactive_mode_timeout(1_000_000));
}

#[test]
fn display_sleeps_only_with_the_alarm_enabled() {
    let mut s = SystemState::new();
    s.set_normal_mode();
    s.update_interaction_tick(0);
    assert!(!s.should_alarm_display_sleep(DISPLAY_SLEEP_TIMEOUT_MS));
    s.toggle_alarm_enabled();
    assert!(s.should_alarm_display_sleep(DISPLAY_SLEEP_TIMEOUT_MS));
    assert!(!s.should_alarm_display_sleep(DISPLAY_SLEEP_TIMEOUT_MS - 1));
    s.set_display_off();
    assert!(s.is_display_off());
    assert_eq!(s.display_state, DisplayState::Off);
    assert!(!s.should_alarm_display_sleep(DISPLAY_SLEEP_TIMEOUT_MS));
}

#[test]
fn standby_and_wake_up() {
    let mut s = SystemState::new();
    s.set_standby_mode();
    assert_eq!(s.operation_mode, OperationMode::Standby);
    s.wake_up();
    assert_eq!(s.operation_mode, OperationMode::Normal);
}

#[test]
fn alarm_time_stays_in_range_over_a_sequence_of_changes() {
    let mut a = AlarmSettings::new_empty();
    let enabled = a.get_enabled();
    for step in 0..200u32 {
        match step % 5 {
            0 => a.increment_alarm_hour(),
            1 => a.increment_alarm_minute(),
            2 => a.erase_first_valid_stop_alarm_button(),
            3 => a.set_time(((step % 24) as u8, (step % 60) as u8)),
            _ => a.randomize_stop_alarm_button_sequence([2, 0, 1]),
        }
        assert!(a.get_hour() < 24);
        assert!(a.get_minute() < 60);
        assert_eq!(a.get_enabled(), enabled);
    }
    a.set_time((23, 59));
    a.increment_alarm_hour();
    a.increment_alarm_minute();
    assert_eq!(a.get_hour(), 0);
    assert_eq!(a.get_minute(), 0);
    a.set_enabled(!enabled);
    assert_eq!(a.get_enabled(), !enabled);
}
