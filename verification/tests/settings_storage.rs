use alarmclock::state::{AlarmSettings, SystemSettings};
use alarmclock::task::alarm_settings::{
    alarm_settings_from_stored_values, alarm_settings_stored_values, startup_alarm_settings,
    startup_system_settings, system_settings_from_stored_values, system_settings_stored_values,
    ALARM_SETTINGS_KEYS, SYSTEM_SETTINGS_KEYS,
};

#[test]
fn keys_of_the_settings() {
    assert_eq!(ALARM_SETTINGS_KEYS, [0, 1, 2]);
    assert_eq!(SYSTEM_SETTINGS_KEYS, [3, 4]);
}

#[test]
fn nothing_stored_means_no_settings() {
    assert!(alarm_settings_from_stored_values([None, None, None]).is_none());
    assert!(system_settings_from_stored_values([None, None]).is_none());
}

#[test]
fn stored_alarm_settings_are_rebuilt() {
    let a = alarm_settings_from_stored_values([Some(6), Some(45), Some(1)]).unwrap();
    assert_eq!((a.get_hour(), a.get_minute(), a.get_enabled()), (6, 45, true));
    let partial = alarm_settings_from_stored_values([None, Some(30), None]).unwrap();
    assert_eq!((partial.get_hour(), partial.get_minute(), partial.get_enabled()), (0, 30, false));
    let any_nonzero = alarm_settings_from_stored_values([Some(1), Some(2), Some(7)]).unwrap();
    assert!(any_nonzero.get_enabled());
}

#[test]
fn stored_system_settings_are_rebuilt_and_clamped() {
    let s = system_settings_from_stored_values([Some(20), None]).unwrap();
    assert_eq!((s.get_volume(), s.get_clock_brightness()), (20, 1));
    let big = system_settings_from_stored_values([Some(200), Some(200)]).unwrap();
    assert_eq!((big.get_volume(), big.get_clock_brightness()), (30, 20));
}

#[test]
fn written_values() {
    let mut a = AlarmSettings::new_empty();
    a.set_time((7, 5));
    a.set_enabled(true);
    assert_eq!(alarm_settings_stored_values(&a), [7, 5, 1]);
    let mut s = SystemSettings::new_default();
    s.set_volume(3);
    assert_eq!(system_settings_stored_values(&s), [3, 1]);
}

#[test]
fn settings_survive_a_write_and_read() {
    let mut a = AlarmSettings::new_empty();
    a.set_time((22, 10));
    a.set_enabled(true);
    let v = alarm_settings_stored_values(&a);
    let back = alarm_settings_from_stored_values([Some(v[0]), Some(v[1]), Some(v[2])]).unwrap();
    assert_eq!((back.get_hour(), back.get_minute(), back.get_enabled()), (22, 10, true));
}

#[test]
fn startup_falls_back_to_defaults() {
    let a = startup_alarm_settings([None, None, None]);
    assert_eq!((a.get_hour(), a.get_minute(), a.get_enabled()), (0, 0, false));
    let s = startup_system_settings([None, None]);
    assert_eq!((s.get_volume(), s.get_clock_brightness()), (13, 1));
    let loaded = startup_system_settings([Some(9), Some(4)]);
    assert_eq!((loaded.get_volume(), loaded.get_clock_brightness()), (9, 4));
}

#[test]
fn system_settings_survive_a_write_and_read() {
    let mut s = SystemSettings::new_default();
    s.set_volume(30);
    s.set_clock_brightness(0);
    let v = system_settings_stored_values(&s);
    let back = system_settings_from_stored_values([Some(v[0]), Some(v[1])]).unwrap();
    assert_eq!((back.get_volume(), back.get_clock_brightness()), (30, 0));
}
