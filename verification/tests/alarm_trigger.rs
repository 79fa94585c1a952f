use alarmclock::datetime::{DateTime, DayOfWeek};
use alarmclock::state::SystemState;
use alarmclock::task::alarm_trigger::{
    after_wait, alarm_filter, calculate_tomorrow, create_alarm_filter_for_today,
    create_alarm_filter_for_tomorrow, get_alarm_config, get_days_in_month, is_alarm_time_in_past,
    next_day_of_week, plan_for_config, AlarmConfig, AlarmFilter, AlarmWaitResult, TriggerPlan,
};

fn dt(year: u16, month: u8, day: u8, day_of_week: DayOfWeek, hour: u8, minute: u8, second: u8) -> DateTime {
    DateTime { year, month, day, day_of_week, hour, minute, second }
}

fn on_date(year: u16, month: u8, day: u8, hour: u8, minute: u8) -> AlarmFilter {
    AlarmFilter {
        year: Some(year),
        month: Some(month),
        day: Some(day),
        day_of_week: None,
        hour: Some(hour),
        minute: Some(minute),
        second: Some(0),
    }
}

#[test]
fn alarm_earlier_today_is_in_the_past() {
    let now = dt(2024, 6, 26, DayOfWeek::Wednesday, 7, 30, 0);
    assert!(is_alarm_time_in_past(&now, 6, 59));
    assert!(is_alarm_time_in_past(&now, 7, 29));
    assert!(!is_alarm_time_in_past(&now, 7, 31));
    assert!(!is_alarm_time_in_past(&now, 8, 0));
}

#[test]
fn alarm_in_the_current_minute_counts_as_past() {
    let now = dt(2024, 6, 26, DayOfWeek::Wednesday, 7, 30, 0);
    assert!(is_alarm_time_in_past(&now, 7, 30));
}

#[test]
fn scheduler_month_lengths() {
    assert_eq!(get_days_in_month(2, 2024), 29);
    assert_eq!(get_days_in_month(2, 2100), 28);
    assert_eq!(get_days_in_month(1, 2023), 31);
    assert_eq!(get_days_in_month(11, 2023), 30);
    assert_eq!(get_days_in_month(13, 2023), 30);
    assert_eq!(get_days_in_month(0, 2023), 30);
}

#[test]
fn weekdays_cycle() {
    assert_eq!(next_day_of_week(DayOfWeek::Monday), DayOfWeek::Tuesday);
    assert_eq!(next_day_of_week(DayOfWeek::Saturday), DayOfWeek::Sunday);
    assert_eq!(next_day_of_week(DayOfWeek::Sunday), DayOfWeek::Monday);
}

#[test]
fn tomorrow_within_a_month() {
    let now = dt(2024, 6, 26, DayOfWeek::Wednesday, 7, 30, 12);
    assert_eq!(calculate_tomorrow(&now), dt(2024, 6, 27, DayOfWeek::Thursday, 7, 30, 12));
}

#[test]
fn tomorrow_rolls_over_month_and_year() {
    let end_of_june = dt(2024, 6, 30, DayOfWeek::Sunday, 22, 0, 0);
    assert_eq!(calculate_tomorrow(&end_of_june), dt(2024, 7, 1, DayOfWeek::Monday, 22, 0, 0));
    let new_years_eve = dt(2024, 12, 31, DayOfWeek::Tuesday, 23, 59, 59);
    assert_eq!(calculate_tomorrow(&new_years_eve), dt(2025, 1, 1, DayOfWeek::Wednesday, 23, 59, 59));
}

#[test]
fn tomorrow_in_february() {
    let leap = dt(2024, 2, 28, DayOfWeek::Wednesday, 6, 0, 0);
    assert_eq!(calculate_tomorrow(&leap), dt(2024, 2, 29, DayOfWeek::Thursday, 6, 0, 0));
    let plain = dt(2023, 2, 28, DayOfWeek::Tuesday, 6, 0, 0);
    assert_eq!(calculate_tomorrow(&plain), dt(2023, 3, 1, DayOfWeek::Wednesday, 6, 0, 0));
}

#[test]
fn filters_for_today_and_tomorrow() {
    let now = dt(2024, 12, 31, DayOfWeek::Tuesday, 7, 0, 0);
    assert_eq!(create_alarm_filter_for_today(6, 45, Some(now)), on_date(2024, 12, 31, 6, 45));
    assert_eq!(create_alarm_filter_for_tomorrow(&now, 6, 45), on_date(2025, 1, 1, 6, 45));
}

#[test]
fn filter_without_clock_reading_matches_the_time_of_day() {
    let f = create_alarm_filter_for_today(6, 45, None);
    assert_eq!(f.year, None);
    assert_eq!(f.day, None);
    assert_eq!(f.hour, Some(6));
    assert_eq!(f.minute, Some(45));
    assert_eq!(f.second, Some(0));
}

#[test]
fn alarm_filter_chooses_the_next_occurrence() {
    let now = dt(2024, 6, 30, DayOfWeek::Sunday, 7, 0, 0);
    assert_eq!(alarm_filter(&now, Some(now), 6, 30), on_date(2024, 7, 1, 6, 30));
    assert_eq!(alarm_filter(&now, Some(now), 7, 0), on_date(2024, 7, 1, 7, 0));
    assert_eq!(alarm_filter(&now, Some(now), 7, 1), on_date(2024, 6, 30, 7, 1));
}

#[test]
fn alarm_config_from_state() {
    assert_eq!(get_alarm_config(None), None);
    let mut s = SystemState::new();
    s.alarm_settings.set_time((6, 15));
    s.alarm_settings.set_enabled(true);
    assert_eq!(get_alarm_config(Some(&s)), Some(AlarmConfig { enabled: true, hour: 6, minute: 15 }));
}

#[test]
fn trigger_plans() {
    assert_eq!(plan_for_config(None), TriggerPlan::RetryLater);
    assert_eq!(plan_for_config(Some(AlarmConfig { enabled: false, hour: 6, minute: 0 })), TriggerPlan::WaitForEnable);
    assert_eq!(plan_for_config(Some(AlarmConfig { enabled: true, hour: 6, minute: 5 })), TriggerPlan::Schedule(6, 5));
}

#[test]
fn only_a_triggered_alarm_is_sent_on() {
    let t = after_wait(AlarmWaitResult::Triggered);
    assert!(t.send_alarm_event);
    assert_eq!(t.cooldown_secs, 65);
    let c = after_wait(AlarmWaitResult::SettingsChanged);
    assert!(!c.send_alarm_event);
    assert_eq!(c.cooldown_secs, 0);
    assert!(!after_wait(AlarmWaitResult::Disabled).send_alarm_event);
}
