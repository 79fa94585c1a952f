//! # Alarm Trigger
//! The decisions of the alarm trigger task: which alarm configuration is in force, whether the
//! alarm time of today has passed, the next calendar day, and the filter that schedules the RTC
//! alarm always at a moment in the future.
use vstd::prelude::*;

use crate::datetime::{day_of_week_index, DateTime, DayOfWeek};
use crate::state::SystemState;
use crate::task::time_updater::{
    days_since_epoch, is_leap_year, leap_year, month_length, unix_seconds,
    lemma_days_before_month_bounds, lemma_days_before_year_step,
};

verus! {

/// Seconds to wait after an alarm fired before it is scheduled again.
pub const POST_ALARM_COOLDOWN_SECS: u64 = 65;

/// Seconds to wait before trying again when the state or the RTC is not ready.
pub const INIT_RETRY_DELAY_SECS: u64 = 1;

/// Milliseconds to wait at startup for the state manager to load the alarm settings.
pub const STARTUP_DELAY_MS: u64 = 500;

/// Seconds between two health reports while waiting for the alarm.
pub const HEALTH_REPORT_INTERVAL_SECS: u64 = 240;

/// Represents the alarm configuration read from state
#[derive(Clone, Copy, Debug, PartialEq, Eq, Structural)]
pub struct AlarmConfig {
    /// Whether the alarm is enabled
    pub enabled: bool,
    /// Hour of the alarm (0-23)
    pub hour: u8,
    /// Minute of the alarm (0-59)
    pub minute: u8,
}

/// Reads the current alarm configuration from the system state, if the state exists yet.
pub fn get_alarm_config(state: Option<&SystemState>) -> (config: Option<AlarmConfig>)
    ensures
        state.is_none() ==> config.is_none(),
        state.is_some() ==> config == Some(
            AlarmConfig {
                enabled: state.unwrap()@.alarm_settings.enabled,
                hour: state.unwrap()@.alarm_settings.hour,
                minute: state.unwrap()@.alarm_settings.minute,
            },
        ),
{
    match state {
        None => None,
        Some(s) => Some(
            AlarmConfig {
                enabled: s.alarm_settings.get_enabled(),
                hour: s.alarm_settings.get_hour(),
                minute: s.alarm_settings.get_minute(),
            },
        ),
    }
}

/// What the alarm trigger task does with the configuration it read.
#[derive(Clone, Copy, Debug, PartialEq, Eq, Structural)]
pub enum TriggerPlan {
    /// The state is not ready: wait a moment and read again.
    RetryLater,
    /// The alarm is off: wait until the schedule is signalled to change.
    WaitForEnable,
    /// Schedule the RTC alarm at this hour and minute.
    Schedule(u8, u8),
}

/// Decides the next step of the alarm trigger task from the configuration it read.
pub fn plan_for_config(config: Option<AlarmConfig>) -> (plan: TriggerPlan)
    ensures
        config.is_none() ==> plan == TriggerPlan::RetryLater,
        config.is_some() && !config.unwrap().enabled ==> plan == TriggerPlan::WaitForEnable,
        config.is_some() && config.unwrap().enabled ==> plan == TriggerPlan::Schedule(
            config.unwrap().hour,
            config.unwrap().minute,
        ),
{
    match config {
        None => TriggerPlan::RetryLater,
        Some(c) => {
            if c.enabled {
                TriggerPlan::Schedule(c.hour, c.minute)
            } else {
                TriggerPlan::WaitForEnable
            }
        },
    }
}

/// Whether the alarm at `hour:minute:00` is not strictly after `now`'s hour and minute, so
/// that today's occurrence is already gone (or going) and tomorrow's must be scheduled.
pub open spec fn alarm_in_past(now: DateTime, hour: int, minute: int) -> bool {
    hour < now.hour || (hour == now.hour && minute <= now.minute)
}

/// Checks if the alarm time has already passed today. The alarm fires at HH:MM:00, so an alarm
/// in the current minute counts as passed: the alarm is always scheduled in the future.
pub fn is_alarm_time_in_past(now: &DateTime, alarm_hour: u8, alarm_minute: u8) -> (past: bool)
    ensures
        past == alarm_in_past(*now, alarm_hour as int, alarm_minute as int),
{
    if alarm_hour < now.hour {
        return true;
    }
    if alarm_hour > now.hour {
        return false;
    }
    if alarm_minute < now.minute {
        return true;
    }
    if alarm_minute > now.minute {
        return false;
    }
    true
}

/// Days in a month as the alarm scheduler counts them: 30 for a month number outside 1-12.
pub open spec fn scheduler_month_length(month: int, year: int) -> int {
    if 1 <= month <= 12 { month_length(year, month) } else { 30 }
}

/// Get the number of days in a given month and year
pub fn get_days_in_month(month: u8, year: u16) -> (days: u8)
    ensures
        days == scheduler_month_length(month as int, year as int),
{
    match month {
        1 | 3 | 5 | 7 | 8 | 10 | 12 => 31,
        2 => {
            if is_leap_year(year) {
                29
            } else {
                28
            }
        },
        _ => 30,
    }
}

/// The day of the week that follows `day`.
pub open spec fn next_weekday(day: DayOfWeek) -> DayOfWeek {
    match day {
        DayOfWeek::Monday => DayOfWeek::Tuesday,
        DayOfWeek::Tuesday => DayOfWeek::Wednesday,
        DayOfWeek::Wednesday => DayOfWeek::Thursday,
        DayOfWeek::Thursday => DayOfWeek::Friday,
        DayOfWeek::Friday => DayOfWeek::Saturday,
        DayOfWeek::Saturday => DayOfWeek::Sunday,
        DayOfWeek::Sunday => DayOfWeek::Monday,
    }
}

/// Get the next day of the week
pub fn next_day_of_week(day: DayOfWeek) -> (next: DayOfWeek)
    ensures
        next == next_weekday(day),
        day_of_week_index(next) == (day_of_week_index(day) + 1) % 7,
{
    match day {
        DayOfWeek::Monday => DayOfWeek::Tuesday,
        DayOfWeek::Tuesday => DayOfWeek::Wednesday,
        DayOfWeek::Wednesday => DayOfWeek::Thursday,
        DayOfWeek::Thursday => DayOfWeek::Friday,
        DayOfWeek::Friday => DayOfWeek::Saturday,
        DayOfWeek::Saturday => DayOfWeek::Sunday,
        DayOfWeek::Sunday => DayOfWeek::Monday,
    }
}

/// Whether the day after `now` leaves the month: the day past 28 and past the month's length.
pub open spec fn leaves_month(now: DateTime) -> bool {
    now.day + 1 > 28 && now.day + 1 > scheduler_month_length(now.month as int, now.year as int)
}

/// Whether the day after `now` fits the fields of a date: the day, and on a month's end the
/// month, and on a year's end the year, can still be counted up.
pub open spec fn tomorrow_representable(now: DateTime) -> bool {
    &&& now.day < 255
    &&& leaves_month(now) ==> now.month < 255
    &&& leaves_month(now) && now.month + 1 > 12 ==> now.year < 65535
}

/// The day after `now`, same time of day: the next day of the month, or the first of the next
/// month, or the first of January of the next year, with the next day of the week.
pub open spec fn day_after(now: DateTime) -> DateTime {
    let dow = next_weekday(now.day_of_week);
    if !leaves_month(now) {
        DateTime { day: (now.day + 1) as u8, day_of_week: dow, ..now }
    } else if now.month + 1 > 12 {
        DateTime { year: (now.year + 1) as u16, month: 1, day: 1, day_of_week: dow, ..now }
    } else {
        DateTime { month: (now.month + 1) as u8, day: 1, day_of_week: dow, ..now }
    }
}

/// Calculate tomorrow's date based on the current datetime
pub fn calculate_tomorrow(now: &DateTime) -> (tomorrow: DateTime)
    requires
        tomorrow_representable(*now),
    ensures
        tomorrow == day_after(*now),
{
    let mut tomorrow = *now;
    tomorrow.day = tomorrow.day + 1;
    if tomorrow.day > 28 {
        let days_in_month = get_days_in_month(tomorrow.month, tomorrow.year);
        if tomorrow.day > days_in_month {
            tomorrow.day = 1;
            tomorrow.month = tomorrow.month + 1;
            if tomorrow.month > 12 {
                tomorrow.month = 1;
                tomorrow.year = tomorrow.year + 1;
            }
        }
    }
    tomorrow.day_of_week = next_day_of_week(tomorrow.day_of_week);
    tomorrow
}

/// The fields an RTC alarm matches on; a field that is `None` matches any value.
#[derive(Clone, Copy, Debug, PartialEq, Eq, Structural)]
pub struct AlarmFilter {
    /// Year to match
    pub year: Option<u16>,
    /// Month to match
    pub month: Option<u8>,
    /// Day of month to match
    pub day: Option<u8>,
    /// Day of the week to match
    pub day_of_week: Option<DayOfWeek>,
    /// Hour to match
    pub hour: Option<u8>,
    /// Minute to match
    pub minute: Option<u8>,
    /// Second to match
    pub second: Option<u8>,
}

/// The filter that fires once, on the date of `date` at `hour:minute:00`.
pub open spec fn filter_on_date(date: DateTime, hour: u8, minute: u8) -> AlarmFilter {
    AlarmFilter {
        year: Some(date.year),
        month: Some(date.month),
        day: Some(date.day),
        day_of_week: None,
        hour: Some(hour),
        minute: Some(minute),
        second: Some(0),
    }
}

/// The filter that fires every day at `hour:minute:00`.
pub open spec fn daily_filter(hour: u8, minute: u8) -> AlarmFilter {
    AlarmFilter {
        year: None,
        month: None,
        day: None,
        day_of_week: None,
        hour: Some(hour),
        minute: Some(minute),
        second: Some(0),
    }
}

/// Creates an alarm filter for today at the specified time, from a fresh reading of the clock;
/// without a reading the filter matches the time of day alone.
pub fn create_alarm_filter_for_today(hour: u8, minute: u8, now: Option<DateTime>) -> (filter: AlarmFilter)
    ensures
        now.is_none() ==> filter == daily_filter(hour, minute),
        now.is_some() ==> filter == filter_on_date(now.unwrap(), hour, minute),
{
    match now {
        None => AlarmFilter {
            year: None,
            month: None,
            day: None,
            day_of_week: None,
            hour: Some(hour),
            minute: Some(minute),
            second: Some(0),
        },
        Some(n) => AlarmFilter {
            year: Some(n.year),
            month: Some(n.month),
            day: Some(n.day),
            day_of_week: None,
            hour: Some(hour),
            minute: Some(minute),
            second: Some(0),
        },
    }
}

/// Creates an alarm filter for tomorrow at the specified time
pub fn create_alarm_filter_for_tomorrow(now: &DateTime, hour: u8, minute: u8) -> (filter: AlarmFilter)
    requires
        tomorrow_representable(*now),
    ensures
        filter == filter_on_date(day_after(*now), hour, minute),
{
    let tomorrow = calculate_tomorrow(now);
    AlarmFilter {
        year: Some(tomorrow.year),
        month: Some(tomorrow.month),
        day: Some(tomorrow.day),
        day_of_week: None,
        hour: Some(hour),
        minute: Some(minute),
        second: Some(0),
    }
}

/// The filter scheduled for an alarm at `hour:minute`, given the time `now` read first and the
/// time `reread` read again when today's occurrence is still ahead.
pub open spec fn scheduled_filter(now: DateTime, reread: Option<DateTime>, hour: u8, minute: u8) -> AlarmFilter {
    if alarm_in_past(now, hour as int, minute as int) {
        filter_on_date(day_after(now), hour, minute)
    } else if reread.is_some() {
        filter_on_date(reread.unwrap(), hour, minute)
    } else {
        daily_filter(hour, minute)
    }
}

/// Chooses the alarm filter: tomorrow's date if the alarm time has passed today, else today's
/// date from the clock read again.
pub fn alarm_filter(now: &DateTime, reread: Option<DateTime>, hour: u8, minute: u8) -> (filter: AlarmFilter)
    requires
        alarm_in_past(*now, hour as int, minute as int) ==> tomorrow_representable(*now),
    ensures
        filter == scheduled_filter(*now, reread, hour, minute),
{
    if is_alarm_time_in_past(now, hour, minute) {
        create_alarm_filter_for_tomorrow(now, hour, minute)
    } else {
        create_alarm_filter_for_today(hour, minute, reread)
    }
}

/// What ended the wait for the alarm.
#[derive(Clone, Copy, Debug, PartialEq, Eq, Structural)]
pub enum AlarmWaitResult {
    /// The RTC alarm triggered
    Triggered,
    /// Alarm settings were changed
    SettingsChanged,
    /// Alarm was disabled
    Disabled,
}

/// What the task does once the wait for the alarm ended.
#[derive(Clone, Copy, Debug, PartialEq, Eq, Structural)]
pub struct AfterWait {
    /// Whether the alarm event is sent to the orchestrator.
    pub send_alarm_event: bool,
    /// Seconds to cool down before the alarm is scheduled again.
    pub cooldown_secs: u64,
}

/// After the wait the RTC alarm is always cleared and the watchdog told of a success; only a
/// triggered alarm is sent on, followed by a cool-down so that it does not fire twice.
pub fn after_wait(result: AlarmWaitResult) -> (next: AfterWait)
    ensures
        next.send_alarm_event == (result == AlarmWaitResult::Triggered),
        next.cooldown_secs == if result == AlarmWaitResult::Triggered { POST_ALARM_COOLDOWN_SECS } else { 0 },
{
    match result {
        AlarmWaitResult::Triggered => AfterWait { send_alarm_event: true, cooldown_secs: POST_ALARM_COOLDOWN_SECS },
        _ => AfterWait { send_alarm_event: false, cooldown_secs: 0 },
    }
}

/// A valid calendar date from 1970 on (below the last year of the year field), with a valid
/// time of day.
pub open spec fn valid_datetime(dt: DateTime) -> bool {
    &&& 1970 <= dt.year < 65535
    &&& 1 <= dt.month <= 12
    &&& 1 <= dt.day <= month_length(dt.year as int, dt.month as int)
    &&& dt.hour < 24
    &&& dt.minute < 60
    &&& dt.second < 60
}

/// The Unix seconds of a date and time.
pub open spec fn instant(dt: DateTime) -> int {
    unix_seconds(dt.year as int, dt.month as int, dt.day as int, dt.hour as int, dt.minute as int, dt.second as int)
}

/// The Unix seconds at which a filter that names a full date fires.
pub open spec fn filter_instant(f: AlarmFilter) -> int {
    unix_seconds(
        f.year.unwrap() as int,
        f.month.unwrap() as int,
        f.day.unwrap() as int,
        f.hour.unwrap() as int,
        f.minute.unwrap() as int,
        f.second.unwrap() as int,
    )
}

/// On a valid date the day after is the next day of the calendar: its day count since 1970 is
/// one more, its day of the week the next one, and its month and day are valid.
pub proof fn law_tomorrow_is_next_day(now: DateTime)
    requires
        valid_datetime(now),
    ensures
        tomorrow_representable(now),
        1 <= day_after(now).month <= 12,
        1 <= day_after(now).day <= month_length(day_after(now).year as int, day_after(now).month as int),
        days_since_epoch(day_after(now).year as int, day_after(now).month as int, day_after(now).day as int)
            == days_since_epoch(now.year as int, now.month as int, now.day as int) + 1,
        day_of_week_index(day_after(now).day_of_week) == (day_of_week_index(now.day_of_week) + 1) % 7,
{
    let y = now.year as int;
    let m = now.month as int;
    reveal_with_fuel(crate::task::time_updater::days_before_month, 2);
    lemma_days_before_month_bounds(y, 13);
    lemma_days_before_month_bounds(y, m + 1);
    if leaves_month(now) {
        if m == 12 {
            lemma_days_before_year_step(y);
            assert(crate::task::time_updater::days_before_month(y, 13)
                == crate::task::time_updater::days_before_month(y, 12) + 31);
        }
    }
}

/// The alarm is always scheduled at a moment after `now`: for a valid clock reading, and today's
/// filter built from that same reading, the filter names a full date whose instant is later.
pub proof fn law_alarm_scheduled_in_future(now: DateTime, hour: u8, minute: u8)
    requires
        valid_datetime(now),
        hour < 24,
        minute < 60,
    ensures
        scheduled_filter(now, Some(now), hour, minute).year.is_some(),
        scheduled_filter(now, Some(now), hour, minute).second == Some(0u8),
        filter_instant(scheduled_filter(now, Some(now), hour, minute)) > instant(now),
        filter_instant(scheduled_filter(now, Some(now), hour, minute)) <= instant(now) + 86400,
        scheduled_filter(now, Some(now), hour, minute).hour == Some(hour),
        scheduled_filter(now, Some(now), hour, minute).minute == Some(minute),
        hour > now.hour || (hour == now.hour && minute > now.minute) ==> {
            let f = scheduled_filter(now, Some(now), hour, minute);
            &&& f.year == Some(now.year)
            &&& f.month == Some(now.month)
            &&& f.day == Some(now.day)
        },
{
    let f = scheduled_filter(now, Some(now), hour, minute);
    let dn = days_since_epoch(now.year as int, now.month as int, now.day as int);
    let tn = now.hour * 3600 + now.minute * 60 + now.second;
    let ta = hour * 3600 + minute * 60;
    assert(0 <= tn < 86400) by (nonlinear_arith)
        requires
            tn == now.hour * 3600 + now.minute * 60 + now.second,
            now.hour < 24,
            now.minute < 60,
            now.second < 60,
    ;
    assert(0 <= ta < 86400) by (nonlinear_arith)
        requires
            ta == hour * 3600 + minute * 60,
            hour < 24,
            minute < 60,
    ;
    if alarm_in_past(now, hour as int, minute as int) {
        law_tomorrow_is_next_day(now);
        assert(filter_instant(f) == (dn + 1) * 86400 + ta);
        assert(instant(now) == dn * 86400 + tn);
        assert(ta <= tn) by (nonlinear_arith)
            requires
                ta == hour * 3600 + minute * 60,
                tn == now.hour * 3600 + now.minute * 60 + now.second,
                hour < now.hour || (hour == now.hour && minute <= now.minute),
                minute < 60,
                now.second >= 0,
        ;
    } else {
        assert(ta > tn) by (nonlinear_arith)
            requires
                ta == hour * 3600 + minute * 60,
                tn == now.hour * 3600 + now.minute * 60 + now.second,
                hour > now.hour || (hour == now.hour && minute > now.minute),
                minute < 60,
                now.minute < 60,
                now.second < 60,
        ;
    }
}

} // verus!
