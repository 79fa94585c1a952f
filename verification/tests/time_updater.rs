use alarmclock::datetime::{DateTime, DayOfWeek};
use alarmclock::task::time_updater::{
    apply_cet_with_dst, date_to_days_since_epoch, datetime_to_unix_seconds, day_of_week_from_index,
    days_in_month, is_cet_dst, is_leap_year, last_sunday, ntp_request, ntp_step, ntp_unix_seconds,
    plan_after_update, unix_seconds_to_datetime, NtpError, NtpExchange, NtpStep, REFRESH_AFTER_SECS,
    RETRY_AFTER_SECS,
};

fn dt(year: u16, month: u8, day: u8, day_of_week: DayOfWeek, hour: u8, minute: u8, second: u8) -> DateTime {
    DateTime { year, month, day, day_of_week, hour, minute, second }
}

fn packet_with_seconds(seconds: u32) -> [u8; 48] {
    let mut p = [0u8; 48];
    p[40..44].copy_from_slice(&seconds.to_be_bytes());
    p
}

#[test]
fn leap_years_follow_the_gregorian_rule() {
    assert!(is_leap_year(2024));
    assert!(is_leap_year(2000));
    assert!(!is_leap_year(1900));
    assert!(!is_leap_year(2023));
}

#[test]
fn month_lengths() {
    assert_eq!(days_in_month(2024, 2), 29);
    assert_eq!(days_in_month(2023, 2), 28);
    assert_eq!(days_in_month(2024, 4), 30);
    assert_eq!(days_in_month(2024, 12), 31);
    assert_eq!(days_in_month(2024, 13), 0);
    assert_eq!(days_in_month(2024, 0), 0);
}

#[test]
fn days_since_epoch_of_known_dates() {
    assert_eq!(date_to_days_since_epoch(1970, 1, 1), 0);
    assert_eq!(date_to_days_since_epoch(2024, 1, 1), 19723);
    assert_eq!(date_to_days_since_epoch(1960, 1, 1), 0);
}

#[test]
fn unix_seconds_of_known_instants() {
    assert_eq!(datetime_to_unix_seconds(2024, 6, 26, 12, 0, 0), 1_719_403_200);
    assert_eq!(datetime_to_unix_seconds(2000, 2, 29, 23, 59, 59), 951_868_799);
}

#[test]
fn epoch_is_a_thursday() {
    assert_eq!(unix_seconds_to_datetime(0), dt(1970, 1, 1, DayOfWeek::Thursday, 0, 0, 0));
}

#[test]
fn unix_seconds_to_datetime_known_instant() {
    assert_eq!(unix_seconds_to_datetime(1_719_405_296), dt(2024, 6, 26, DayOfWeek::Wednesday, 12, 34, 56));
    assert_eq!(unix_seconds_to_datetime(951_868_799), dt(2000, 2, 29, DayOfWeek::Tuesday, 23, 59, 59));
}

#[test]
fn the_second_before_the_epoch_has_day_zero() {
    assert_eq!(unix_seconds_to_datetime(-1), dt(1970, 1, 0, DayOfWeek::Wednesday, 23, 59, 59));
    assert_eq!(unix_seconds_to_datetime(-86_401), dt(1970, 1, 1, DayOfWeek::Tuesday, 23, 59, 59));
}

#[test]
fn round_trip_of_a_date() {
    let s = datetime_to_unix_seconds(2031, 12, 31, 23, 0, 7);
    assert_eq!(unix_seconds_to_datetime(s), dt(2031, 12, 31, DayOfWeek::Wednesday, 23, 0, 7));
}

#[test]
fn day_of_week_indices() {
    assert_eq!(day_of_week_from_index(0), DayOfWeek::Sunday);
    assert_eq!(day_of_week_from_index(4), DayOfWeek::Thursday);
    assert_eq!(day_of_week_from_index(6), DayOfWeek::Saturday);
    assert_eq!(day_of_week_from_index(200), DayOfWeek::Saturday);
}

#[test]
fn last_sundays_of_march_and_october() {
    assert_eq!(last_sunday(2024, 3), 31);
    assert_eq!(last_sunday(2024, 10), 27);
    assert_eq!(last_sunday(2025, 3), 30);
    assert_eq!(last_sunday(2025, 10), 26);
}

#[test]
fn summer_time_switches_at_one_utc() {
    assert!(!is_cet_dst(1_711_846_799));
    assert!(is_cet_dst(1_711_846_800));
    assert!(is_cet_dst(1_729_990_799));
    assert!(!is_cet_dst(1_729_990_800));
}

#[test]
fn local_time_is_one_hour_ahead_in_winter_and_two_in_summer() {
    assert_eq!(apply_cet_with_dst(1_705_320_000), dt(2024, 1, 15, DayOfWeek::Monday, 13, 0, 0));
    assert_eq!(apply_cet_with_dst(1_719_835_200), dt(2024, 7, 1, DayOfWeek::Monday, 14, 0, 0));
}

#[test]
fn ntp_request_is_a_client_request() {
    let r = ntp_request();
    assert_eq!(r[0], 0x23);
    assert!(r[1..].iter().all(|b| *b == 0));
}

#[test]
fn ntp_answer_is_converted_to_unix_seconds() {
    assert_eq!(ntp_unix_seconds(&packet_with_seconds(3_913_056_000)), Ok(1_704_067_200));
    assert_eq!(ntp_unix_seconds(&packet_with_seconds(2_208_988_800)), Ok(0));
}

#[test]
fn ntp_answer_before_the_epoch_is_refused() {
    assert_eq!(ntp_unix_seconds(&packet_with_seconds(2_208_988_799)), Err(NtpError::BeforeUnixEpoch));
}

#[test]
fn failed_attempts_are_retried_until_the_last() {
    assert_eq!(ntp_step(0, &NtpExchange::SendFailed), NtpStep::Retry);
    assert_eq!(ntp_step(1, &NtpExchange::ReceiveTimedOut), NtpStep::Retry);
    assert_eq!(ntp_step(2, &NtpExchange::SendFailed), NtpStep::Failed(NtpError::SendFailed));
    assert_eq!(ntp_step(2, &NtpExchange::SendTimedOut), NtpStep::Failed(NtpError::SendTimedOut));
    assert_eq!(ntp_step(2, &NtpExchange::ReceiveFailed), NtpStep::Failed(NtpError::ReceiveFailed));
    assert_eq!(ntp_step(2, &NtpExchange::ReceiveTimedOut), NtpStep::Failed(NtpError::ReceiveTimedOut));
}

#[test]
fn answers_from_elsewhere_or_too_short_are_retried() {
    let response = packet_with_seconds(3_913_056_000);
    let foreign = NtpExchange::Received { from_server: false, len: 48, response };
    let short = NtpExchange::Received { from_server: true, len: 47, response };
    assert_eq!(ntp_step(0, &foreign), NtpStep::Retry);
    assert_eq!(ntp_step(2, &foreign), NtpStep::Failed(NtpError::UnexpectedSource));
    assert_eq!(ntp_step(1, &short), NtpStep::Retry);
    assert_eq!(ntp_step(2, &short), NtpStep::Failed(NtpError::ResponseTooShort));
}

#[test]
fn a_good_answer_ends_the_exchange() {
    let good = NtpExchange::Received { from_server: true, len: 48, response: packet_with_seconds(3_913_056_000) };
    assert_eq!(ntp_step(0, &good), NtpStep::Time(1_704_067_200));
    let early = NtpExchange::Received { from_server: true, len: 48, response: packet_with_seconds(5) };
    assert_eq!(ntp_step(0, &early), NtpStep::Failed(NtpError::BeforeUnixEpoch));
}

#[test]
fn ntp_error_messages() {
    assert_eq!(NtpError::BindFailed.message(), "Failed to bind UDP socket");
    assert_eq!(NtpError::DnsNoResults.message(), "DNS query returned no results");
    assert_eq!(NtpError::BeforeUnixEpoch.message(), "NTP time is before Unix epoch");
    assert_eq!(NtpError::ReceiveTimedOut.message(), "Timed out waiting for NTP response");
}

#[test]
fn update_plan_after_success_and_failure() {
    let ok = plan_after_update(true);
    assert!(ok.report_success);
    assert_eq!(ok.wait_secs, REFRESH_AFTER_SECS);
    assert_eq!(ok.wait_secs, 21_600);
    let failed = plan_after_update(false);
    assert!(!failed.report_success);
    assert_eq!(failed.wait_secs, RETRY_AFTER_SECS);
    assert_eq!(failed.wait_secs, 30);
}

#[test]
fn instants_survive_a_conversion_to_a_date_and_back() {
    for s in [0i64, 59, 86_399, 86_400, 951_868_799, 1_719_405_296, 4_102_444_799] {
        let d = unix_seconds_to_datetime(s);
        assert_eq!(datetime_to_unix_seconds(d.year, d.month, d.day, d.hour, d.minute, d.second), s);
    }
}
