use alarmclock::datetime::{DateTime, DayOfWeek};
use alarmclock::utility::string_utils::StringUtils;

fn dt(year: u16, month: u8, day: u8, day_of_week: DayOfWeek) -> DateTime {
    DateTime { year, month, day, day_of_week, hour: 0, minute: 0, second: 0 }
}

#[test]
fn date_line_is_centred() {
    let line = StringUtils::convert_datetime_to_str(&dt(2024, 6, 26, DayOfWeek::Saturday));
    assert_eq!(line.as_str(), " Saturday 26.06.2024  ");
}

#[test]
fn date_line_pads_day_and_month() {
    let line = StringUtils::convert_datetime_to_str(&dt(2025, 1, 5, DayOfWeek::Sunday));
    assert_eq!(line.as_str(), "  Sunday 05.01.2025   ");
}

#[test]
fn longest_name_fills_the_content() {
    let line = StringUtils::convert_datetime_to_str(&dt(2024, 9, 18, DayOfWeek::Wednesday));
    assert_eq!(line.as_str(), " Wednesday 18.09.2024 ");
}

#[test]
fn a_year_that_does_not_fit_is_left_out() {
    let line = StringUtils::convert_datetime_to_str(&dt(10000, 9, 18, DayOfWeek::Wednesday));
    assert_eq!(line.as_str(), "   Wednesday 18.09.   ");
}

#[test]
fn the_empty_date_of_a_stopped_clock() {
    let line = StringUtils::convert_datetime_to_str(&DateTime::empty());
    assert_eq!(line.as_str(), "    Monday 00.00.0    ");
}
