//! # Time Updater
//! The arithmetic of the time updater: reading the NTP answer, the Gregorian calendar, Unix
//! seconds, and the CET/CEST rules that turn UTC into the local time set on the clock.
use vstd::prelude::*;

use crate::datetime::{day_of_week_index, DateTime, DayOfWeek};

verus! {

/// NTP server port.
pub const NTP_PORT: u16 = 123;

/// NTP request/response size in bytes.
pub const NTP_PACKET_SIZE: usize = 48;

/// Seconds between NTP epoch (1900-01-01) and Unix epoch (1970-01-01).
pub const NTP_UNIX_EPOCH_DELTA: u64 = 2_208_988_800;

/// Number of retries after a failed NTP exchange.
pub const NTP_MAX_RETRIES: u8 = 2;

/// Seconds in a day.
pub const SECONDS_PER_DAY: i64 = 86_400;

// ---------------------------------------------------------------------------
// Calendar
// ---------------------------------------------------------------------------

/// A leap year of the Gregorian calendar.
pub open spec fn leap_year(y: int) -> bool {
    (y % 4 == 0 && y % 100 != 0) || y % 400 == 0
}

/// Days in a year.
pub open spec fn year_length(y: int) -> int {
    if leap_year(y) { 366 } else { 365 }
}

/// Days in a month of a year; 0 for a month number outside 1-12.
pub open spec fn month_length(y: int, m: int) -> int {
    if m == 1 || m == 3 || m == 5 || m == 7 || m == 8 || m == 10 || m == 12 {
        31
    } else if m == 4 || m == 6 || m == 9 || m == 11 {
        30
    } else if m == 2 {
        if leap_year(y) { 29 } else { 28 }
    } else {
        0
    }
}

/// Days from 1970-01-01 to the first day of year `y` (0 for years up to 1970).
pub open spec fn days_before_year(y: int) -> int
    decreases y - 1970,
{
    if y <= 1970 { 0 } else { days_before_year(y - 1) + year_length(y - 1) }
}

/// Days from the first day of year `y` to the first day of month `m` of it.
pub open spec fn days_before_month(y: int, m: int) -> int
    decreases m,
{
    if m <= 1 { 0 } else { days_before_month(y, m - 1) + month_length(y, m - 1) }
}

/// Days from 1970-01-01 to the given date.
pub open spec fn days_since_epoch(y: int, m: int, d: int) -> int {
    days_before_year(y) + days_before_month(y, m) + d - 1
}

/// Unix seconds of the given UTC date and time.
pub open spec fn unix_seconds(y: int, m: int, d: int, h: int, mi: int, s: int) -> int {
    days_since_epoch(y, m, d) * 86400 + h * 3600 + mi * 60 + s
}

/// The year, from 1970 on, that holds the day `d` days after the start of year `y`'s epoch
/// offset; `d` counts days since 1970-01-01.
pub open spec fn year_from(d: int, y: int) -> int
    decreases d - days_before_year(y),
    when d >= days_before_year(y) && y >= 1970
{
    if d < days_before_year(y) + year_length(y) { y } else { year_from(d, y + 1) }
}

/// The month, from `m` on, that holds the day `dd` days after the start of year `y`.
pub open spec fn month_from(y: int, dd: int, m: int) -> int
    decreases 12 - m,
{
    if m >= 12 || dd < days_before_month(y, m + 1) { m } else { month_from(y, dd, m + 1) }
}

/// The day of the week with index `i`, 0 being Sunday (6 and above: Saturday).
pub open spec fn day_of_week_of_index(i: int) -> DayOfWeek {
    if i == 0 {
        DayOfWeek::Sunday
    } else if i == 1 {
        DayOfWeek::Monday
    } else if i == 2 {
        DayOfWeek::Tuesday
    } else if i == 3 {
        DayOfWeek::Wednesday
    } else if i == 4 {
        DayOfWeek::Thursday
    } else if i == 5 {
        DayOfWeek::Friday
    } else {
        DayOfWeek::Saturday
    }
}

/// The UTC date and time at `s` Unix seconds. Days before 1970 all map to 1970-01 with day 1,
/// except the last day before the epoch, which maps to day 0.
pub open spec fn unix_datetime(s: int) -> DateTime {
    let d = s / 86400;
    let r = s % 86400;
    let y = if d >= 0 { year_from(d, 1970) } else { 1970 };
    let dd = if d >= 0 { d - days_before_year(y) } else { d };
    let m = if d >= 0 { month_from(y, dd, 1) } else { 1 };
    let day = if d >= 0 { dd - days_before_month(y, m) + 1 } else if d == -1 { 0 } else { 1 };
    DateTime {
        year: y as u16,
        month: m as u8,
        day: day as u8,
        day_of_week: day_of_week_of_index((d + 4) % 7),
        hour: (r / 3600) as u8,
        minute: ((r % 3600) / 60) as u8,
        second: (r % 60) as u8,
    }
}

/// The largest Unix seconds value (exclusive) whose date still has a year below 65536.
pub open spec fn max_unix_seconds() -> int {
    86400 * days_before_year(65536)
}

/// The day of the week of a date, as an index with 0 for Sunday.
pub open spec fn weekday_index(y: int, m: int, d: int) -> int {
    (days_since_epoch(y, m, d) + 4) % 7
}

/// The latest Sunday on or before day `d` of the month (or day 1 if none is found before it).
pub open spec fn sunday_on_or_before(y: int, m: int, d: int) -> int
    decreases d,
{
    if d <= 1 || weekday_index(y, m, d) == 0 { d } else { sunday_on_or_before(y, m, d - 1) }
}

/// The day of month of the last Sunday of a month.
pub open spec fn last_sunday_of(y: int, m: int) -> int {
    sunday_on_or_before(y, m, month_length(y, m))
}

/// Unix seconds at which CEST starts in a year: the last Sunday of March, 01:00 UTC.
pub open spec fn dst_start(y: int) -> int {
    unix_seconds(y, 3, last_sunday_of(y, 3), 1, 0, 0)
}

/// Unix seconds at which CEST ends in a year: the last Sunday of October, 01:00 UTC.
pub open spec fn dst_end(y: int) -> int {
    unix_seconds(y, 10, last_sunday_of(y, 10), 1, 0, 0)
}

/// Whether CEST is in force at the UTC instant `utc`.
pub open spec fn cet_dst_active(utc: int) -> bool {
    let y = unix_datetime(utc).year as int;
    utc >= dst_start(y) && utc < dst_end(y)
}

/// Each year after 1970 adds a year's length to the days before it.
pub proof fn lemma_days_before_year_step(y: int)
    requires
        y >= 1970,
    ensures
        days_before_year(y + 1) == days_before_year(y) + year_length(y),
{
}

/// Days before a year grow with the year, by 365 to 366 per year.
pub proof fn lemma_days_before_year_bounds(a: int, b: int)
    requires
        1970 <= a <= b,
    ensures
        days_before_year(a) + 365 * (b - a) <= days_before_year(b),
        days_before_year(b) <= days_before_year(a) + 366 * (b - a),
    decreases b - a,
{
    if a < b {
        lemma_days_before_year_bounds(a, b - 1);
    }
}

/// The days before a month never exceed a year's length, and before month 13 they equal it.
pub proof fn lemma_days_before_month_bounds(y: int, m: int)
    ensures
        0 <= days_before_month(y, m) <= year_length(y),
        m >= 13 ==> days_before_month(y, m) == year_length(y),
        1 <= m <= 13 ==> forall|k: int| 1 <= k <= m ==> #[trigger] days_before_month(y, k) <= days_before_month(y, m),
    decreases m,
{
    reveal_with_fuel(days_before_month, 13);
    if m > 13 {
        lemma_days_before_month_bounds(y, m - 1);
    } else if m > 1 {
        lemma_days_before_month_bounds(y, m - 1);
    }
}

/// Returns whether the given year is a leap year in the Gregorian calendar.
pub fn is_leap_year(year: u16) -> (r: bool)
    ensures
        r == leap_year(year as int),
{
    (year % 4 == 0 && year % 100 != 0) || year % 400 == 0
}

/// Returns the number of days in the given month for the provided year (0 for a month outside 1-12).
pub fn days_in_month(year: u16, month: u8) -> (r: u8)
    ensures
        r == month_length(year as int, month as int),
{
    match month {
        1 | 3 | 5 | 7 | 8 | 10 | 12 => 31,
        4 | 6 | 9 | 11 => 30,
        2 => {
            if is_leap_year(year) {
                29
            } else {
                28
            }
        },
        _ => 0,
    }
}

/// Convert a date to the number of days since Unix epoch (1970-01-01). Years before 1970 count
/// as 1970.
pub fn date_to_days_since_epoch(year: u16, month: u8, day: u8) -> (days: i64)
    requires
        day >= 1,
    ensures
        days == days_since_epoch(year as int, month as int, day as int),
        0 <= days < 30_000_000,
{
    let mut days: i64 = 0;
    let mut y: u16 = 1970;
    if year > 1970 {
        while y < year
            invariant
                1970 <= y <= year,
                days == days_before_year(y as int),
                days <= 366 * (y - 1970),
            decreases year - y,
        {
            days = days + if is_leap_year(y) { 366 } else { 365 };
            y = y + 1;
        }
    }
    proof {
        lemma_days_before_month_bounds(year as int, month as int);
    }
    let mut m: u8 = 1;
    if month > 1 {
        while m < month
            invariant
                1 <= m <= month,
                days == days_before_year(year as int) + days_before_month(year as int, m as int),
                days_before_year(year as int) <= 366 * 65535,
                0 <= days_before_month(year as int, m as int) <= 366,
            decreases month - m,
        {
            proof {
                lemma_days_before_month_bounds(year as int, (m + 1) as int);
            }
            days = days + days_in_month(year, m) as i64;
            m = m + 1;
        }
    }
    proof {
        if year > 1970 {
            lemma_days_before_year_bounds(1970, year as int);
        }
    }
    days + (day - 1) as i64
}

/// Convert a UTC date/time to Unix seconds.
pub fn datetime_to_unix_seconds(year: u16, month: u8, day: u8, hour: u8, minute: u8, second: u8) -> (s: i64)
    requires
        day >= 1,
    ensures
        s == unix_seconds(year as int, month as int, day as int, hour as int, minute as int, second as int),
{
    proof {
        if year > 1970 {
            lemma_days_before_year_bounds(1970, year as int);
        }
        lemma_days_before_month_bounds(year as int, month as int);
    }
    let days = date_to_days_since_epoch(year, month, day);
    days * 86_400 + hour as i64 * 3_600 + minute as i64 * 60 + second as i64
}

/// Map day-of-week index (0=Sunday) to `DayOfWeek`.
pub fn day_of_week_from_index(idx: u8) -> (d: DayOfWeek)
    ensures
        d == day_of_week_of_index(idx as int),
{
    match idx {
        0 => DayOfWeek::Sunday,
        1 => DayOfWeek::Monday,
        2 => DayOfWeek::Tuesday,
        3 => DayOfWeek::Wednesday,
        4 => DayOfWeek::Thursday,
        5 => DayOfWeek::Friday,
        _ => DayOfWeek::Saturday,
    }
}

/// Euclidean quotient and remainder of `x` divided by a positive `n`.
fn div_rem_euclid(x: i64, n: i64) -> (r: (i64, i64))
    requires
        n > 0,
    ensures
        r.0 as int == (x as int) / (n as int),
        r.1 as int == (x as int) % (n as int),
{
    if x >= 0 {
        let q = ((x as u64) / (n as u64)) as i64;
        let rem = ((x as u64) % (n as u64)) as i64;
        (q, rem)
    } else {
        let y = (-(x + 1)) as u64;
        let q0 = (y / (n as u64)) as i64;
        let r0 = (y % (n as u64)) as i64;
        let q = -q0 - 1;
        let rem = n - 1 - r0;
        assert(q as int == (x as int) / (n as int) && rem as int == (x as int) % (n as int)) by (nonlinear_arith)
            requires
                x < 0,
                n > 0,
                y == -(x + 1),
                q0 as int == (y as int) / (n as int),
                r0 as int == (y as int) % (n as int),
                q == -q0 - 1,
                rem == n - 1 - r0,
        {
            assert(y == q0 * n + r0);
            assert(x == q * n + rem);
            assert(0 <= rem < n);
        }
        (q, rem)
    }
}

/// Convert Unix seconds (UTC) to a `DateTime`.
pub fn unix_seconds_to_datetime(seconds: i64) -> (dt: DateTime)
    requires
        seconds < max_unix_seconds(),
    ensures
        dt == unix_datetime(seconds as int),
{
    let (day_count, rem_secs) = div_rem_euclid(seconds, 86_400);
    let mut days = day_count;
    let mut rem = rem_secs;
    let hour = (rem / 3_600) as u8;
    rem = rem % 3_600;
    let minute = (rem / 60) as u8;
    let second = (rem % 60) as u8;
    let ghost d = day_count as int;

    let mut year: u16 = 1970;
    if days >= 0 {
        proof {
            assert(d < days_before_year(65536));
        }
        loop
            invariant
                d >= 0,
                d < days_before_year(65536),
                1970 <= year,
                d >= days_before_year(year as int),
                days == d - days_before_year(year as int),
                year_from(d, year as int) == year_from(d, 1970),
            ensures
                days == d - days_before_year(year as int),
                d >= days_before_year(year as int),
                1970 <= year,
                year_from(d, 1970) == year as int,
                days < year_length(year as int),
            decreases days,
        {
            let year_days: i64 = if is_leap_year(year) { 366 } else { 365 };
            if days >= year_days {
                proof {
                    lemma_days_before_year_step(year as int);
                    if year >= 65535 {
                        lemma_days_before_year_bounds((year + 1) as int, 65536);
                    }
                }
                days = days - year_days;
                year = year + 1;
            } else {
                break;
            }
        }
    }
    let ghost dd = days as int;
    let mut month: u8 = 1;
    if days >= 0 {
        proof {
            lemma_days_before_month_bounds(year as int, 13);
        }
        loop
            invariant
                dd >= 0,
                dd < year_length(year as int),
                1 <= month <= 12,
                dd >= days_before_month(year as int, month as int),
                days == dd - days_before_month(year as int, month as int),
                month_from(year as int, dd, month as int) == month_from(year as int, dd, 1),
                days_before_month(year as int, 13) == year_length(year as int),
            ensures
                1 <= month <= 12,
                days == dd - days_before_month(year as int, month as int),
                dd >= days_before_month(year as int, month as int),
                days < month_length(year as int, month as int),
                month_from(year as int, dd, 1) == month as int,
            decreases 12 - month,
        {
            let dim = days_in_month(year, month) as i64;
            if days >= dim {
                proof {
                    reveal_with_fuel(days_before_month, 2);
                    if month == 12 {
                        assert(days_before_month(year as int, 13) == days_before_month(year as int, 12) + month_length(year as int, 12));
                    }
                }
                days = days - dim;
                month = month + 1;
            } else {
                break;
            }
        }
    }
    let day: u8 = if -1 <= days && days <= 254 { (days + 1) as u8 } else { 1 };
    let (_, dow) = div_rem_euclid(day_count + 4, 7);
    let dow_index = dow as u8;

    DateTime {
        year,
        month,
        day,
        day_of_week: day_of_week_from_index(dow_index),
        hour,
        minute,
        second,
    }
}

/// Returns the day of month for the last Sunday in the given month.
pub fn last_sunday(year: u16, month: u8) -> (day: u8)
    requires
        1 <= month <= 12,
    ensures
        day == last_sunday_of(year as int, month as int),
        weekday_index(year as int, month as int, day as int) == 0,
        month_length(year as int, month as int) - 6 <= day <= month_length(year as int, month as int),
{
    let mut day = days_in_month(year, month);
    let ghost dim = day as int;
    loop
        invariant
            dim == month_length(year as int, month as int),
            28 <= dim <= 31,
            dim - 6 <= day <= dim,
            sunday_on_or_before(year as int, month as int, day as int) == last_sunday_of(year as int, month as int),
            forall|k: int| day < k <= dim ==> weekday_index(year as int, month as int, k) != 0,
        decreases day,
    {
        let day_number = date_to_days_since_epoch(year, month, day);
        proof {
            lemma_days_before_month_bounds(year as int, month as int);
        }
        let (_, dow_index) = div_rem_euclid(day_number + 4, 7);
        if dow_index == 0 {
            return day;
        }
        proof {
            if day as int == dim - 6 {
                let base = days_since_epoch(year as int, month as int, 1) + 4;
                assert forall|k: int| dim - 6 <= k <= dim implies weekday_index(year as int, month as int, k) == (base + k - 1) % 7 by {}
                assert(false) by {
                    let b = base + dim - 7;
                    assert(weekday_index(year as int, month as int, dim - 6) == (b) % 7);
                    assert(weekday_index(year as int, month as int, dim - 5) == (b + 1) % 7);
                    assert(weekday_index(year as int, month as int, dim - 4) == (b + 2) % 7);
                    assert(weekday_index(year as int, month as int, dim - 3) == (b + 3) % 7);
                    assert(weekday_index(year as int, month as int, dim - 2) == (b + 4) % 7);
                    assert(weekday_index(year as int, month as int, dim - 1) == (b + 5) % 7);
                    assert(weekday_index(year as int, month as int, dim) == (b + 6) % 7);
                }
            }
        }
        day = day - 1;
    }
}

/// Returns `true` if CET/CEST DST is active for the given UTC timestamp: from the last Sunday of
/// March, 01:00 UTC, until the last Sunday of October, 01:00 UTC.
pub fn is_cet_dst(utc_seconds: i64) -> (dst: bool)
    requires
        utc_seconds < max_unix_seconds(),
    ensures
        dst == cet_dst_active(utc_seconds as int),
{
    let utc_dt = unix_seconds_to_datetime(utc_seconds);
    let year = utc_dt.year;
    let dst_start_day = last_sunday(year, 3);
    let dst_end_day = last_sunday(year, 10);

    let dst_start = datetime_to_unix_seconds(year, 3, dst_start_day, 1, 0, 0);
    let dst_end = datetime_to_unix_seconds(year, 10, dst_end_day, 1, 0, 0);

    utc_seconds >= dst_start && utc_seconds < dst_end
}

/// The local offset from UTC in seconds: one hour for CET, two for CEST.
pub open spec fn cet_offset(utc: int) -> int {
    3600 + if cet_dst_active(utc) { 3600int } else { 0int }
}

/// Convert UTC seconds to CET/CEST local time.
pub fn apply_cet_with_dst(utc_seconds: i64) -> (dt: DateTime)
    requires
        utc_seconds < max_unix_seconds(),
        utc_seconds + cet_offset(utc_seconds as int) < max_unix_seconds(),
    ensures
        dt == unix_datetime(utc_seconds + cet_offset(utc_seconds as int)),
{
    let offset: i64 = 3_600 + if is_cet_dst(utc_seconds) { 3_600 } else { 0 };
    proof {
        lemma_days_before_year_bounds(1970, 65536);
    }
    unix_seconds_to_datetime(utc_seconds + offset)
}

/// A day within a year is found in that year by the year search started at any earlier year.
proof fn lemma_year_from_finds(d: int, y0: int, y: int)
    requires
        1970 <= y0 <= y,
        days_before_year(y) <= d < days_before_year(y) + year_length(y),
    ensures
        year_from(d, y0) == y,
    decreases y - y0,
{
    if y0 < y {
        lemma_days_before_year_bounds(y0 + 1, y);
        lemma_days_before_year_step(y0);
        lemma_year_from_finds(d, y0 + 1, y);
    }
}

/// A day within a month is found in that month by the month search started at any earlier month.
proof fn lemma_month_from_finds(y: int, dd: int, k: int, m: int)
    requires
        1 <= k <= m <= 12,
        days_before_month(y, m) <= dd < days_before_month(y, m) + month_length(y, m),
    ensures
        month_from(y, dd, k) == m,
    decreases m - k,
{
    if k < m {
        lemma_days_before_month_bounds(y, m);
        lemma_month_from_finds(y, dd, k + 1, m);
    }
}

/// Converting a valid UTC date and time to Unix seconds and back gives the same date and time,
/// with the day of the week counted from Thursday, 1970-01-01.
pub proof fn law_unix_seconds_round_trip(y: int, m: int, d: int, h: int, mi: int, s: int)
    requires
        1970 <= y <= 65535,
        1 <= m <= 12,
        1 <= d <= month_length(y, m),
        0 <= h < 24,
        0 <= mi < 60,
        0 <= s < 60,
    ensures
        unix_datetime(unix_seconds(y, m, d, h, mi, s)) == (DateTime {
            year: y as u16,
            month: m as u8,
            day: d as u8,
            day_of_week: day_of_week_of_index(weekday_index(y, m, d)),
            hour: h as u8,
            minute: mi as u8,
            second: s as u8,
        }),
{
    let days = days_since_epoch(y, m, d);
    let t = h * 3600 + mi * 60 + s;
    let secs = unix_seconds(y, m, d, h, mi, s);
    lemma_days_before_month_bounds(y, m + 1);
    reveal_with_fuel(days_before_month, 2);
    lemma_days_before_month_bounds(y, 13);
    assert(days_before_month(y, m + 1) == days_before_month(y, m) + month_length(y, m));
    assert(days_before_month(y, m + 1) <= year_length(y));
    assert(0 <= t < 86400) by (nonlinear_arith)
        requires
            t == h * 3600 + mi * 60 + s,
            0 <= h < 24,
            0 <= mi < 60,
            0 <= s < 60,
    ;
    assert(secs / 86400 == days && secs % 86400 == t) by (nonlinear_arith)
        requires
            secs == days * 86400 + t,
            0 <= t < 86400,
    ;
    assert(t / 3600 == h && (t % 3600) / 60 == mi && t % 60 == s) by (nonlinear_arith)
        requires
            t == h * 3600 + mi * 60 + s,
            0 <= h < 24,
            0 <= mi < 60,
            0 <= s < 60,
    ;
    lemma_days_before_month_bounds(y, m);
    lemma_days_before_year_bounds(1970, y);
    assert(days >= days_before_year(y));
    lemma_year_from_finds(days, 1970, y);
    let dd = days - days_before_year(y);
    lemma_month_from_finds(y, dd, 1, m);
    let r = unix_datetime(secs);
    assert(r.year == y as u16);
    assert(r.month == m as u8);
    assert(r.day == d as u8);
    assert(r.hour == h as u8);
    assert(r.minute == mi as u8);
    assert(r.second == s as u8);
    assert(r.day_of_week == day_of_week_of_index(weekday_index(y, m, d)));
}

// ---------------------------------------------------------------------------
// NTP exchange
// ---------------------------------------------------------------------------

/// Seconds to wait before the next refresh after a successful update (6 hours).
pub const REFRESH_AFTER_SECS: u64 = 21_600;

/// Seconds to wait before retrying after a failed update.
pub const RETRY_AFTER_SECS: u64 = 30;

/// Seconds allowed for each network operation.
pub const NETWORK_TIMEOUT_SECS: u64 = 15;

/// Milliseconds to wait between two attempts of the NTP exchange.
pub const NTP_ATTEMPT_PAUSE_MS: u64 = 250;

/// The first byte of an NTP client request: LI=0, VN=4, Mode=3 (client).
pub const NTP_REQUEST_HEADER: u8 = 0x23;

/// What went wrong while fetching the time from the NTP server.
#[derive(Clone, Copy, Debug, PartialEq, Eq, Structural)]
pub enum NtpError {
    /// The UDP buffers are held elsewhere.
    BuffersUnavailable,
    /// The UDP socket could not be bound.
    BindFailed,
    /// The DNS query did not answer in time.
    DnsTimedOut,
    /// The DNS query failed.
    DnsFailed,
    /// The DNS query returned no address.
    DnsNoResults,
    /// The request could not be sent.
    SendFailed,
    /// Sending the request timed out.
    SendTimedOut,
    /// The answer came from another endpoint than the server.
    UnexpectedSource,
    /// The answer was shorter than an NTP packet.
    ResponseTooShort,
    /// The server's time lies before the Unix epoch.
    BeforeUnixEpoch,
    /// No answer could be received.
    ReceiveFailed,
    /// Waiting for the answer timed out.
    ReceiveTimedOut,
}

/// The text reported for each NTP error.
pub open spec fn ntp_error_text(e: NtpError) -> &'static str {
    match e {
        NtpError::BuffersUnavailable => "NTP buffers not available",
        NtpError::BindFailed => "Failed to bind UDP socket",
        NtpError::DnsTimedOut => "DNS query timed out",
        NtpError::DnsFailed => "DNS query failed",
        NtpError::DnsNoResults => "DNS query returned no results",
        NtpError::SendFailed => "Failed to send NTP request",
        NtpError::SendTimedOut => "Timed out while sending NTP request",
        NtpError::UnexpectedSource => "Unexpected NTP response source",
        NtpError::ResponseTooShort => "NTP response too short",
        NtpError::BeforeUnixEpoch => "NTP time is before Unix epoch",
        NtpError::ReceiveFailed => "Failed to receive NTP response",
        NtpError::ReceiveTimedOut => "Timed out waiting for NTP response",
    }
}

impl NtpError {
    /// The message that describes this error.
    pub fn message(&self) -> (text: &'static str)
        ensures
            text == ntp_error_text(*self),
    {
        match self {
            NtpError::BuffersUnavailable => "NTP buffers not available",
            NtpError::BindFailed => "Failed to bind UDP socket",
            NtpError::DnsTimedOut => "DNS query timed out",
            NtpError::DnsFailed => "DNS query failed",
            NtpError::DnsNoResults => "DNS query returned no results",
            NtpError::SendFailed => "Failed to send NTP request",
            NtpError::SendTimedOut => "Timed out while sending NTP request",
            NtpError::UnexpectedSource => "Unexpected NTP response source",
            NtpError::ResponseTooShort => "NTP response too short",
            NtpError::BeforeUnixEpoch => "NTP time is before Unix epoch",
            NtpError::ReceiveFailed => "Failed to receive NTP response",
            NtpError::ReceiveTimedOut => "Timed out waiting for NTP response",
        }
    }
}

/// The transmit timestamp's seconds of an NTP packet: bytes 40 to 43, big-endian.
pub open spec fn ntp_transmit_seconds(packet: Seq<u8>) -> int {
    packet[40] * 16_777_216 + packet[41] * 65_536 + packet[42] * 256 + packet[43]
}

/// The client request sent to the NTP server: all zero but for the header byte.
pub fn ntp_request() -> (request: [u8; 48])
    ensures
        request@[0] == NTP_REQUEST_HEADER,
        forall|i: int| 1 <= i < 48 ==> request@[i] == 0,
{
    let mut request = [0u8; 48];
    request[0] = NTP_REQUEST_HEADER;
    request
}

/// The Unix seconds carried by an NTP answer, or an error if they lie before 1970.
pub fn ntp_unix_seconds(response: &[u8; 48]) -> (r: Result<i64, NtpError>)
    ensures
        ntp_transmit_seconds(response@) < NTP_UNIX_EPOCH_DELTA ==> r == Err::<i64, NtpError>(
            NtpError::BeforeUnixEpoch,
        ),
        ntp_transmit_seconds(response@) >= NTP_UNIX_EPOCH_DELTA ==> r == Ok::<i64, NtpError>(
            (ntp_transmit_seconds(response@) - NTP_UNIX_EPOCH_DELTA) as i64,
        ),
{
    let ntp_seconds: u64 = response[40] as u64 * 16_777_216 + response[41] as u64 * 65_536
        + response[42] as u64 * 256 + response[43] as u64;
    if ntp_seconds < NTP_UNIX_EPOCH_DELTA {
        Err(NtpError::BeforeUnixEpoch)
    } else {
        Ok((ntp_seconds - NTP_UNIX_EPOCH_DELTA) as i64)
    }
}

/// How one attempt of the NTP exchange went, as the network reported it.
#[derive(Clone, Copy, Debug, PartialEq, Eq)]
pub enum NtpExchange {
    /// Sending the request failed.
    SendFailed,
    /// Sending the request timed out.
    SendTimedOut,
    /// Receiving failed.
    ReceiveFailed,
    /// Receiving timed out.
    ReceiveTimedOut,
    /// An answer of `len` bytes arrived, from the server's endpoint or not.
    Received { from_server: bool, len: usize, response: [u8; 48] },
}

/// What to do after one attempt of the NTP exchange.
#[derive(Clone, Copy, Debug, PartialEq, Eq, Structural)]
pub enum NtpStep {
    /// Pause, then try again.
    Retry,
    /// Give up with this error.
    Failed(NtpError),
    /// The server's time, in Unix seconds.
    Time(i64),
}

/// A failed attempt is retried until the last allowed attempt, where it ends the exchange.
pub open spec fn retry_or_fail(attempt: int, e: NtpError) -> NtpStep {
    if attempt >= NTP_MAX_RETRIES { NtpStep::Failed(e) } else { NtpStep::Retry }
}

/// The step that follows an attempt of the NTP exchange.
pub open spec fn ntp_step_spec(attempt: int, exchange: NtpExchange) -> NtpStep {
    match exchange {
        NtpExchange::SendFailed => retry_or_fail(attempt, NtpError::SendFailed),
        NtpExchange::SendTimedOut => retry_or_fail(attempt, NtpError::SendTimedOut),
        NtpExchange::ReceiveFailed => retry_or_fail(attempt, NtpError::ReceiveFailed),
        NtpExchange::ReceiveTimedOut => retry_or_fail(attempt, NtpError::ReceiveTimedOut),
        NtpExchange::Received { from_server, len, response } => {
            if !from_server {
                retry_or_fail(attempt, NtpError::UnexpectedSource)
            } else if len < NTP_PACKET_SIZE {
                retry_or_fail(attempt, NtpError::ResponseTooShort)
            } else if ntp_transmit_seconds(response@) < NTP_UNIX_EPOCH_DELTA {
                NtpStep::Failed(NtpError::BeforeUnixEpoch)
            } else {
                NtpStep::Time((ntp_transmit_seconds(response@) - NTP_UNIX_EPOCH_DELTA) as i64)
            }
        },
    }
}

/// Decides what follows attempt number `attempt` (counted from 0) of the NTP exchange.
pub fn ntp_step(attempt: u8, exchange: &NtpExchange) -> (step: NtpStep)
    ensures
        step == ntp_step_spec(attempt as int, *exchange),
{
    let retry = |e: NtpError| -> (st: NtpStep)
        ensures
            st == retry_or_fail(attempt as int, e),
        {
            if attempt >= NTP_MAX_RETRIES {
                NtpStep::Failed(e)
            } else {
                NtpStep::Retry
            }
        };
    match exchange {
        NtpExchange::SendFailed => retry(NtpError::SendFailed),
        NtpExchange::SendTimedOut => retry(NtpError::SendTimedOut),
        NtpExchange::ReceiveFailed => retry(NtpError::ReceiveFailed),
        NtpExchange::ReceiveTimedOut => retry(NtpError::ReceiveTimedOut),
        NtpExchange::Received { from_server, len, response } => {
            if !*from_server {
                retry(NtpError::UnexpectedSource)
            } else if *len < NTP_PACKET_SIZE {
                retry(NtpError::ResponseTooShort)
            } else {
                match ntp_unix_seconds(response) {
                    Ok(seconds) => NtpStep::Time(seconds),
                    Err(e) => NtpStep::Failed(e),
                }
            }
        },
    }
}

/// The last attempt of the NTP exchange never asks for another one, so the exchange sends at
/// most `NTP_MAX_RETRIES + 1` requests.
pub proof fn law_ntp_attempts_bounded(exchange: NtpExchange)
    ensures
        ntp_step_spec(NTP_MAX_RETRIES as int, exchange) != NtpStep::Retry,
{
}

/// What the updater does after an update cycle: report to the watchdog, then sleep.
#[derive(Clone, Copy, Debug, PartialEq, Eq, Structural)]
pub struct UpdatePlan {
    /// Whether the watchdog is told of a success (else of a failure).
    pub report_success: bool,
    /// Seconds to sleep before the next cycle.
    pub wait_secs: u64,
}

/// After a successful cycle the updater reports success and sleeps until the refresh; after a
/// failed one it reports failure and retries soon.
pub fn plan_after_update(succeeded: bool) -> (plan: UpdatePlan)
    ensures
        plan.report_success == succeeded,
        plan.wait_secs == if succeeded { REFRESH_AFTER_SECS } else { RETRY_AFTER_SECS },
{
    if succeeded {
        UpdatePlan { report_success: true, wait_secs: REFRESH_AFTER_SECS }
    } else {
        UpdatePlan { report_success: false, wait_secs: RETRY_AFTER_SECS }
    }
}

/// The year search ends on the year that holds the day.
proof fn lemma_year_from_holds(d: int, y0: int)
    requires
        y0 >= 1970,
        d >= days_before_year(y0),
    ensures
        year_from(d, y0) >= y0,
        days_before_year(year_from(d, y0)) <= d < days_before_year(year_from(d, y0)) + year_length(year_from(d, y0)),
    decreases d - days_before_year(y0),
{
    lemma_days_before_year_step(y0);
    if d >= days_before_year(y0) + year_length(y0) {
        lemma_year_from_holds(d, y0 + 1);
    }
}

/// The month search ends on the month that holds the day of the year.
proof fn lemma_month_from_holds(y: int, dd: int, m0: int)
    requires
        1 <= m0 <= 12,
        days_before_month(y, m0) <= dd < year_length(y),
    ensures
        m0 <= month_from(y, dd, m0) <= 12,
        days_before_month(y, month_from(y, dd, m0)) <= dd,
        dd < days_before_month(y, month_from(y, dd, m0)) + month_length(y, month_from(y, dd, m0)),
    decreases 12 - m0,
{
    reveal_with_fuel(days_before_month, 2);
    lemma_days_before_month_bounds(y, 13);
    if m0 < 12 && dd >= days_before_month(y, m0 + 1) {
        lemma_month_from_holds(y, dd, m0 + 1);
    } else if m0 == 12 {
        assert(days_before_month(y, 13) == days_before_month(y, 12) + month_length(y, 12));
    }
}

/// Converting Unix seconds to a date and time and back gives the same seconds, and the date is a
/// valid one, for every instant from 1970 on that the year field can hold.
pub proof fn law_datetime_round_trip(secs: int)
    requires
        0 <= secs < max_unix_seconds(),
    ensures
        ({
            let dt = unix_datetime(secs);
            &&& 1970 <= dt.year
            &&& 1 <= dt.month <= 12
            &&& 1 <= dt.day <= month_length(dt.year as int, dt.month as int)
            &&& dt.hour < 24 && dt.minute < 60 && dt.second < 60
            &&& unix_seconds(dt.year as int, dt.month as int, dt.day as int, dt.hour as int, dt.minute as int, dt.second as int) == secs
        }),
{
    let d = secs / 86400;
    let r = secs % 86400;
    assert(d >= 0 && d < days_before_year(65536)) by (nonlinear_arith)
        requires
            0 <= secs < 86400 * days_before_year(65536),
            d == secs / 86400,
    ;
    lemma_year_from_holds(d, 1970);
    let y = year_from(d, 1970);
    if y >= 65536 {
        lemma_days_before_year_bounds(65536, y);
    }
    let dd = d - days_before_year(y);
    lemma_days_before_month_bounds(y, 1);
    lemma_month_from_holds(y, dd, 1);
    let m = month_from(y, dd, 1);
    let day = dd - days_before_month(y, m) + 1;
    assert(0 <= r < 86400 && secs == d * 86400 + r);
    assert(r / 3600 < 24 && (r % 3600) / 60 < 60 && r % 60 < 60 && (r / 3600) * 3600 + ((r % 3600) / 60) * 60 + r % 60 == r)
        by (nonlinear_arith)
        requires
            0 <= r < 86400,
    ;
    let dt = unix_datetime(secs);
    assert(dt.year as int == y);
    assert(dt.month as int == m);
    assert(dt.day as int == day);
}

/// The months have the lengths of the Gregorian calendar: February 28 days, 29 in a leap
/// year; of the others a month has 31 days when its number is odd up to July or even from
/// August on (so July and August both have 31), and 30 days otherwise; the twelve months
/// together make up the year, and the months start on the days of the year 0, 31, 59 (60 in a
/// leap year), and so on.
pub proof fn law_gregorian_month_lengths(y: int, m: int)
    requires
        1 <= m <= 12,
    ensures
        m != 2 ==> month_length(y, m) == 30 + (m + m / 8) % 2,
        m == 2 ==> month_length(y, m) == if leap_year(y) { 29int } else { 28int },
        days_before_month(y, 13) == year_length(y),
        days_before_month(y, m) == seq![0int, 31, 59, 90, 120, 151, 181, 212, 243, 273, 304, 334][m - 1]
            + if m > 2 && leap_year(y) { 1int } else { 0int },
{
    reveal_with_fuel(days_before_month, 13);
}

/// The day of the week of an instant counts on from Thursday, 1 January 1970: it has the index
/// (days since the epoch + 4) mod 7, Sunday being 0, so each day is followed by the next one of
/// the week and every seventh day has the same name.
pub proof fn law_weekday_of_instant(secs: int)
    requires
        0 <= secs,
    ensures
        day_of_week_index(unix_datetime(secs).day_of_week) == (secs / 86400 + 4) % 7,
        unix_datetime(0).day_of_week == DayOfWeek::Thursday,
        day_of_week_index(unix_datetime(secs + 86400).day_of_week) == (day_of_week_index(unix_datetime(secs).day_of_week) + 1) % 7,
        unix_datetime(secs + 7 * 86400).day_of_week == unix_datetime(secs).day_of_week,
{
    assert((secs + 86400) / 86400 == secs / 86400 + 1);
    assert((secs + 7 * 86400) / 86400 == secs / 86400 + 7);
    assert(forall|i: int| 0 <= i < 7 ==> day_of_week_index(#[trigger] day_of_week_of_index(i)) == i);
}

/// The search for a Sunday from day `d` of a month backwards stops at the first Sunday it meets,
/// or at day 1.
proof fn lemma_sunday_on_or_before(y: int, m: int, d: int)
    requires
        1 <= d,
    ensures
        1 <= sunday_on_or_before(y, m, d) <= d,
        sunday_on_or_before(y, m, d) == 1 || weekday_index(y, m, sunday_on_or_before(y, m, d)) == 0,
        forall|k: int| sunday_on_or_before(y, m, d) < k <= d ==> weekday_index(y, m, k) != 0,
    decreases d,
{
    if d > 1 && weekday_index(y, m, d) != 0 {
        lemma_sunday_on_or_before(y, m, d - 1);
    }
}

/// In a month of at least 7 days the last Sunday lies in its last week.
proof fn lemma_last_sunday_in_last_week(y: int, m: int)
    requires
        month_length(y, m) >= 7,
    ensures
        weekday_index(y, m, last_sunday_of(y, m)) == 0,
        month_length(y, m) - 7 < last_sunday_of(y, m) <= month_length(y, m),
{
    let d = month_length(y, m);
    let r = last_sunday_of(y, m);
    lemma_sunday_on_or_before(y, m, d);
    let c = days_before_year(y) + days_before_month(y, m) + 3;
    let k = d - (c + d) % 7;
    assert(weekday_index(y, m, k) == (c + k) % 7);
    assert((c + k) % 7 == 0);
    assert(d - 6 <= k <= d);
}

/// Summer time starts and ends as the EU rules say: at 01:00 UTC on the last Sunday of March and
/// on the last Sunday of October, read back as dates in those months that fall on a Sunday in
/// their last week; between the two instants the local clock is two hours ahead of UTC, and one
/// hour ahead otherwise.
pub proof fn law_summer_time_switches(y: int, utc: int)
    requires
        1970 <= y < 65535,
    ensures
        ({
            let start = unix_datetime(dst_start(y));
            &&& start.year == y && start.month == 3 && start.day_of_week == DayOfWeek::Sunday
            &&& start.day > 31 - 7 && start.hour == 1 && start.minute == 0 && start.second == 0
        }),
        ({
            let end = unix_datetime(dst_end(y));
            &&& end.year == y && end.month == 10 && end.day_of_week == DayOfWeek::Sunday
            &&& end.day > 31 - 7 && end.hour == 1 && end.minute == 0 && end.second == 0
        }),
        unix_datetime(utc).year == y ==> cet_offset(utc) == if dst_start(y) <= utc < dst_end(y) {
            7200int
        } else {
            3600int
        },
{
    lemma_last_sunday_in_last_week(y, 3);
    lemma_last_sunday_in_last_week(y, 10);
    law_unix_seconds_round_trip(y, 3, last_sunday_of(y, 3), 1, 0, 0);
    law_unix_seconds_round_trip(y, 10, last_sunday_of(y, 10), 1, 0, 0);
}

/// Leap years follow the Gregorian rule: a year divisible by 4 is a leap year, except a century
/// year, which is one only when divisible by 400 (2000 and 2024 are, 1900 and 2023 are not); a
/// leap year has 366 days and a 29th of February.
pub proof fn law_gregorian_leap_years(y: int)
    ensures
        leap_year(y) <==> (y % 4 == 0 && !(y % 100 == 0 && y % 400 != 0)),
        year_length(y) == if leap_year(y) { 366int } else { 365int },
        month_length(y, 2) == 28 + if leap_year(y) { 1int } else { 0int },
        leap_year(2000) && leap_year(2024) && !leap_year(1900) && !leap_year(2023),
{
}

} // verus!
