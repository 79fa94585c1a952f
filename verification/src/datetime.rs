//! # Date and time
//! The calendar date and time of day as the real-time clock of the RP2040 keeps it.
use vstd::prelude::*;

verus! {

/// A day of the week
#[derive(Debug, Clone, Copy, PartialEq, Eq, Structural)]
pub enum DayOfWeek {
    /// Sunday (index 0)
    Sunday,
    /// Monday (index 1)
    Monday,
    /// Tuesday (index 2)
    Tuesday,
    /// Wednesday (index 3)
    Wednesday,
    /// Thursday (index 4)
    Thursday,
    /// Friday (index 5)
    Friday,
    /// Saturday (index 6)
    Saturday,
}

/// The index of a day of the week, 0 being Sunday.
pub open spec fn day_of_week_index(d: DayOfWeek) -> int {
    match d {
        DayOfWeek::Sunday => 0,
        DayOfWeek::Monday => 1,
        DayOfWeek::Tuesday => 2,
        DayOfWeek::Wednesday => 3,
        DayOfWeek::Thursday => 4,
        DayOfWeek::Friday => 5,
        DayOfWeek::Saturday => 6,
    }
}

/// A calendar date with a time of day.
#[derive(Debug, Clone, Copy, PartialEq, Eq, Structural)]
pub struct DateTime {
    /// Year
    pub year: u16,
    /// 1..12, 1 is January
    pub month: u8,
    /// 1..28,29,30,31 depending on month
    pub day: u8,
    /// Day of the week
    pub day_of_week: DayOfWeek,
    /// 0..23
    pub hour: u8,
    /// 0..59
    pub minute: u8,
    /// 0..59
    pub second: u8,
}

impl DateTime {
    /// The date time shown when the clock is not running: all fields zero, Monday.
    pub fn empty() -> (dt: DateTime)
        ensures
            dt == (DateTime { year: 0, month: 0, day: 0, day_of_week: DayOfWeek::Monday, hour: 0, minute: 0, second: 0 }),
    {
        DateTime { year: 0, month: 0, day: 0, day_of_week: DayOfWeek::Monday, hour: 0, minute: 0, second: 0 }
    }
}

} // verus!
