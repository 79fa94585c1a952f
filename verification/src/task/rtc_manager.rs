//! # RTC manager
//! The time written to the RTC when the time is set by hand.
use vstd::prelude::*;

use crate::datetime::DateTime;

verus! {

/// Milliseconds a time request waits for the RTC manager.
pub const GET_TIME_TIMEOUT_MS: u64 = 200;

/// Milliseconds a set, schedule or clear request waits for the RTC manager.
pub const REQUEST_TIMEOUT_MS: u64 = 1000;

/// Number of RTC requests that can wait in the queue.
pub const RTC_REQUEST_QUEUE_SIZE: usize = 5;

/// The time set by hand: the date of the current reading kept, the hour and minute replaced,
/// the seconds reset to zero.
pub fn manual_datetime(current: &DateTime, hour: u8, minute: u8) -> (dt: DateTime)
    ensures
        dt == (DateTime { hour: hour, minute: minute, second: 0, ..*current }),
{
    let mut dt = *current;
    dt.hour = hour;
    dt.minute = minute;
    dt.second = 0;
    dt
}

/// The outcome of a request that the RTC manager answers with success or failure; a timeout
/// counts as a failure.
pub fn request_result(answer: Option<bool>) -> (r: Result<(), ()>)
    ensures
        r is Ok <==> answer == Some(true),
{
    match answer {
        Some(true) => Ok(()),
        _ => Err(()),
    }
}

} // verus!
