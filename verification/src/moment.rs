//! A moment of local wall-clock time, as the poller sees it.

use vstd::prelude::*;

verus! {

/// One reading of the local clock: the instant as milliseconds since the Unix
/// epoch, and the calendar date, time of day and weekday that the instant has
/// in local time.
#[derive(Debug, Clone, Copy, PartialEq, Eq)]
pub struct LocalMoment {
    /// Milliseconds since 1970-01-01T00:00:00Z.
    pub timestamp_millis: i64,
    pub year: i32,
    /// 1 = January, ..., 12 = December.
    pub month: u32,
    /// Day of the month, starting from 1.
    pub day: u32,
    pub hour: u32,
    pub minute: u32,
    /// 0 = Sunday, 1 = Monday, ..., 6 = Saturday.
    pub weekday: u8,
}

impl LocalMoment {
    /// The fields lie in the ranges of a calendar and a 24-hour clock.
    pub open spec fn in_calendar_range(&self) -> bool {
        &&& 1 <= self.month <= 12
        &&& 1 <= self.day <= 31
        &&& self.hour <= 23
        &&& self.minute <= 59
        &&& self.weekday <= 6
    }
}

/// Reads the local clock through `chrono::Local::now` and copies out what
/// chrono's getters report of it: `timestamp_millis`, `year`, `month`, `day`,
/// `hour`, `minute` and `weekday().num_days_from_sunday()`.
///
/// Trusted: the ranges are those chrono documents for these getters (month 1
/// to 12, day 1 to 31, hour 0 to 23, minute 0 to 59, Sunday-based weekday 0
/// to 6). Nothing is claimed of which moment is read. `Local::now` panics on
/// a machine whose clock stands before 1970 or beyond the years chrono can
/// represent.
#[verifier::external_body]
pub(crate) fn read_local_clock() -> (now: LocalMoment)
    ensures
        now.in_calendar_range(),
{
    let now = chrono::Local::now();
    LocalMoment {
        timestamp_millis: now.timestamp_millis(),
        year: chrono::Datelike::year(&now),
        month: chrono::Datelike::month(&now),
        day: chrono::Datelike::day(&now),
        hour: chrono::Timelike::hour(&now),
        minute: chrono::Timelike::minute(&now),
        weekday: chrono::Datelike::weekday(&now).num_days_from_sunday() as u8,
    }
}

} // verus!
