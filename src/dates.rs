//! Calendar dates and timestamps as plain numbers: a date is its Julian day.
use vstd::prelude::*;

verus! {

/// Julian day of the earliest date the calendar supports (-9999-01-01).
pub const MIN_JULIAN_DAY: i32 = -1_930_999;

/// Julian day of the latest date the calendar supports (9999-12-31).
pub const MAX_JULIAN_DAY: i32 = 5_373_484;

/// The largest number of days whose length in seconds fits an `i64`.
pub const MAX_DURATION_DAYS: i64 = 106_751_991_167_300;

/// A calendar date, by its Julian day number.
#[derive(Clone, Copy, Debug, PartialEq, Eq, Structural)]
pub struct CalendarDate {
    pub julian_day: i32,
}

impl CalendarDate {
    pub open spec fn wf(self) -> bool {
        MIN_JULIAN_DAY <= self.julian_day <= MAX_JULIAN_DAY
    }

    pub fn from_julian_day(julian_day: i32) -> (r: Option<Self>)
        ensures
            r is Some <==> MIN_JULIAN_DAY <= julian_day <= MAX_JULIAN_DAY,
            r matches Some(d) ==> d.julian_day == julian_day && d.wf(),
    {
        if MIN_JULIAN_DAY <= julian_day && julian_day <= MAX_JULIAN_DAY {
            Some(CalendarDate { julian_day })
        } else {
            None
        }
    }
}

/// A date and a time of day, without offset.
#[derive(Clone, Copy, Debug, PartialEq, Eq, Structural)]
pub struct DateTime {
    pub date: CalendarDate,
    pub hour: u8,
    pub minute: u8,
    pub second: u8,
    pub nanosecond: u32,
}

impl DateTime {
    pub open spec fn wf(self) -> bool {
        &&& self.date.wf()
        &&& self.hour < 24
        &&& self.minute < 60
        &&& self.second < 60
        &&& self.nanosecond < 1_000_000_000
    }

    /// Whether every part is in its range.
    pub fn is_valid(&self) -> (r: bool)
        ensures
            r == self.wf(),
    {
        MIN_JULIAN_DAY <= self.date.julian_day && self.date.julian_day <= MAX_JULIAN_DAY && self.hour
            < 24 && self.minute < 60 && self.second < 60 && self.nanosecond < 1_000_000_000
    }
}

/// The date `days` days after `date`, where the calendar holds it.
pub open spec fn date_after(date: CalendarDate, days: int) -> Option<CalendarDate> {
    if MIN_JULIAN_DAY <= date.julian_day + days <= MAX_JULIAN_DAY {
        Some(CalendarDate { julian_day: (date.julian_day + days) as i32 })
    } else {
        None
    }
}

/// Relies on `time::OffsetDateTime::now_utc` and its date and time accessors:
/// the current UTC date and time, with every part in its range.
#[verifier::external_body]
pub(crate) fn current_date_time() -> (r: DateTime)
    ensures
        r.wf(),
{
    let now = time::OffsetDateTime::now_utc();
    DateTime {
        date: CalendarDate { julian_day: now.date().to_julian_day() },
        hour: now.hour(),
        minute: now.minute(),
        second: now.second(),
        nanosecond: now.nanosecond(),
    }
}

/// Relies on `time::OffsetDateTime::now_utc` and `unix_timestamp`: the current
/// number of seconds since the Unix epoch.
#[verifier::external_body]
pub(crate) fn current_unix_timestamp() -> (r: i64) {
    time::OffsetDateTime::now_utc().unix_timestamp()
}

/// Relies on `time::Date::checked_add` with `time::Duration::days(days)`: the
/// date `days` days later, or `None` past the calendar's range. `Duration::days`
/// panics where the days in seconds overflow an `i64`, which `requires` rules out.
#[verifier::external_body]
pub(crate) fn checked_add_days(date: CalendarDate, days: i64) -> (r: Option<CalendarDate>)
    requires
        date.wf(),
        -MAX_DURATION_DAYS <= days <= MAX_DURATION_DAYS,
    ensures
        r == date_after(date, days as int),
{
    let start = time::Date::from_julian_day(date.julian_day).ok()?;
    match start.checked_add(time::Duration::days(days)) {
        Some(d) => Some(CalendarDate { julian_day: d.to_julian_day() }),
        None => None,
    }
}

} // verus!
