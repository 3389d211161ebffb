//! Calendar time as the clock peripheral reports it, and its relation to Unix
//! timestamps. The conversion itself is chrono's (reached through `ds323x`'s
//! re-exports); the library names its result and reasons over that name.

use vstd::prelude::*;

verus! {

/// Unix timestamp of 9999-12-31T23:59:59Z, the latest instant whose calendar
/// year still fits the clock model.
pub const MAX_EPOCH: i64 = 253402300799;

/// The Unix timestamp (non-leap seconds since 1970-01-01T00:00:00Z) of the
/// given UTC calendar instant: the value chrono's `timestamp` returns for it.
pub uninterp spec fn epoch_of_civil(
    year: int,
    month: int,
    day: int,
    hour: int,
    minute: int,
    second: int,
) -> int;

/// Whether `year` is a Gregorian leap year.
pub open spec fn is_leap_year(year: int) -> bool {
    (year % 4 == 0 && year % 100 != 0) || year % 400 == 0
}

/// Number of days in `month` of `year`.
pub open spec fn days_in_month(year: int, month: int) -> int {
    if month == 2 {
        if is_leap_year(year) {
            29
        } else {
            28
        }
    } else if month == 4 || month == 6 || month == 9 || month == 11 {
        30
    } else {
        31
    }
}

/// A UTC calendar instant, field for field as the clock peripheral stores it.
#[derive(Clone, Copy, Debug, PartialEq, Eq, Structural)]
pub struct CalendarTime {
    pub year: u16,
    pub month: u8,
    pub day: u8,
    pub hour: u8,
    pub minute: u8,
    pub second: u8,
}

impl CalendarTime {
    /// The Unix timestamp of this instant.
    pub open spec fn epoch(self) -> int {
        epoch_of_civil(
            self.year as int,
            self.month as int,
            self.day as int,
            self.hour as int,
            self.minute as int,
            self.second as int,
        )
    }

    /// A real calendar instant within the range both the clock hardware and
    /// the timestamp conversion cover.
    pub open spec fn wf(self) -> bool {
        &&& 1970 <= self.year <= 9999
        &&& 1 <= self.month <= 12
        &&& 1 <= self.day <= days_in_month(self.year as int, self.month as int)
        &&& self.hour < 24
        &&& self.minute < 60
        &&& self.second < 60
    }
}

/// Whether `year` is a Gregorian leap year — the executable face of
/// `is_leap_year`.
pub fn leap_year(year: u16) -> (r: bool)
    ensures
        r == is_leap_year(year as int),
{
    (year % 4 == 0 && year % 100 != 0) || year % 400 == 0
}

/// Number of days in `month` of `year` — the executable face of
/// `days_in_month`.
pub fn month_days(year: u16, month: u8) -> (r: u8)
    requires
        1 <= month <= 12,
    ensures
        r as int == days_in_month(year as int, month as int),
{
    if month == 2 {
        if leap_year(year) {
            29
        } else {
            28
        }
    } else if month == 4 || month == 6 || month == 9 || month == 11 {
        30
    } else {
        31
    }
}

impl CalendarTime {
    /// Whether this is a real calendar instant in the supported range — the
    /// executable face of `wf`, for callers whose fields come from outside.
    pub fn is_valid(&self) -> (r: bool)
        ensures
            r == self.wf(),
    {
        if !(1970 <= self.year && self.year <= 9999) {
            return false;
        }
        if !(1 <= self.month && self.month <= 12) {
            return false;
        }
        let dim = month_days(self.year, self.month);
        1 <= self.day && self.day <= dim && self.hour < 24 && self.minute < 60 && self.second
            < 60
    }
}

/// One reading of the clock peripheral: calendar time plus die temperature in
/// quarter degrees Celsius (the sensor's resolution). Produced fresh on every
/// edge event, never cached across cycles.
#[derive(Clone, Copy, Debug, PartialEq, Eq, Structural)]
pub struct ClockReading {
    pub time: CalendarTime,
    pub temp_quarters: i16,
}

/// Relies on chrono's `NaiveDateTime::from_timestamp_opt` (reached through
/// `ds323x`'s re-exports) together with its `Datelike`/`Timelike` accessors:
/// for a timestamp between 1970 and the year 9999 it returns the valid UTC
/// calendar instant whose `timestamp` is the given value.
#[allow(deprecated)]
#[verifier::external_body]
pub fn civil_from_epoch(ts: i64) -> (t: CalendarTime)
    requires
        0 <= ts <= MAX_EPOCH,
    ensures
        t.wf(),
        epoch_of_civil(
            t.year as int,
            t.month as int,
            t.day as int,
            t.hour as int,
            t.minute as int,
            t.second as int,
        ) == ts,
{
    let dt = ds323x::NaiveDateTime::from_timestamp_opt(ts, 0).unwrap();
    CalendarTime {
        year: ds323x::Datelike::year(&dt) as u16,
        month: ds323x::Datelike::month(&dt) as u8,
        day: ds323x::Datelike::day(&dt) as u8,
        hour: ds323x::Timelike::hour(&dt) as u8,
        minute: ds323x::Timelike::minute(&dt) as u8,
        second: ds323x::Timelike::second(&dt) as u8,
    }
}

/// Relies on chrono's `NaiveDate::from_ymd_opt`, `NaiveDate::and_hms_opt` and
/// `DateTime::timestamp` (reached through `ds323x`'s re-exports): for a valid
/// calendar instant between 1970 and 9999 they return its Unix timestamp,
/// non-negative and at most `MAX_EPOCH`.
#[verifier::external_body]
pub fn epoch_from_civil(t: &CalendarTime) -> (ts: i64)
    requires
        t.wf(),
    ensures
        ts == epoch_of_civil(
            t.year as int,
            t.month as int,
            t.day as int,
            t.hour as int,
            t.minute as int,
            t.second as int,
        ),
        0 <= ts <= MAX_EPOCH,
{
    let date = ds323x::NaiveDate::from_ymd_opt(t.year as i32, t.month as u32, t.day as u32)
        .unwrap();
    let dt = date.and_hms_opt(t.hour as u32, t.minute as u32, t.second as u32).unwrap();
    dt.and_utc().timestamp()
}

} // verus!
