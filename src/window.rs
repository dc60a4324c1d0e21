use vstd::prelude::*;
use crate::text::{four_digits, two_digits};
use chrono::{Datelike, Timelike};

verus! {

/// A local calendar date and wall-clock time, to the second.
#[derive(Debug, Clone, Copy, PartialEq, Eq)]
pub struct LocalDateTime {
    pub year: i32,
    pub month: u32,
    pub day: u32,
    pub hour: u32,
    pub minute: u32,
    pub second: u32,
}

/// The query window sent with usage requests, as `YYYY-MM-DD HH:MM:SS` text.
#[derive(Debug, Clone, PartialEq, Eq)]
pub struct TimeWindow {
    pub start: String,
    pub end: String,
}

pub open spec fn is_leap_year(y: int) -> bool {
    (y % 4 == 0 && y % 100 != 0) || y % 400 == 0
}

pub open spec fn days_in_month(y: int, m: int) -> int {
    if m == 2 {
        if is_leap_year(y) { 29 } else { 28 }
    } else if m == 4 || m == 6 || m == 9 || m == 11 {
        30
    } else {
        31
    }
}

pub open spec fn is_calendar_date(y: int, m: int, d: int) -> bool {
    1 <= m <= 12 && 1 <= d <= days_in_month(y, m)
}

/// The calendar day before `(y, m, d)`.
pub open spec fn day_before(y: int, m: int, d: int) -> (int, int, int) {
    if d > 1 {
        (y, m, d - 1)
    } else if m > 1 {
        (y, m - 1, days_in_month(y, m - 1))
    } else {
        (y - 1, 12, 31)
    }
}

impl LocalDateTime {
    /// A real date and time whose year has four digits.
    pub open spec fn wf(&self) -> bool {
        &&& 1 <= self.year <= 9999
        &&& is_calendar_date(self.year as int, self.month as int, self.day as int)
        &&& self.hour < 24
        &&& self.minute < 60
        &&& self.second < 60
    }
}

/// `YYYY-MM-DD HH:MM:SS` for the given fields.
pub open spec fn datetime_text(y: int, mo: int, d: int, h: int, mi: int, s: int) -> Seq<char> {
    four_digits(y) + seq!['-'] + two_digits(mo) + seq!['-'] + two_digits(d) + seq![' ']
        + two_digits(h) + seq![':'] + two_digits(mi) + seq![':'] + two_digits(s)
}

/// `HH:MM` for the given hour and minute.
pub open spec fn clock_text(h: int, mi: int) -> Seq<char> {
    two_digits(h) + seq![':'] + two_digits(mi)
}

/// Start of the window for `now`: the day before, at the current hour, on the hour.
pub open spec fn window_start_text(now: LocalDateTime) -> Seq<char> {
    let (y, m, d) = day_before(now.year as int, now.month as int, now.day as int);
    datetime_text(y, m, d, now.hour as int, 0, 0)
}

/// End of the window for `now`: today, at the last second of the current hour.
pub open spec fn window_end_text(now: LocalDateTime) -> Seq<char> {
    datetime_text(now.year as int, now.month as int, now.day as int, now.hour as int, 59, 59)
}

/// Relies on chrono's `Local::now` with the `Datelike` and `Timelike`
/// accessors: a valid calendar date, hour below 24, minute and second below 60.
#[verifier::external_body]
pub fn local_now() -> (r: LocalDateTime)
    ensures
        is_calendar_date(r.year as int, r.month as int, r.day as int),
        r.hour < 24,
        r.minute < 60,
        r.second < 60,
{
    let now = chrono::Local::now();
    LocalDateTime {
        year: now.year(),
        month: now.month(),
        day: now.day(),
        hour: now.hour(),
        minute: now.minute(),
        second: now.second(),
    }
}

/// Relies on chrono's `NaiveDate::pred_opt`: the calendar day before a date.
#[verifier::external_body]
fn previous_date(year: i32, month: u32, day: u32) -> (r: (i32, u32, u32))
    requires
        1 <= year <= 9999,
        is_calendar_date(year as int, month as int, day as int),
    ensures
        (r.0 as int, r.1 as int, r.2 as int) == day_before(year as int, month as int, day as int),
{
    let d = chrono::NaiveDate::from_ymd_opt(year, month, day).unwrap().pred_opt().unwrap();
    (d.year(), d.month(), d.day())
}

/// Relies on chrono's `NaiveDateTime::format` with `%Y-%m-%d %H:%M:%S`:
/// zero-padded fields, four digits for a year in 0..=9999.
#[verifier::external_body]
fn format_datetime(year: i32, month: u32, day: u32, hour: u32, minute: u32, second: u32) -> (r: String)
    requires
        0 <= year <= 9999,
        is_calendar_date(year as int, month as int, day as int),
        hour < 24,
        minute < 60,
        second < 60,
    ensures
        r@ == datetime_text(year as int, month as int, day as int, hour as int, minute as int, second as int),
{
    let d = chrono::NaiveDate::from_ymd_opt(year, month, day).unwrap();
    d.and_hms_opt(hour, minute, second).unwrap().format("%Y-%m-%d %H:%M:%S").to_string()
}

/// Relies on chrono's `NaiveTime::format` with `%H:%M`: two zero-padded fields.
#[verifier::external_body]
pub fn format_clock(hour: u32, minute: u32) -> (r: String)
    requires
        hour < 24,
        minute < 60,
    ensures
        r@ == clock_text(hour as int, minute as int),
{
    chrono::NaiveTime::from_hms_opt(hour, minute, 0).unwrap().format("%H:%M").to_string()
}

/// The query window for the moment `now`: from yesterday at the current hour
/// (`HH:00:00`) to today at the end of the current hour (`HH:59:59`).
pub fn time_window_at(now: &LocalDateTime) -> (w: TimeWindow)
    requires
        now.wf(),
    ensures
        w.start@ == window_start_text(*now),
        w.end@ == window_end_text(*now),
{
    let (y, m, d) = previous_date(now.year, now.month, now.day);
    let start = format_datetime(y, m, d, now.hour, 0, 0);
    let end = format_datetime(now.year, now.month, now.day, now.hour, 59, 59);
    TimeWindow { start, end }
}

/// The query window for a clock reading, or `None` when its year is outside
/// 1..=9999.
pub fn time_window_for(now: &LocalDateTime) -> (r: Option<TimeWindow>)
    requires
        is_calendar_date(now.year as int, now.month as int, now.day as int),
        now.hour < 24,
        now.minute < 60,
        now.second < 60,
    ensures
        (r is Some) == (1 <= now.year <= 9999),
        r matches Some(w) ==> w.start@ == window_start_text(*now) && w.end@ == window_end_text(*now),
{
    if 1 <= now.year && now.year <= 9999 {
        Some(time_window_at(now))
    } else {
        None
    }
}

/// The query window for the current local time, or `None` when the clock
/// reads a year outside 1..=9999.
pub fn get_time_window() -> (r: Option<TimeWindow>)
    ensures
        r matches Some(w) ==> exists|now: LocalDateTime|
            now.wf() && w.start@ == window_start_text(now) && w.end@ == window_end_text(now),
{
    let now = local_now();
    time_window_for(&now)
}

} // verus!
