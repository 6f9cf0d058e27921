//! Calendar dates and times of day derived from Unix timestamps, and the texts
//! the dashboard shows for them.

use vstd::prelude::*;
use crate::text::{
    digit_char, decimal, decimal_text, digits, month_name, month_name_str, push_digits, two_digit_text,
    two_digits, weekday_name, weekday_name_str,
};

verus! {

/// The first second the calendar supports: -9999-01-01 00:00:00 UTC.
pub const MIN_UNIX_TIMESTAMP: i64 = -377_705_116_800;

/// The last second the calendar supports: 9999-12-31 23:59:59 UTC.
pub const MAX_UNIX_TIMESTAMP: i64 = 253_402_300_799;

/// A date of the proleptic Gregorian calendar.
#[derive(Clone, Copy, Debug, PartialEq, Eq, Structural)]
pub struct CalendarDate {
    pub year: i32,
    /// 1 is January.
    pub month: u8,
    pub day: u8,
}

/// A calendar date together with its weekday and a whole-second time of day.
#[derive(Clone, Copy, Debug, PartialEq, Eq, Structural)]
pub struct DateTime {
    pub date: CalendarDate,
    /// Days after Monday: 0 is Monday, 6 is Sunday.
    pub weekday: u8,
    pub hour: u8,
    pub minute: u8,
    pub second: u8,
}

/// Why a timestamp could not be turned into a date.
#[derive(Clone, Copy, Debug, PartialEq, Eq, Structural)]
pub enum ClockError {
    /// The timestamp lies outside the years -9999 to 9999.
    TimestampOutOfRange,
}

/// Whether the calendar can represent the second `ts`.
pub open spec fn timestamp_in_range(ts: int) -> bool {
    MIN_UNIX_TIMESTAMP <= ts <= MAX_UNIX_TIMESTAMP
}

/// The Unix day of the timestamp `ts`: whole days since 1970-01-01 00:00:00
/// UTC, rounded down (negative before it).
pub open spec fn unix_day(ts: int) -> int {
    ts / 86_400
}

/// The proleptic Gregorian date (year, month, day) of Unix day `n`. Days are
/// counted from 0000-03-01 in cycles of 400 years (146097 days); within a
/// cycle, years start on March 1 so that the leap day ends the year, and the
/// months from March on follow the 153-day pattern of five months.
#[verifier::opaque]
pub open spec fn civil_from_days(n: int) -> (int, int, int) {
    let z = n + 719_468;
    let era = z / 146_097;
    let day_of_era = z - era * 146_097;
    let year_of_era = (day_of_era - day_of_era / 1_460 + day_of_era / 36_524 - day_of_era / 146_096) / 365;
    let day_of_year = day_of_era - (365 * year_of_era + year_of_era / 4 - year_of_era / 100);
    let month_from_march = (5 * day_of_year + 2) / 153;
    let day = day_of_year - (153 * month_from_march + 2) / 5 + 1;
    let month = if month_from_march < 10 { month_from_march + 3 } else { month_from_march - 9 };
    let year = era * 400 + year_of_era + if month <= 2 { 1int } else { 0int };
    (year, month, day)
}

/// The weekday of Unix day `n` as days after Monday: 1970-01-01 was a Thursday.
pub open spec fn weekday_from_days(n: int) -> int {
    (n + 3) % 7
}

/// The fields of a date-time make up a valid calendar date, weekday and time of day.
pub open spec fn date_time_valid(t: DateTime) -> bool {
    &&& -9999 <= t.date.year <= 9999
    &&& 1 <= t.date.month <= 12
    &&& 1 <= t.date.day <= 31
    &&& t.weekday < 7
    &&& t.hour < 24
    &&& t.minute < 60
    &&& t.second < 60
}

/// `t` is the UTC date-time of the Unix timestamp `ts`: its date and weekday
/// are those of the calendar day of `ts`, and its time of day is the part of
/// `ts` past midnight.
pub open spec fn date_time_of(ts: int, t: DateTime) -> bool {
    &&& (t.date.year as int, t.date.month as int, t.date.day as int) == civil_from_days(unix_day(ts))
    &&& t.weekday == weekday_from_days(unix_day(ts))
    &&& t.hour == (ts % 86_400) / 3_600
    &&& t.minute == ((ts % 86_400) % 3_600) / 60
    &&& t.second == (ts % 86_400) % 60
}

/// Instants a day apart read off the calendar fall on consecutive weekdays
/// (Sunday is followed by Monday) at the same time of day.
pub proof fn lemma_a_day_later(ts: int, t: DateTime, next: DateTime)
    requires
        date_time_of(ts, t),
        date_time_of(ts + 86_400, next),
    ensures
        next.weekday == (t.weekday + 1) % 7,
        (next.hour, next.minute, next.second) == (t.hour, t.minute, t.second),
{
    lemma_next_unix_day(ts);
}

/// A day later is the next Unix day, at the same second of the day.
proof fn lemma_next_unix_day(ts: int)
    ensures
        unix_day(ts + 86_400) == unix_day(ts) + 1,
        (ts + 86_400) % 86_400 == ts % 86_400,
{
    vstd::arithmetic::div_mod::lemma_hoist_over_denominator(ts, 1, 86_400);
    vstd::arithmetic::div_mod::lemma_mod_add_multiples_vanish(ts, 86_400);
}

/// Calls `time::OffsetDateTime::from_unix_timestamp`, which fails exactly for
/// timestamps outside the years -9999 to 9999, and reads the fields of the
/// UTC date-time it returns: the proleptic Gregorian date and the weekday of
/// the timestamp's day (its floor division by 86400 added to the Julian day
/// of 1970-01-01), and the time of day, which is the remainder of the
/// timestamp within that day.
#[verifier::external_body]
fn utc_date_time(timestamp: i64) -> (r: Option<DateTime>)
    ensures
        r is Some <==> timestamp_in_range(timestamp as int),
        r matches Some(t) ==> {
            &&& date_time_of(timestamp as int, t)
            &&& date_time_valid(t)
        },
{
    match time::OffsetDateTime::from_unix_timestamp(timestamp) {
        Ok(t) => Some(DateTime {
            date: CalendarDate { year: t.year(), month: t.month() as u8, day: t.day() },
            weekday: t.weekday().number_days_from_monday(),
            hour: t.hour(),
            minute: t.minute(),
            second: t.second(),
        }),
        Err(_) => None,
    }
}

/// The date-time at `offset_seconds` from UTC of the instant `timestamp`.
///
/// The local date-time at an offset is the UTC date-time of the timestamp
/// moved by that offset. A timestamp the calendar cannot represent is an
/// error; an instant whose local date-time leaves the calendar is not accepted.
pub fn local_date_time(timestamp: i64, offset_seconds: i32) -> (r: Result<DateTime, ClockError>)
    requires
        timestamp_in_range(timestamp as int) ==> timestamp_in_range(timestamp + offset_seconds),
    ensures
        r is Err <==> !timestamp_in_range(timestamp as int),
        r matches Ok(t) ==> date_time_of(timestamp + offset_seconds, t) && date_time_valid(t),
{
    if timestamp < MIN_UNIX_TIMESTAMP || timestamp > MAX_UNIX_TIMESTAMP {
        return Err(ClockError::TimestampOutOfRange);
    }
    let local = timestamp + offset_seconds as i64;
    match utc_date_time(local) {
        Some(t) => Ok(t),
        None => Err(ClockError::TimestampOutOfRange),
    }
}

/// A hand-set clock moves on by exactly its uptime: whenever the sum fits,
/// the timestamp shown after `uptime_seconds` is `start` plus that many seconds.
pub proof fn lemma_elapsed_adds_uptime(start: i64, uptime_seconds: u64)
    requires
        (start as u64) + uptime_seconds <= u64::MAX,
        start + uptime_seconds <= i64::MAX,
    ensures
        elapsed_timestamp_spec(start, uptime_seconds) == start + uptime_seconds,
{
    assert(((start as u64) + uptime_seconds) as u64 as i64 == start + uptime_seconds) by (bit_vector)
        requires
            (start as u64) + uptime_seconds <= u64::MAX,
            start + uptime_seconds <= i64::MAX;
}

/// The date text names the month in English between the day and the year:
/// `day-January-year` for month 1 through `day-December-year` for month 12.
pub proof fn lemma_date_text_names_the_month(d: CalendarDate)
    ensures
        d.month == 1 ==> date_text_spec(d) == decimal(d.day as int) + "-"@ + "January"@ + "-"@ + decimal(d.year as int),
        d.month == 2 ==> date_text_spec(d) == decimal(d.day as int) + "-"@ + "February"@ + "-"@ + decimal(d.year as int),
        d.month == 3 ==> date_text_spec(d) == decimal(d.day as int) + "-"@ + "March"@ + "-"@ + decimal(d.year as int),
        d.month == 4 ==> date_text_spec(d) == decimal(d.day as int) + "-"@ + "April"@ + "-"@ + decimal(d.year as int),
        d.month == 5 ==> date_text_spec(d) == decimal(d.day as int) + "-"@ + "May"@ + "-"@ + decimal(d.year as int),
        d.month == 6 ==> date_text_spec(d) == decimal(d.day as int) + "-"@ + "June"@ + "-"@ + decimal(d.year as int),
        d.month == 7 ==> date_text_spec(d) == decimal(d.day as int) + "-"@ + "July"@ + "-"@ + decimal(d.year as int),
        d.month == 8 ==> date_text_spec(d) == decimal(d.day as int) + "-"@ + "August"@ + "-"@ + decimal(d.year as int),
        d.month == 9 ==> date_text_spec(d) == decimal(d.day as int) + "-"@ + "September"@ + "-"@ + decimal(d.year as int),
        d.month == 10 ==> date_text_spec(d) == decimal(d.day as int) + "-"@ + "October"@ + "-"@ + decimal(d.year as int),
        d.month == 11 ==> date_text_spec(d) == decimal(d.day as int) + "-"@ + "November"@ + "-"@ + decimal(d.year as int),
        d.month == 12 ==> date_text_spec(d) == decimal(d.day as int) + "-"@ + "December"@ + "-"@ + decimal(d.year as int),
{
}

/// The clock text is the hour without padding, a colon, the minute as its
/// tens and units digits, a colon, and the second as its tens and units digits.
pub proof fn lemma_clock_text_digits(hour: int, minute: int, second: int)
    requires
        0 <= hour < 24,
        0 <= minute < 60,
        0 <= second < 60,
    ensures
        clock_text_spec(hour, minute, second) == (if hour < 10 {
            seq![digit_char(hour)]
        } else {
            seq![digit_char(hour / 10), digit_char(hour % 10)]
        }) + seq![
            ':',
            digit_char(minute / 10),
            digit_char(minute % 10),
            ':',
            digit_char(second / 10),
            digit_char(second % 10),
        ],
{
    reveal_strlit(":");
    reveal_strlit(".0");
    reveal_with_fuel(digits, 2);
    let h = if hour < 10 {
        seq![digit_char(hour)]
    } else {
        seq![digit_char(hour / 10), digit_char(hour % 10)]
    };
    assert(digits(hour as nat) =~= h);
    let full = time_display(hour, minute, second);
    let text = h + seq![':', digit_char(minute / 10), digit_char(minute % 10), ':', digit_char(second / 10), digit_char(second % 10)];
    assert(full =~= text + seq!['.', '0']);
    assert(full.subrange(0, full.len() - 2) =~= text);
}

/// The Unix timestamp a clock shows after `uptime_seconds` when it was started
/// at `start`, added as unsigned seconds and read back as signed.
pub open spec fn elapsed_timestamp_spec(start: i64, uptime_seconds: u64) -> i64 {
    ((start as u64) + uptime_seconds) as u64 as i64
}

/// The timestamp of a clock set by hand to `start` once `uptime_seconds` have passed.
pub fn elapsed_timestamp(start: i64, uptime_seconds: u64) -> (r: i64)
    requires
        (start as u64) + uptime_seconds <= u64::MAX,
    ensures
        r == elapsed_timestamp_spec(start, uptime_seconds),
{
    let sum: u64 = start as u64 + uptime_seconds;
    sum as i64
}

/// The text `Display` writes for a date followed by `-`, the month's name, `-`
/// and the year, as in `28-June-2022`.
pub open spec fn date_text_spec(d: CalendarDate) -> Seq<char> {
    decimal(d.day as int) + "-"@ + month_name(d.month as int) + "-"@ + decimal(d.year as int)
}

/// The text `Display` writes for a whole-second time of day: the hour without
/// padding, minutes and seconds on two digits, and a fraction of `.0`.
pub open spec fn time_display(hour: int, minute: int, second: int) -> Seq<char> {
    digits(hour as nat) + ":"@ + two_digits(minute as nat) + ":"@ + two_digits(second as nat)
        + ".0"@
}

/// The clock text: the displayed time of day without its last two characters.
pub open spec fn clock_text_spec(hour: int, minute: int, second: int) -> Seq<char> {
    let full = time_display(hour, minute, second);
    full.subrange(0, full.len() - 2)
}

/// The date text of `d`, such as `28-June-2022`.
pub fn date_text(d: CalendarDate) -> (s: String)
    requires
        1 <= d.month <= 12,
    ensures
        s@ == date_text_spec(d),
{
    let mut s = decimal_text(d.day as i64);
    s.append("-");
    s.append(month_name_str(d.month));
    s.append("-");
    let year = decimal_text(d.year as i64);
    s.append(year.as_str());
    s
}

/// The weekday text of a date-time, such as `Tuesday`.
pub fn weekday_text(t: DateTime) -> (s: String)
    requires
        t.weekday < 7,
    ensures
        s@ == weekday_name(t.weekday as int),
{
    String::from_str(weekday_name_str(t.weekday))
}

/// The clock text of a time of day, such as `19:52:00` or `9:05:03`.
pub fn clock_text(t: DateTime) -> (s: String)
    requires
        t.hour < 24,
        t.minute < 60,
        t.second < 60,
    ensures
        s@ == clock_text_spec(t.hour as int, t.minute as int, t.second as int),
{
    let mut s = String::new();
    push_digits(&mut s, t.hour as u64);
    s.append(":");
    let minute = two_digit_text(t.minute);
    s.append(minute.as_str());
    s.append(":");
    let second = two_digit_text(t.second);
    s.append(second.as_str());
    proof {
        let full = time_display(t.hour as int, t.minute as int, t.second as int);
        reveal_strlit(".0");
        assert(full =~= s@ + ".0"@);
        assert(full.subrange(0, full.len() - 2) =~= s@);
    }
    s
}

} // verus!
