//! The dashboard's decisions, second by second: which clock, date and weekday
//! texts to show, and when to refresh the temperature and humidity readings.
//!
//! The firmware's loop reads the current timestamp, hands it to `tick`, draws
//! what comes back, refreshes the readings when told to, and sleeps a second.

use vstd::prelude::*;
use crate::calendar::{
    clock_text, clock_text_spec, date_text, date_text_spec, date_time_of, date_time_valid,
    local_date_time, timestamp_in_range, civil_from_days, unix_day, weekday_from_days, weekday_text, CalendarDate, ClockError,
    DateTime,
};
use crate::text::weekday_name;

verus! {

/// Ticks between two refreshes of the temperature and humidity readings.
pub const MEASUREMENT_DELAY: i32 = 10;

/// Offset from UTC, in seconds, of the time the clock shows when it takes the
/// time from the network: two hours.
pub const NETWORK_TIME_OFFSET_SECONDS: i32 = 7_200;

/// The offset from UTC of the time the clock shows: two hours for network
/// time, none for a clock set by hand.
pub fn clock_offset_seconds(network_time: bool) -> (s: i32)
    ensures
        s == if network_time { NETWORK_TIME_OFFSET_SECONDS } else { 0 },
{
    if network_time {
        NETWORK_TIME_OFFSET_SECONDS
    } else {
        0
    }
}

/// The date-time, at the calendar's reading, of the Unix timestamp `ts`.
pub open spec fn date_time_at(ts: int) -> DateTime {
    let (y, m, d) = civil_from_days(unix_day(ts));
    DateTime {
        date: CalendarDate { year: y as i32, month: m as u8, day: d as u8 },
        weekday: weekday_from_days(unix_day(ts)) as u8,
        hour: ((ts % 86_400) / 3_600) as u8,
        minute: (((ts % 86_400) % 3_600) / 60) as u8,
        second: ((ts % 86_400) % 60) as u8,
    }
}

/// A date-time read off the calendar for `ts` is the date-time at `ts`.
proof fn lemma_date_time_of_is_date_time_at(ts: int, t: DateTime)
    requires
        date_time_of(ts, t),
        date_time_valid(t),
    ensures
        t == date_time_at(ts),
{
}

/// The texts of the date panel and the weekday panel.
#[derive(Debug, PartialEq, Eq)]
pub struct DateTexts {
    pub date: String,
    pub weekday: String,
}

/// What one tick asks the firmware to do.
#[derive(Debug, PartialEq, Eq)]
pub struct TickOutput {
    /// The clock text to draw, such as `19:52:07`.
    pub clock: String,
    /// The new date and weekday texts, when the date has changed.
    pub date_texts: Option<DateTexts>,
    /// Whether the temperature and humidity readings are due for a refresh.
    pub refresh_measurements: bool,
}

/// The countdown after one tick: one less, or back to the full delay once it
/// reaches zero.
pub open spec fn next_countdown(c: int) -> int {
    if c - 1 == 0 {
        MEASUREMENT_DELAY as int
    } else {
        c - 1
    }
}

/// The countdown of a freshly started dashboard after `n` ticks.
pub open spec fn countdown_after(n: nat) -> int
    decreases n,
{
    if n == 0 {
        MEASUREMENT_DELAY as int
    } else {
        next_countdown(countdown_after((n - 1) as nat))
    }
}

/// `texts` are the date and weekday texts of `now`.
pub open spec fn date_texts_of(texts: DateTexts, now: DateTime) -> bool {
    &&& texts.date@ == date_text_spec(now.date)
    &&& texts.weekday@ == weekday_name(now.weekday as int)
}

/// `out` is what a tick at `now` asks of a dashboard that showed `shown` with
/// `countdown` ticks to go: the clock text of `now`; the date texts of `now`
/// exactly when its date is not `shown`; a refresh exactly when the countdown
/// was at 1.
pub open spec fn tick_output_of(out: TickOutput, shown: CalendarDate, countdown: int, now: DateTime) -> bool {
    &&& out.clock@ == clock_text_spec(now.hour as int, now.minute as int, now.second as int)
    &&& (out.date_texts is Some <==> now.date != shown)
    &&& (out.date_texts matches Some(texts) ==> date_texts_of(texts, now))
    &&& out.refresh_measurements == (countdown == 1)
}

/// The date the dashboard shows and the ticks left until the next refresh of
/// the readings; the countdown always lies between 1 and `MEASUREMENT_DELAY`.
#[derive(Debug)]
pub struct Dashboard {
    shown_date: CalendarDate,
    countdown: i32,
}

impl Dashboard {
    /// The countdown lies between 1 and `MEASUREMENT_DELAY`.
    #[verifier::type_invariant]
    spec fn well_formed(self) -> bool {
        1 <= self.countdown <= MEASUREMENT_DELAY
    }

    /// The date the dashboard shows.
    pub closed spec fn spec_shown_date(self) -> CalendarDate {
        self.shown_date
    }

    /// The ticks left until the readings are refreshed.
    pub closed spec fn spec_countdown(self) -> int {
        self.countdown as int
    }

    /// The date the dashboard shows.
    pub fn shown_date(&self) -> (d: CalendarDate)
        ensures
            d == self.spec_shown_date(),
    {
        self.shown_date
    }

    /// The ticks left until the readings are refreshed.
    pub fn countdown(&self) -> (c: i32)
        ensures
            c == self.spec_countdown(),
            1 <= c <= MEASUREMENT_DELAY,
    {
        proof {
            use_type_invariant(self);
        }
        self.countdown
    }

    /// A dashboard showing the date of `now`, with the texts of that date and
    /// its weekday, and a full countdown.
    pub fn starting_at(now: DateTime) -> (r: (Dashboard, DateTexts))
        requires
            date_time_valid(now),
        ensures
            r.0.spec_countdown() == MEASUREMENT_DELAY,
            r.0.spec_shown_date() == now.date,
            date_texts_of(r.1, now),
    {
        let texts = DateTexts { date: date_text(now.date), weekday: weekday_text(now) };
        (Dashboard { shown_date: now.date, countdown: MEASUREMENT_DELAY }, texts)
    }

    /// A dashboard started at the instant `timestamp`, shown at
    /// `offset_seconds` from UTC, with the texts of its first date and weekday.
    pub fn start(timestamp: i64, offset_seconds: i32) -> (r: Result<(Dashboard, DateTexts), ClockError>)
        requires
            timestamp_in_range(timestamp as int) ==> timestamp_in_range(timestamp + offset_seconds),
        ensures
            r is Err <==> !timestamp_in_range(timestamp as int),
            r matches Ok((d, texts)) ==> {
                let now = date_time_at(timestamp + offset_seconds);
                &&& d.spec_countdown() == MEASUREMENT_DELAY
                &&& d.spec_shown_date() == now.date
                &&& date_texts_of(texts, now)
            },
    {
        let now = match local_date_time(timestamp, offset_seconds) {
            Ok(t) => t,
            Err(e) => return Err(e),
        };
        proof {
            lemma_date_time_of_is_date_time_at(timestamp + offset_seconds, now);
        }
        Ok(Dashboard::starting_at(now))
    }

    /// One second of the dashboard at the date-time `now`: the clock text,
    /// the date texts when the date differs from the one shown, and whether
    /// the readings are due, which they are on every `MEASUREMENT_DELAY`-th
    /// second.
    pub fn advance(&mut self, now: DateTime) -> (out: TickOutput)
        requires
            date_time_valid(now),
        ensures
            tick_output_of(out, old(self).spec_shown_date(), old(self).spec_countdown(), now),
            final(self).spec_shown_date() == now.date,
            final(self).spec_countdown() == next_countdown(old(self).spec_countdown()),
            1 <= final(self).spec_countdown() <= MEASUREMENT_DELAY,
    {
        proof {
            use_type_invariant(&*self);
        }
        let remaining = self.countdown - 1;
        let clock = clock_text(now);
        let date_texts = if now.date != self.shown_date {
            self.shown_date = now.date;
            Some(DateTexts { date: date_text(now.date), weekday: weekday_text(now) })
        } else {
            None
        };
        let refresh_measurements = remaining == 0;
        self.countdown = if refresh_measurements { MEASUREMENT_DELAY } else { remaining };
        TickOutput { clock, date_texts, refresh_measurements }
    }

    /// One second of the dashboard at the instant `timestamp`, shown at
    /// `offset_seconds` from UTC, as `advance` takes it. A tick at a timestamp
    /// the calendar cannot represent fails and changes nothing.
    pub fn tick(&mut self, timestamp: i64, offset_seconds: i32) -> (r: Result<TickOutput, ClockError>)
        requires
            timestamp_in_range(timestamp as int) ==> timestamp_in_range(timestamp + offset_seconds),
        ensures
            r is Err <==> !timestamp_in_range(timestamp as int),
            r is Err ==> *final(self) == *old(self),
            1 <= final(self).spec_countdown() <= MEASUREMENT_DELAY,
            r matches Ok(out) ==> {
                let now = date_time_at(timestamp + offset_seconds);
                &&& tick_output_of(out, old(self).spec_shown_date(), old(self).spec_countdown(), now)
                &&& final(self).spec_shown_date() == now.date
                &&& final(self).spec_countdown() == next_countdown(old(self).spec_countdown())
            },
    {
        proof {
            use_type_invariant(&*self);
        }
        let now = match local_date_time(timestamp, offset_seconds) {
            Ok(t) => t,
            Err(e) => return Err(e),
        };
        proof {
            lemma_date_time_of_is_date_time_at(timestamp + offset_seconds, now);
        }
        Ok(self.advance(now))
    }
}

/// Starting from a fresh dashboard, the countdown after `n` ticks is the full
/// delay less `n` modulo the delay, so the readings are refreshed on tick
/// `n + 1` exactly when `n + 1` is a multiple of `MEASUREMENT_DELAY`: on every
/// tenth tick and on no other.
pub proof fn lemma_refresh_every_measurement_delay(n: nat)
    ensures
        countdown_after(n) == MEASUREMENT_DELAY - (n % (MEASUREMENT_DELAY as nat)) as int,
        (countdown_after(n) == 1) <==> ((n + 1) % (MEASUREMENT_DELAY as nat) == 0),
    decreases n,
{
    if n > 0 {
        lemma_refresh_every_measurement_delay((n - 1) as nat);
    }
}

} // verus!
