use esp_clock::calendar::{
    clock_text, date_text, elapsed_timestamp, local_date_time, weekday_text, CalendarDate,
    ClockError, DateTime, MAX_UNIX_TIMESTAMP, MIN_UNIX_TIMESTAMP,
};

#[test]
fn local_date_time_reads_the_calendar() {
    let t = local_date_time(1_656_445_920, 0).unwrap();
    assert_eq!(
        t,
        DateTime {
            date: CalendarDate { year: 2022, month: 6, day: 28 },
            weekday: 1,
            hour: 19,
            minute: 52,
            second: 0,
        }
    );
}

#[test]
fn local_date_time_of_the_epoch_and_before() {
    let t = local_date_time(0, 0).unwrap();
    assert_eq!(t.date, CalendarDate { year: 1970, month: 1, day: 1 });
    assert_eq!(t.weekday, 3);
    let t = local_date_time(-1, 0).unwrap();
    assert_eq!(t.date, CalendarDate { year: 1969, month: 12, day: 31 });
    assert_eq!((t.hour, t.minute, t.second), (23, 59, 59));
    assert_eq!(t.weekday, 2);
}

#[test]
fn local_date_time_applies_the_offset() {
    // 23:00 UTC is 01:00 of the next day two hours east.
    let t = local_date_time(1_656_457_200, 7_200).unwrap();
    assert_eq!(t.date, CalendarDate { year: 2022, month: 6, day: 29 });
    assert_eq!((t.hour, t.minute, t.second), (1, 0, 0));
    assert_eq!(t.weekday, 2);
}

#[test]
fn local_date_time_range_edges() {
    let t = local_date_time(MAX_UNIX_TIMESTAMP, 0).unwrap();
    assert_eq!(t.date, CalendarDate { year: 9999, month: 12, day: 31 });
    assert_eq!(t.weekday, 4);
    assert_eq!((t.hour, t.minute, t.second), (23, 59, 59));
    let t = local_date_time(MIN_UNIX_TIMESTAMP, 0).unwrap();
    assert_eq!(t.date, CalendarDate { year: -9999, month: 1, day: 1 });
    assert_eq!(t.weekday, 0);
    assert_eq!(local_date_time(MAX_UNIX_TIMESTAMP + 1, 0), Err(ClockError::TimestampOutOfRange));
    assert_eq!(local_date_time(MIN_UNIX_TIMESTAMP - 1, 0), Err(ClockError::TimestampOutOfRange));
    assert_eq!(local_date_time(i64::MAX, 7_200), Err(ClockError::TimestampOutOfRange));
}

#[test]
fn leap_days_and_the_day_after_them() {
    // 2000-02-29 12:00:00 UTC, a Tuesday, and one day later.
    let t = local_date_time(951_825_600, 0).unwrap();
    assert_eq!(t.date, CalendarDate { year: 2000, month: 2, day: 29 });
    assert_eq!(t.weekday, 1);
    let t = local_date_time(951_825_600 + 86_400, 0).unwrap();
    assert_eq!(t.date, CalendarDate { year: 2000, month: 3, day: 1 });
    assert_eq!(t.weekday, 2);
    // 1900 was not a leap year: 1900-02-28 is followed by 1900-03-01.
    let t = local_date_time(-2_203_977_600, 0).unwrap();
    assert_eq!(t.date, CalendarDate { year: 1900, month: 2, day: 28 });
    let t = local_date_time(-2_203_977_600 + 86_400, 0).unwrap();
    assert_eq!(t.date, CalendarDate { year: 1900, month: 3, day: 1 });
}

#[test]
fn date_and_weekday_texts() {
    let t = local_date_time(1_656_445_920, 0).unwrap();
    assert_eq!(date_text(t.date), "28-June-2022");
    assert_eq!(weekday_text(t), "Tuesday");
    assert_eq!(date_text(CalendarDate { year: -44, month: 3, day: 15 }), "15-March--44");
}

#[test]
fn date_text_matches_display_of_the_time_crate() {
    let d = time::OffsetDateTime::from_unix_timestamp(1_656_445_920).unwrap().date();
    let expected = format!("{}-{}-{}", d.to_calendar_date().2, d.to_calendar_date().1, d.to_calendar_date().0);
    let t = local_date_time(1_656_445_920, 0).unwrap();
    assert_eq!(date_text(t.date), expected);
    assert_eq!(weekday_text(t), d.weekday().to_string());
}

#[test]
fn clock_text_drops_the_fraction() {
    let t = local_date_time(1_656_445_920, 0).unwrap();
    assert_eq!(clock_text(t), "19:52:00");
    let t = local_date_time(32_703, 0).unwrap();
    assert_eq!(clock_text(t), "9:05:03");
    let t = local_date_time(0, 0).unwrap();
    assert_eq!(clock_text(t), "0:00:00");
}

#[test]
fn clock_text_matches_display_of_the_time_crate() {
    for ts in [0i64, 59, 3_600, 32_703, 86_399, 1_656_445_920] {
        let time = time::OffsetDateTime::from_unix_timestamp(ts).unwrap().time().to_string();
        let expected = &time[0..time.len() - 2];
        assert_eq!(clock_text(local_date_time(ts, 0).unwrap()), expected);
    }
}

#[test]
fn elapsed_timestamp_adds_uptime() {
    assert_eq!(elapsed_timestamp(1_656_445_920, 0), 1_656_445_920);
    assert_eq!(elapsed_timestamp(1_656_445_920, 65), 1_656_445_985);
    assert_eq!(elapsed_timestamp(-10, 4), -6);
}
