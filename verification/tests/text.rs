use esp_clock::text::{
    decimal_text, digit_str, month_name_str, signed_decimal_text, two_digit_text, weekday_name_str,
};

#[test]
fn decimal_text_writes_numerals_as_display_does() {
    assert_eq!(decimal_text(0), "0");
    assert_eq!(decimal_text(7), "7");
    assert_eq!(decimal_text(2022), "2022");
    assert_eq!(decimal_text(-5), "-5");
    assert_eq!(decimal_text(i64::MAX), i64::MAX.to_string());
    assert_eq!(decimal_text(i64::MIN), i64::MIN.to_string());
}

#[test]
fn signed_decimal_text_always_has_a_sign() {
    assert_eq!(signed_decimal_text(0), "+0");
    assert_eq!(signed_decimal_text(21), "+21");
    assert_eq!(signed_decimal_text(-4), "-4");
    for n in [-1000i64, -1, 0, 1, 999] {
        assert_eq!(signed_decimal_text(n), format!("{:+}", n));
    }
}

#[test]
fn two_digit_text_pads_with_a_zero() {
    assert_eq!(two_digit_text(0), "00");
    assert_eq!(two_digit_text(5), "05");
    assert_eq!(two_digit_text(59), "59");
}

#[test]
fn digit_str_gives_each_digit() {
    for d in 0..10u64 {
        assert_eq!(digit_str(d), d.to_string());
    }
}

#[test]
fn month_and_weekday_names() {
    assert_eq!(month_name_str(1), "January");
    assert_eq!(month_name_str(6), "June");
    assert_eq!(month_name_str(12), "December");
    assert_eq!(weekday_name_str(0), "Monday");
    assert_eq!(weekday_name_str(1), "Tuesday");
    assert_eq!(weekday_name_str(6), "Sunday");
}

#[test]
fn month_and_weekday_names_match_the_time_crate() {
    for m in 1..=12u8 {
        let month = time::Month::try_from(m).unwrap();
        assert_eq!(month_name_str(m), month.to_string());
    }
    let mut day = time::Weekday::Monday;
    for w in 0..7u8 {
        assert_eq!(weekday_name_str(w), day.to_string());
        day = day.next();
    }
}
