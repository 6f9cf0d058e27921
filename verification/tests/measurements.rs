use esp_clock::measurements::{
    measurements_from_message, no_data, sensor_temperature_text, MeasurementTexts,
};

#[test]
fn message_is_read_by_position() {
    let m = measurements_from_message(Some("23.5C;45.1%")).unwrap();
    assert_eq!(m.temperature, "23\u{b0}C");
    assert_eq!(m.humidity, ";45%RH");
    assert!(m.has_data);
}

#[test]
fn message_read_as_fixed_byte_ranges() {
    let response = "21.37,40.25";
    let m = measurements_from_message(Some(response)).unwrap();
    assert_eq!(m.temperature, format!("{}\u{b0}C", &response[0..2]));
    assert_eq!(m.humidity, format!("{}%RH", &response[5..8]));
}

#[test]
fn no_message_shows_no_data() {
    let m = measurements_from_message(None).unwrap();
    assert_eq!(
        m,
        MeasurementTexts {
            temperature: "No\ndata".to_string(),
            humidity: "No\ndata".to_string(),
            has_data: false,
        }
    );
    assert_eq!(no_data(), m);
}

#[test]
fn short_or_badly_cut_messages_are_unreadable() {
    assert_eq!(measurements_from_message(Some("23.5")), None);
    assert_eq!(measurements_from_message(Some("1234567")), None);
    // A two-byte character across byte 2.
    assert_eq!(measurements_from_message(Some("2\u{e9}34567")), None);
    // A two-byte character across byte 5.
    assert_eq!(measurements_from_message(Some("2345\u{e9}78")), None);
    // A two-byte character across byte 8.
    assert_eq!(measurements_from_message(Some("1234567\u{e9}")), None);
    // Eight bytes exactly are enough.
    assert!(measurements_from_message(Some("12345678")).is_some());
    // Non-ASCII characters that stay clear of the cuts are fine.
    let m = measurements_from_message(Some("\u{e9}345678")).unwrap();
    assert_eq!(m.temperature, "\u{e9}\u{b0}C");
}

#[test]
fn sensor_temperature_is_corrected_by_three_degrees() {
    assert_eq!(sensor_temperature_text(24), "+21\u{b0}C");
    assert_eq!(sensor_temperature_text(3), "+0\u{b0}C");
    assert_eq!(sensor_temperature_text(2), "-1\u{b0}C");
    assert_eq!(sensor_temperature_text(i32::MIN + 3), format!("{}\u{b0}C", i32::MIN));
}
