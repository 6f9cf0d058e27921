use esp_clock::dashboard::{DateTexts, Dashboard, TickOutput};
use esp_clock::geometry::Size;
use esp_clock::layout::{clock_panel, date_panel, logo, measurements_panel, weekday_panel, wifi_icon};
use esp_clock::measurements::measurements_from_message;
use esp_clock::screen::{show_date, show_measurements, show_tick, welcome};

const SCREEN: Size = Size { width: 320, height: 240 };

#[test]
fn welcome_is_logo_then_disconnected_icon() {
    let mut expected = logo(SCREEN);
    expected.extend(wifi_icon(SCREEN, false));
    assert_eq!(welcome(SCREEN), expected);
    assert_eq!(welcome(SCREEN).len(), 6);
}

#[test]
fn show_date_draws_date_then_weekday() {
    let texts = DateTexts { date: "28-June-2022".to_string(), weekday: "Tuesday".to_string() };
    let mut expected = date_panel("28-June-2022".to_string());
    expected.extend(weekday_panel(SCREEN, "Tuesday".to_string()));
    assert_eq!(show_date(SCREEN, texts), expected);
}

#[test]
fn show_tick_without_a_new_date() {
    let out = TickOutput { clock: "19:52:01".to_string(), date_texts: None, refresh_measurements: false };
    assert_eq!(show_tick(SCREEN, out), clock_panel(SCREEN, "19:52:01".to_string()));
}

#[test]
fn show_tick_at_midnight() {
    let (mut d, _) = Dashboard::start(1_656_460_799, 0).unwrap();
    let out = d.tick(1_656_460_800, 0).unwrap();
    let ops = show_tick(SCREEN, out);
    let mut expected = clock_panel(SCREEN, "0:00:00".to_string());
    expected.extend(date_panel("29-June-2022".to_string()));
    expected.extend(weekday_panel(SCREEN, "Wednesday".to_string()));
    assert_eq!(ops, expected);
}

#[test]
fn show_measurements_of_a_message() {
    let m = measurements_from_message(Some("23.5C;45.1%")).unwrap();
    assert_eq!(
        show_measurements(SCREEN, m),
        measurements_panel(SCREEN, "23\u{b0}C".to_string(), ";45%RH".to_string(), true)
    );
}
