use esp_clock::board::{
    board_builds_for, display_setup, is_landscape, is_monochrome, madctl, required_chip,
    uses_onboard_sensor, Backlight, Board, Chip, DisplayLink, DisplaySetup, MadctlTable,
    Orientation, PanelSetup, ResetPulse, SensorBus, sensor_bus, needs_network,
};

const BOARDS: [Board; 11] = [
    Board::Ttgo,
    Board::Heltec,
    Board::Esp32s2UsbOtg,
    Board::Esp32s3UsbOtg,
    Board::KalugaIli9341,
    Board::KalugaSt7789,
    Board::Esp32Ili9341,
    Board::Esp32s2Ili9341,
    Board::Esp32s3Ili9341,
    Board::Esp32c3Ili9341,
    Board::Esp32c3RustBoardIli9341,
];

#[test]
fn madctl_codes() {
    assert_eq!(madctl(MadctlTable::FiveWay, Orientation::Portrait), Some(0));
    assert_eq!(madctl(MadctlTable::FiveWay, Orientation::LandscapeVerticallyFlipped), Some(0x20));
    assert_eq!(madctl(MadctlTable::FiveWay, Orientation::Landscape), Some(0x60));
    assert_eq!(madctl(MadctlTable::FiveWay, Orientation::PortraitFlipped), Some(0xC0));
    assert_eq!(madctl(MadctlTable::FiveWay, Orientation::LandscapeFlipped), Some(0xA0));
    assert_eq!(madctl(MadctlTable::FiveWayInvertedFlip, Orientation::LandscapeFlipped), Some(0xA8));
    assert_eq!(madctl(MadctlTable::FourWay, Orientation::LandscapeFlipped), Some(0xA0));
    assert_eq!(madctl(MadctlTable::FourWay, Orientation::LandscapeVerticallyFlipped), None);
}

#[test]
fn landscape_iff_rows_and_columns_exchange() {
    let all = [
        Orientation::Portrait,
        Orientation::PortraitFlipped,
        Orientation::Landscape,
        Orientation::LandscapeVerticallyFlipped,
        Orientation::LandscapeFlipped,
    ];
    for table in [MadctlTable::FourWay, MadctlTable::FiveWay, MadctlTable::FiveWayInvertedFlip] {
        for o in all {
            if let Some(m) = madctl(table, o) {
                assert_eq!(is_landscape(o), m & 0x20 != 0);
            }
        }
    }
}

#[test]
fn boards_and_chips() {
    assert_eq!(required_chip(Board::Ttgo), Some(Chip::Esp32));
    assert_eq!(required_chip(Board::KalugaSt7789), Some(Chip::Esp32s2));
    assert_eq!(required_chip(Board::Esp32s2Ili9341), Some(Chip::Esp32s2));
    assert_eq!(required_chip(Board::Esp32s3UsbOtg), Some(Chip::Esp32s3));
    assert_eq!(required_chip(Board::Esp32c3RustBoardIli9341), None);
    assert!(board_builds_for(Board::Heltec, Chip::Esp32));
    assert!(!board_builds_for(Board::Heltec, Chip::Esp32c3));
    assert!(!board_builds_for(Board::KalugaIli9341, Chip::Esp32s3));
    assert!(board_builds_for(Board::Esp32c3Ili9341, Chip::Esp32c3));
    assert!(board_builds_for(Board::Esp32Ili9341, Chip::Esp32s2));
}

#[test]
fn the_rust_board_setup() {
    assert_eq!(
        display_setup(Board::Esp32c3RustBoardIli9341),
        DisplaySetup {
            panel: PanelSetup::Ili9341 { table: MadctlTable::FiveWayInvertedFlip, orientation: Orientation::Landscape },
            link: DisplayLink::Spi { host: 2, sclk: 6, sdo: 7, cs: 20, dc: 21, frequency_hz: 40_000_000 },
            reset_pin: 3,
            reset_pulse: None,
            init_checked: true,
            backlight: Some(Backlight { pin: 0, high: false }),
        }
    );
    assert!(uses_onboard_sensor(Board::Esp32c3RustBoardIli9341));
    assert!(!uses_onboard_sensor(Board::Esp32c3Ili9341));
    assert_eq!(
        sensor_bus(Board::Esp32c3RustBoardIli9341),
        Some(SensorBus { controller: 0, sda: 10, scl: 8, frequency_hz: 100_000 })
    );
    assert_eq!(sensor_bus(Board::Ttgo), None);
}

#[test]
fn the_heltec_setup() {
    let s = display_setup(Board::Heltec);
    assert_eq!(s.panel, PanelSetup::Ssd1306);
    assert_eq!(s.link, DisplayLink::I2c { controller: 0, sda: 4, scl: 18, frequency_hz: 400_000 });
    assert_eq!(s.reset_pin, 19);
    assert_eq!(s.reset_pulse, Some(ResetPulse { high_ms: 1, low_ms: 10 }));
    assert!(!s.init_checked);
    assert_eq!(s.backlight, None);
    assert!(is_monochrome(Board::Heltec));
}

#[test]
fn st7789_setups() {
    assert_eq!(display_setup(Board::Ttgo).panel, PanelSetup::St7789 { width: 240, height: 320, landscape: false });
    assert_eq!(display_setup(Board::KalugaSt7789).panel, PanelSetup::St7789 { width: 320, height: 240, landscape: true });
    assert_eq!(display_setup(Board::Esp32s3UsbOtg), display_setup(Board::Esp32s2UsbOtg));
    assert_eq!(display_setup(Board::Ttgo).backlight, Some(Backlight { pin: 4, high: true }));
    assert!(!display_setup(Board::Ttgo).init_checked);
    assert!(display_setup(Board::KalugaSt7789).init_checked);
}

#[test]
fn the_usb_otg_setups() {
    let s = display_setup(Board::Esp32s2UsbOtg);
    assert_eq!(s.panel, PanelSetup::Ili9341 { table: MadctlTable::FourWay, orientation: Orientation::Landscape });
    assert_eq!(s.link, DisplayLink::Spi { host: 3, sclk: 6, sdo: 7, cs: 5, dc: 4, frequency_hz: 80_000_000 });
    assert_eq!(s.reset_pin, 8);
    assert_eq!(s.reset_pulse, None);
    assert!(s.init_checked);
    assert_eq!(s.backlight, Some(Backlight { pin: 9, high: true }));
    assert_eq!(display_setup(Board::Esp32s3UsbOtg), s);
    assert!(!is_monochrome(Board::Esp32s3UsbOtg));
}

#[test]
fn the_kaluga_ili9341_setup() {
    let s = display_setup(Board::KalugaIli9341);
    assert_eq!(s.panel, PanelSetup::Ili9341 { table: MadctlTable::FourWay, orientation: Orientation::Landscape });
    assert_eq!(s.link, DisplayLink::Spi { host: 3, sclk: 15, sdo: 9, cs: 11, dc: 13, frequency_hz: 40_000_000 });
    assert_eq!(s.link, display_setup(Board::KalugaSt7789).link);
    assert_eq!(s.reset_pin, 16);
    assert_eq!(s.reset_pulse, None);
    assert!(s.init_checked);
    assert_eq!(s.backlight, Some(Backlight { pin: 6, high: false }));
    assert_eq!(madctl(MadctlTable::FourWay, Orientation::Landscape), Some(0x60));
}

#[test]
fn every_ili9341_orientation_has_a_code() {
    for b in BOARDS {
        let s = display_setup(b);
        if let PanelSetup::Ili9341 { table, orientation } = s.panel {
            assert!(madctl(table, orientation).is_some());
        }
        assert_eq!(b == Board::Heltec, matches!(s.link, DisplayLink::I2c { .. }));
        assert_eq!(b == Board::Heltec, is_monochrome(b));
    }
}

#[test]
fn which_boards_need_the_network() {
    assert!(!needs_network(Board::Esp32c3RustBoardIli9341, false));
    assert!(needs_network(Board::Esp32c3RustBoardIli9341, true));
    assert!(needs_network(Board::Ttgo, false));
    assert!(needs_network(Board::Esp32c3Ili9341, false));
}
