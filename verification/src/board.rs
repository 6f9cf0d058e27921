//! The boards the dashboard runs on: which chip each needs, how its display is
//! wired and set up, and the memory access control byte an ILI9341 display
//! gets for each orientation.

use vstd::prelude::*;

verus! {

/// A board with a display.
#[derive(Clone, Copy, Debug, PartialEq, Eq, Structural)]
pub enum Board {
    /// LilyGO TTGO T-Display (ST7789).
    Ttgo,
    /// Heltec WiFi Kit 32: an SSD1306 on I2C with SDA on GPIO4, SCL on
    /// GPIO18 and reset on GPIO19. A board whose display has SCL on GPIO15
    /// and reset on GPIO16 is not this setup.
    Heltec,
    /// ESP32-S2-USB-OTG with an ILI9341 display in landscape, on SPI3
    /// (clock GPIO6, data out GPIO7, chip select GPIO5, data/command GPIO4),
    /// reset on GPIO8 and the backlight on GPIO9, driven high. It takes the
    /// four orientation codes of the Kaluga's ILI9341 setup.
    Esp32s2UsbOtg,
    /// ESP32-S3-USB-OTG, set up as the ESP32-S2-USB-OTG.
    Esp32s3UsbOtg,
    /// ESP32-S2-Kaluga-1 with an ILI9341 display, on the same SPI lines as
    /// its ST7789 setup (data out on GPIO9).
    KalugaIli9341,
    /// ESP32-S2-Kaluga-1 with an ST7789 display.
    KalugaSt7789,
    /// An ESP32 board with an ILI9341 display.
    Esp32Ili9341,
    /// An ESP32-S2 board with an ILI9341 display.
    Esp32s2Ili9341,
    /// An ESP32-S3 board with an ILI9341 display.
    Esp32s3Ili9341,
    /// An ESP32-C3 board with an ILI9341 display.
    Esp32c3Ili9341,
    /// The ESP32-C3 Rust board with an ILI9341 display, reading its own sensors.
    Esp32c3RustBoardIli9341,
}

/// A chip the firmware can be built for.
#[derive(Clone, Copy, Debug, PartialEq, Eq, Structural)]
pub enum Chip {
    Esp32,
    Esp32s2,
    Esp32s3,
    Esp32c3,
}

/// The chip a board must be built for, when it names one.
pub open spec fn required_chip_spec(board: Board) -> Option<Chip> {
    match board {
        Board::Ttgo | Board::Heltec => Some(Chip::Esp32),
        Board::KalugaIli9341 | Board::KalugaSt7789 | Board::Esp32s2UsbOtg | Board::Esp32s2Ili9341 => Some(Chip::Esp32s2),
        Board::Esp32s3UsbOtg | Board::Esp32s3Ili9341 => Some(Chip::Esp32s3),
        _ => None,
    }
}

/// The chip a board must be built for, if it names one.
pub fn required_chip(board: Board) -> (c: Option<Chip>)
    ensures
        c == required_chip_spec(board),
{
    match board {
        Board::Ttgo | Board::Heltec => Some(Chip::Esp32),
        Board::KalugaIli9341 | Board::KalugaSt7789 | Board::Esp32s2UsbOtg | Board::Esp32s2Ili9341 => Some(Chip::Esp32s2),
        Board::Esp32s3UsbOtg | Board::Esp32s3Ili9341 => Some(Chip::Esp32s3),
        _ => None,
    }
}

/// Whether the firmware for `board` may be built for `chip`.
pub fn board_builds_for(board: Board, chip: Chip) -> (ok: bool)
    ensures
        ok == (required_chip_spec(board) matches Some(c) ==> c == chip),
{
    match required_chip(board) {
        Some(c) => c == chip,
        None => true,
    }
}

/// The I2C bus of a board's own temperature and humidity sensor (pins are GPIO numbers).
#[derive(Clone, Copy, Debug, PartialEq, Eq, Structural)]
pub struct SensorBus {
    pub controller: u8,
    pub sda: u8,
    pub scl: u8,
    pub frequency_hz: u32,
}

/// The sensor bus of a board that reads temperature and humidity itself: only
/// the ESP32-C3 Rust board does; the others receive readings over MQTT.
pub open spec fn sensor_bus_spec(board: Board) -> Option<SensorBus> {
    if board == Board::Esp32c3RustBoardIli9341 {
        Some(SensorBus { controller: 0, sda: 10, scl: 8, frequency_hz: 100_000 })
    } else {
        None
    }
}

/// The bus of the board's own sensor, if it has one the dashboard reads.
pub fn sensor_bus(board: Board) -> (b: Option<SensorBus>)
    ensures
        b == sensor_bus_spec(board),
{
    match board {
        Board::Esp32c3RustBoardIli9341 => Some(SensorBus { controller: 0, sda: 10, scl: 8, frequency_hz: 100_000 }),
        _ => None,
    }
}

/// Whether the board reads temperature and humidity with its own sensor
/// rather than receiving them from another board over MQTT.
pub fn uses_onboard_sensor(board: Board) -> (b: bool)
    ensures
        b == sensor_bus_spec(board) is Some,
        b == (board == Board::Esp32c3RustBoardIli9341),
{
    sensor_bus(board).is_some()
}

/// Whether the firmware joins Wi-Fi: to take the time from the network, or to
/// receive the readings of a board without its own sensor over MQTT.
pub fn needs_network(board: Board, network_time: bool) -> (b: bool)
    ensures
        b == (network_time || sensor_bus_spec(board) is None),
{
    network_time || !uses_onboard_sensor(board)
}

// ----- orientation of ILI9341 displays -----

/// An orientation of an ILI9341 display.
#[derive(Clone, Copy, Debug, PartialEq, Eq, Structural)]
pub enum Orientation {
    Portrait,
    PortraitFlipped,
    Landscape,
    LandscapeVerticallyFlipped,
    LandscapeFlipped,
}

/// The set of orientations a board's ILI9341 setup offers, with their codes.
#[derive(Clone, Copy, Debug, PartialEq, Eq, Structural)]
pub enum MadctlTable {
    /// Portrait, flipped portrait, landscape and flipped landscape.
    FourWay,
    /// The four of `FourWay` and vertically flipped landscape.
    FiveWay,
    /// As `FiveWay`, with colors inverted in flipped landscape, which the
    /// display simulator needs.
    FiveWayInvertedFlip,
}

/// Memory access control bits: row address order, column address order, row
/// and column exchange, and BGR order (the color inversion used here).
pub const MADCTL_MY: u8 = 0x80;
pub const MADCTL_MX: u8 = 0x40;
pub const MADCTL_MV: u8 = 0x20;
pub const MADCTL_BGR: u8 = 0x08;

/// The memory access control byte of an orientation in a table, if the table
/// offers the orientation.
pub open spec fn madctl_spec(table: MadctlTable, o: Orientation) -> Option<u8> {
    match o {
        Orientation::Portrait => Some(0u8),
        Orientation::LandscapeVerticallyFlipped => if table == MadctlTable::FourWay { None } else { Some(0x20u8) },
        Orientation::Landscape => Some(0x60u8),
        Orientation::PortraitFlipped => Some(0xC0u8),
        Orientation::LandscapeFlipped => if table == MadctlTable::FiveWayInvertedFlip { Some(0xA8u8) } else { Some(0xA0u8) },
    }
}

/// Whether an orientation is a landscape one.
pub open spec fn is_landscape_spec(o: Orientation) -> bool {
    o == Orientation::Landscape || o == Orientation::LandscapeVerticallyFlipped || o == Orientation::LandscapeFlipped
}

/// The memory access control byte of orientation `o` in `table`, or `None`
/// when the table does not offer it.
pub fn madctl(table: MadctlTable, o: Orientation) -> (m: Option<u8>)
    ensures
        m == madctl_spec(table, o),
{
    proof {
        assert(MADCTL_MV | MADCTL_MX == 0x60u8) by (bit_vector);
        assert(MADCTL_MY | MADCTL_MX == 0xC0u8) by (bit_vector);
        assert(MADCTL_MY | MADCTL_MV == 0xA0u8) by (bit_vector);
        assert(MADCTL_MY | MADCTL_MV | MADCTL_BGR == 0xA8u8) by (bit_vector);
    }
    match o {
        Orientation::Portrait => Some(0),
        Orientation::LandscapeVerticallyFlipped => match table {
            MadctlTable::FourWay => None,
            _ => Some(MADCTL_MV),
        },
        Orientation::Landscape => Some(MADCTL_MV | MADCTL_MX),
        Orientation::PortraitFlipped => Some(MADCTL_MY | MADCTL_MX),
        Orientation::LandscapeFlipped => match table {
            MadctlTable::FiveWayInvertedFlip => Some(MADCTL_MY | MADCTL_MV | MADCTL_BGR),
            _ => Some(MADCTL_MY | MADCTL_MV),
        },
    }
}

/// Whether orientation `o` is a landscape one.
pub fn is_landscape(o: Orientation) -> (b: bool)
    ensures
        b == is_landscape_spec(o),
{
    match o {
        Orientation::Landscape | Orientation::LandscapeVerticallyFlipped | Orientation::LandscapeFlipped => true,
        _ => false,
    }
}

/// An orientation is a landscape one exactly when its code exchanges rows and
/// columns (has the `MADCTL_MV` bit), in every table that offers it; and the
/// tables differ only in whether they offer vertically flipped landscape and
/// in the color-inversion bit of flipped landscape.
pub proof fn lemma_landscape_iff_row_column_exchange(table: MadctlTable, o: Orientation)
    ensures
        madctl_spec(table, o) matches Some(m) ==> (is_landscape_spec(o) <==> (m & MADCTL_MV) != 0),
        table != MadctlTable::FourWay ==> madctl_spec(table, o) is Some,
        o != Orientation::LandscapeVerticallyFlipped ==> madctl_spec(table, o) is Some,
        madctl_spec(MadctlTable::FiveWayInvertedFlip, o)->0 == if o == Orientation::LandscapeFlipped {
            (madctl_spec(MadctlTable::FiveWay, o)->0 | MADCTL_BGR)
        } else {
            madctl_spec(MadctlTable::FiveWay, o)->0
        },
{
    assert(0u8 & 0x20u8 == 0) by (bit_vector);
    assert(0x20u8 & 0x20u8 != 0) by (bit_vector);
    assert(0x60u8 & 0x20u8 != 0) by (bit_vector);
    assert(0xC0u8 & 0x20u8 == 0) by (bit_vector);
    assert(0xA0u8 & 0x20u8 != 0) by (bit_vector);
    assert(0xA8u8 & 0x20u8 != 0) by (bit_vector);
    assert(0xA0u8 | 0x08u8 == 0xA8u8) by (bit_vector);
}

// ----- display wiring and setup -----

/// The display controller and how it is driven.
#[derive(Clone, Copy, Debug, PartialEq, Eq, Structural)]
pub enum PanelSetup {
    /// An ST7789 of `width` by `height` pixels, in landscape or portrait.
    St7789 { width: u16, height: u16, landscape: bool },
    /// A 240 by 320 ILI9341 with the orientation codes of `table`.
    Ili9341 { table: MadctlTable, orientation: Orientation },
    /// A 128 by 64 SSD1306, unrotated, drawn through a frame buffer.
    Ssd1306,
}

/// How the display is connected to the chip (pins are GPIO numbers).
#[derive(Clone, Copy, Debug, PartialEq, Eq, Structural)]
pub enum DisplayLink {
    /// SPI host `host`, no input line, with a data/command pin.
    Spi { host: u8, sclk: u8, sdo: u8, cs: u8, dc: u8, frequency_hz: u32 },
    /// I2C controller `controller`.
    I2c { controller: u8, sda: u8, scl: u8, frequency_hz: u32 },
}

/// The backlight pin and the level it is driven to.
#[derive(Clone, Copy, Debug, PartialEq, Eq, Structural)]
pub struct Backlight {
    pub pin: u8,
    pub high: bool,
}

/// A reset pulse on the reset pin: driven high, held for `high_ms`
/// milliseconds, driven low, held for `low_ms` milliseconds, then driven high
/// again, where it stays.
#[derive(Clone, Copy, Debug, PartialEq, Eq, Structural)]
pub struct ResetPulse {
    pub high_ms: u32,
    pub low_ms: u32,
}

/// Everything the firmware sets up to bring a board's display up.
#[derive(Clone, Copy, Debug, PartialEq, Eq, Structural)]
pub struct DisplaySetup {
    pub panel: PanelSetup,
    pub link: DisplayLink,
    pub reset_pin: u8,
    /// The pulse driven on the reset pin before the controller is created,
    /// where the setup drives one itself.
    pub reset_pulse: Option<ResetPulse>,
    /// Whether a failure of the controller's initialisation or of its
    /// orientation command stops the bring-up with an error; where it does
    /// not, the failure is ignored and the display is used as it is.
    pub init_checked: bool,
    pub backlight: Option<Backlight>,
}

/// An SPI link.
pub open spec fn spi(host: u8, sclk: u8, sdo: u8, cs: u8, dc: u8, frequency_hz: u32) -> DisplayLink {
    DisplayLink::Spi { host, sclk, sdo, cs, dc, frequency_hz }
}

/// A board's display setup.
pub open spec fn display_setup_spec(board: Board) -> DisplaySetup {
    match board {
        Board::Ttgo => DisplaySetup {
            panel: PanelSetup::St7789 { width: 240, height: 320, landscape: false },
            link: spi(2, 18, 19, 5, 16, 26_000_000),
            reset_pin: 23,
            reset_pulse: None,
            init_checked: false,
            backlight: Some(Backlight { pin: 4, high: true }),
        },
        Board::Heltec => DisplaySetup {
            panel: PanelSetup::Ssd1306,
            link: DisplayLink::I2c { controller: 0, sda: 4, scl: 18, frequency_hz: 400_000 },
            reset_pin: 19,
            reset_pulse: Some(ResetPulse { high_ms: 1, low_ms: 10 }),
            init_checked: false,
            backlight: None,
        },
        Board::Esp32s2UsbOtg | Board::Esp32s3UsbOtg => DisplaySetup {
            panel: PanelSetup::Ili9341 { table: MadctlTable::FourWay, orientation: Orientation::Landscape },
            link: spi(3, 6, 7, 5, 4, 80_000_000),
            reset_pin: 8,
            reset_pulse: None,
            init_checked: true,
            backlight: Some(Backlight { pin: 9, high: true }),
        },
        Board::KalugaIli9341 => DisplaySetup {
            panel: PanelSetup::Ili9341 { table: MadctlTable::FourWay, orientation: Orientation::Landscape },
            link: spi(3, 15, 9, 11, 13, 40_000_000),
            reset_pin: 16,
            reset_pulse: None,
            init_checked: true,
            backlight: Some(Backlight { pin: 6, high: false }),
        },
        Board::KalugaSt7789 => DisplaySetup {
            panel: PanelSetup::St7789 { width: 320, height: 240, landscape: true },
            link: spi(3, 15, 9, 11, 13, 40_000_000),
            reset_pin: 16,
            reset_pulse: None,
            init_checked: true,
            backlight: Some(Backlight { pin: 6, high: true }),
        },
        Board::Esp32Ili9341 => DisplaySetup {
            panel: PanelSetup::Ili9341 { table: MadctlTable::FourWay, orientation: Orientation::Landscape },
            link: spi(2, 6, 7, 2, 3, 40_000_000),
            reset_pin: 10,
            reset_pulse: None,
            init_checked: true,
            backlight: Some(Backlight { pin: 4, high: false }),
        },
        Board::Esp32s2Ili9341 => DisplaySetup {
            panel: PanelSetup::Ili9341 { table: MadctlTable::FiveWay, orientation: Orientation::Landscape },
            link: spi(2, 8, 21, 9, 1, 40_000_000),
            reset_pin: 0,
            reset_pulse: None,
            init_checked: true,
            backlight: Some(Backlight { pin: 20, high: false }),
        },
        Board::Esp32s3Ili9341 => DisplaySetup {
            panel: PanelSetup::Ili9341 { table: MadctlTable::FiveWay, orientation: Orientation::Landscape },
            link: spi(2, 5, 6, 0, 35, 40_000_000),
            reset_pin: 4,
            reset_pulse: None,
            init_checked: true,
            backlight: Some(Backlight { pin: 7, high: false }),
        },
        Board::Esp32c3Ili9341 | Board::Esp32c3RustBoardIli9341 => DisplaySetup {
            panel: PanelSetup::Ili9341 { table: MadctlTable::FiveWayInvertedFlip, orientation: Orientation::Landscape },
            link: spi(2, 6, 7, 20, 21, 40_000_000),
            reset_pin: 3,
            reset_pulse: None,
            init_checked: true,
            backlight: Some(Backlight { pin: 0, high: false }),
        },
    }
}

/// How `board`'s display is wired and set up.
pub fn display_setup(board: Board) -> (s: DisplaySetup)
    ensures
        s == display_setup_spec(board),
{
    match board {
        Board::Ttgo => DisplaySetup {
            panel: PanelSetup::St7789 { width: 240, height: 320, landscape: false },
            link: DisplayLink::Spi { host: 2, sclk: 18, sdo: 19, cs: 5, dc: 16, frequency_hz: 26_000_000 },
            reset_pin: 23,
            reset_pulse: None,
            init_checked: false,
            backlight: Some(Backlight { pin: 4, high: true }),
        },
        Board::Heltec => DisplaySetup {
            panel: PanelSetup::Ssd1306,
            link: DisplayLink::I2c { controller: 0, sda: 4, scl: 18, frequency_hz: 400_000 },
            reset_pin: 19,
            reset_pulse: Some(ResetPulse { high_ms: 1, low_ms: 10 }),
            init_checked: false,
            backlight: None,
        },
        Board::Esp32s2UsbOtg | Board::Esp32s3UsbOtg => DisplaySetup {
            panel: PanelSetup::Ili9341 { table: MadctlTable::FourWay, orientation: Orientation::Landscape },
            link: DisplayLink::Spi { host: 3, sclk: 6, sdo: 7, cs: 5, dc: 4, frequency_hz: 80_000_000 },
            reset_pin: 8,
            reset_pulse: None,
            init_checked: true,
            backlight: Some(Backlight { pin: 9, high: true }),
        },
        Board::KalugaIli9341 => DisplaySetup {
            panel: PanelSetup::Ili9341 { table: MadctlTable::FourWay, orientation: Orientation::Landscape },
            link: DisplayLink::Spi { host: 3, sclk: 15, sdo: 9, cs: 11, dc: 13, frequency_hz: 40_000_000 },
            reset_pin: 16,
            reset_pulse: None,
            init_checked: true,
            backlight: Some(Backlight { pin: 6, high: false }),
        },
        Board::KalugaSt7789 => DisplaySetup {
            panel: PanelSetup::St7789 { width: 320, height: 240, landscape: true },
            link: DisplayLink::Spi { host: 3, sclk: 15, sdo: 9, cs: 11, dc: 13, frequency_hz: 40_000_000 },
            reset_pin: 16,
            reset_pulse: None,
            init_checked: true,
            backlight: Some(Backlight { pin: 6, high: true }),
        },
        Board::Esp32Ili9341 => DisplaySetup {
            panel: PanelSetup::Ili9341 { table: MadctlTable::FourWay, orientation: Orientation::Landscape },
            link: DisplayLink::Spi { host: 2, sclk: 6, sdo: 7, cs: 2, dc: 3, frequency_hz: 40_000_000 },
            reset_pin: 10,
            reset_pulse: None,
            init_checked: true,
            backlight: Some(Backlight { pin: 4, high: false }),
        },
        Board::Esp32s2Ili9341 => DisplaySetup {
            panel: PanelSetup::Ili9341 { table: MadctlTable::FiveWay, orientation: Orientation::Landscape },
            link: DisplayLink::Spi { host: 2, sclk: 8, sdo: 21, cs: 9, dc: 1, frequency_hz: 40_000_000 },
            reset_pin: 0,
            reset_pulse: None,
            init_checked: true,
            backlight: Some(Backlight { pin: 20, high: false }),
        },
        Board::Esp32s3Ili9341 => DisplaySetup {
            panel: PanelSetup::Ili9341 { table: MadctlTable::FiveWay, orientation: Orientation::Landscape },
            link: DisplayLink::Spi { host: 2, sclk: 5, sdo: 6, cs: 0, dc: 35, frequency_hz: 40_000_000 },
            reset_pin: 4,
            reset_pulse: None,
            init_checked: true,
            backlight: Some(Backlight { pin: 7, high: false }),
        },
        Board::Esp32c3Ili9341 | Board::Esp32c3RustBoardIli9341 => DisplaySetup {
            panel: PanelSetup::Ili9341 { table: MadctlTable::FiveWayInvertedFlip, orientation: Orientation::Landscape },
            link: DisplayLink::Spi { host: 2, sclk: 6, sdo: 7, cs: 20, dc: 21, frequency_hz: 40_000_000 },
            reset_pin: 3,
            reset_pulse: None,
            init_checked: true,
            backlight: Some(Backlight { pin: 0, high: false }),
        },
    }
}

/// Whether a board's display is monochrome (drawn in on and off pixels)
/// rather than in 16-bit color.
pub fn is_monochrome(board: Board) -> (b: bool)
    ensures
        b == (display_setup_spec(board).panel == PanelSetup::Ssd1306),
{
    match display_setup(board).panel {
        PanelSetup::Ssd1306 => true,
        _ => false,
    }
}

/// The pins of a display setup: the link's lines, the reset pin and the
/// backlight pin, if any.
pub open spec fn setup_pins(s: DisplaySetup) -> Seq<int> {
    let link = match s.link {
        DisplayLink::Spi { sclk, sdo, cs, dc, .. } => seq![sclk as int, sdo as int, cs as int, dc as int],
        DisplayLink::I2c { sda, scl, .. } => seq![sda as int, scl as int],
    };
    let backlight = match s.backlight {
        Some(b) => seq![b.pin as int],
        None => Seq::empty(),
    };
    link + seq![s.reset_pin as int] + backlight
}

/// Boards with the same display wiring share one setup: the ESP32-C3 board
/// with an ILI9341 and the ESP32-C3 Rust board, the ESP32-S2 and ESP32-S3
/// USB-OTG boards, and the Kaluga's two displays, which differ only in the
/// controller, whether its start is checked, and the backlight level. On
/// every board, no pin serves two of the display's lines.
pub proof fn lemma_shared_display_wiring(board: Board)
    ensures
        display_setup_spec(Board::Esp32c3Ili9341) == display_setup_spec(Board::Esp32c3RustBoardIli9341),
        display_setup_spec(Board::Esp32s2UsbOtg) == display_setup_spec(Board::Esp32s3UsbOtg),
        display_setup_spec(Board::KalugaIli9341).link == display_setup_spec(Board::KalugaSt7789).link,
        display_setup_spec(Board::KalugaIli9341).reset_pin == display_setup_spec(Board::KalugaSt7789).reset_pin,
        display_setup_spec(Board::KalugaIli9341).backlight->0.pin
            == display_setup_spec(Board::KalugaSt7789).backlight->0.pin,
        ({
            let pins = setup_pins(display_setup_spec(board));
            forall|i: int, j: int| 0 <= i < j < pins.len() ==> pins[i] != pins[j]
        }),
{
    let pins = setup_pins(display_setup_spec(board));
    assert forall|i: int, j: int| 0 <= i < j < pins.len() implies pins[i] != pins[j] by {
        match board {
            Board::Ttgo => assert(pins =~= seq![18int, 19, 5, 16, 23, 4]),
            Board::Heltec => assert(pins =~= seq![4int, 18, 19]),
            Board::Esp32s2UsbOtg | Board::Esp32s3UsbOtg => assert(pins =~= seq![6int, 7, 5, 4, 8, 9]),
            Board::KalugaIli9341 | Board::KalugaSt7789 => assert(pins =~= seq![15int, 9, 11, 13, 16, 6]),
            Board::Esp32Ili9341 => assert(pins =~= seq![6int, 7, 2, 3, 10, 4]),
            Board::Esp32s2Ili9341 => assert(pins =~= seq![8int, 21, 9, 1, 0, 20]),
            Board::Esp32s3Ili9341 => assert(pins =~= seq![5int, 6, 0, 35, 4, 7]),
            Board::Esp32c3Ili9341 | Board::Esp32c3RustBoardIli9341 => assert(pins =~= seq![6int, 7, 20, 21, 3, 0]),
        }
    }
}

/// A display's wiring in the order its bring-up takes it: for SPI, the
/// backlight pin, the data/command pin, the reset pin, the SPI host, the
/// clock, data-out and chip-select pins; for I2C, the reset pin, the
/// controller, and the data and clock pins.
pub open spec fn wiring_in_call_order(s: DisplaySetup) -> Seq<int> {
    match s.link {
        DisplayLink::Spi { host, sclk, sdo, cs, dc, .. } => seq![
            s.backlight->0.pin as int, dc as int, s.reset_pin as int, host as int, sclk as int,
            sdo as int, cs as int,
        ],
        DisplayLink::I2c { controller, sda, scl, .. } => seq![
            s.reset_pin as int, controller as int, sda as int, scl as int,
        ],
    }
}

/// Each board's display is wired to the pins its bring-up is given, in the
/// order backlight, data/command, reset, SPI host, clock, data out, chip
/// select (reset, I2C controller, data, clock for the Heltec).
pub proof fn lemma_display_wiring(board: Board)
    ensures
        wiring_in_call_order(display_setup_spec(board)) == match board {
            Board::Ttgo => seq![4int, 16, 23, 2, 18, 19, 5],
            Board::Heltec => seq![19int, 0, 4, 18],
            Board::Esp32s2UsbOtg | Board::Esp32s3UsbOtg => seq![9int, 4, 8, 3, 6, 7, 5],
            Board::KalugaIli9341 | Board::KalugaSt7789 => seq![6int, 13, 16, 3, 15, 9, 11],
            Board::Esp32Ili9341 => seq![4int, 3, 10, 2, 6, 7, 2],
            Board::Esp32s2Ili9341 => seq![20int, 1, 0, 2, 8, 21, 9],
            Board::Esp32s3Ili9341 => seq![7int, 35, 4, 2, 5, 6, 0],
            Board::Esp32c3Ili9341 | Board::Esp32c3RustBoardIli9341 => seq![0int, 21, 3, 2, 6, 7, 20],
        },
{
    assert(wiring_in_call_order(display_setup_spec(board)) =~= match board {
        Board::Ttgo => seq![4int, 16, 23, 2, 18, 19, 5],
        Board::Heltec => seq![19int, 0, 4, 18],
        Board::Esp32s2UsbOtg | Board::Esp32s3UsbOtg => seq![9int, 4, 8, 3, 6, 7, 5],
        Board::KalugaIli9341 | Board::KalugaSt7789 => seq![6int, 13, 16, 3, 15, 9, 11],
        Board::Esp32Ili9341 => seq![4int, 3, 10, 2, 6, 7, 2],
        Board::Esp32s2Ili9341 => seq![20int, 1, 0, 2, 8, 21, 9],
        Board::Esp32s3Ili9341 => seq![7int, 35, 4, 2, 5, 6, 0],
        Board::Esp32c3Ili9341 | Board::Esp32c3RustBoardIli9341 => seq![0int, 21, 3, 2, 6, 7, 20],
    });
}

/// Every orientation a board sets up on an ILI9341 is one its table offers,
/// and every board's display is on SPI with a backlight, except the Heltec's,
/// which is on I2C, has none, and has its reset pulsed by hand: high for a
/// millisecond, low for ten, then high. An ILI9341 setup always stops on a
/// failed initialisation, and so does the Kaluga's ST7789; the other ST7789
/// setups and the SSD1306 setup carry on.
pub proof fn lemma_display_setups_consistent(board: Board)
    ensures
        display_setup_spec(board).panel matches PanelSetup::Ili9341 { table, orientation }
            ==> madctl_spec(table, orientation) is Some,
        (board == Board::Heltec) <==> (display_setup_spec(board).link is I2c),
        (board == Board::Heltec) <==> display_setup_spec(board).backlight is None,
        (board == Board::Heltec) <==> display_setup_spec(board).reset_pulse is Some,
        display_setup_spec(board).reset_pulse matches Some(pulse)
            ==> pulse == (ResetPulse { high_ms: 1, low_ms: 10 }),
        display_setup_spec(board).panel is Ili9341 ==> display_setup_spec(board).init_checked,
        display_setup_spec(board).init_checked <==> (display_setup_spec(board).panel is Ili9341
            || board == Board::KalugaSt7789),
{
}

} // verus!
