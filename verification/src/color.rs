//! The eight colors of the ZX Spectrum palette the dashboard draws with, and
//! their conversion to the colors of color and monochrome displays.

use vstd::prelude::*;

verus! {

/// A color of the ZX Spectrum palette.
#[derive(Clone, Copy, Debug, PartialEq, Eq, Structural)]
pub enum ZxColor {
    Black,
    Blue,
    Red,
    Purple,
    Green,
    Cyan,
    Yellow,
    White,
}

/// The brightness of a ZX Spectrum color.
#[derive(Clone, Copy, Debug, PartialEq, Eq, Structural)]
pub enum ZxBrightness {
    Normal,
    Bright,
}

/// A color of a 16-bit display: 5 bits of red, 6 of green, 5 of blue.
#[derive(Clone, Copy, Debug, PartialEq, Eq, Structural)]
pub struct Rgb565 {
    pub r: u8,
    pub g: u8,
    pub b: u8,
}

/// A pixel of a monochrome display.
#[derive(Clone, Copy, Debug, PartialEq, Eq, Structural)]
pub enum BinaryColor {
    Off,
    On,
}

/// The largest red and blue channel value of an `Rgb565` color.
pub const RGB565_MAX_RB: u8 = 31;

/// The largest green channel value of an `Rgb565` color.
pub const RGB565_MAX_G: u8 = 63;

/// The 16-bit color of a palette color: each of red, green and blue is either
/// off or at its full value. Brightness plays no part.
pub open spec fn color_conv_spec(color: ZxColor) -> Rgb565 {
    match color {
        ZxColor::Black => Rgb565 { r: 0, g: 0, b: 0 },
        ZxColor::Blue => Rgb565 { r: 0, g: 0, b: RGB565_MAX_RB },
        ZxColor::Red => Rgb565 { r: RGB565_MAX_RB, g: 0, b: 0 },
        ZxColor::Purple => Rgb565 { r: RGB565_MAX_RB, g: 0, b: RGB565_MAX_RB },
        ZxColor::Green => Rgb565 { r: 0, g: RGB565_MAX_G, b: 0 },
        ZxColor::Cyan => Rgb565 { r: 0, g: RGB565_MAX_G, b: RGB565_MAX_RB },
        ZxColor::Yellow => Rgb565 { r: RGB565_MAX_RB, g: RGB565_MAX_G, b: 0 },
        ZxColor::White => Rgb565 { r: RGB565_MAX_RB, g: RGB565_MAX_G, b: RGB565_MAX_RB },
    }
}

/// The monochrome pixel of a palette color: black, blue and purple are off,
/// every other color is on.
pub open spec fn monochrome_conv_spec(color: ZxColor) -> BinaryColor {
    match color {
        ZxColor::Black | ZxColor::Blue | ZxColor::Purple => BinaryColor::Off,
        _ => BinaryColor::On,
    }
}

/// The 16-bit display color of a palette color.
pub fn color_conv(color: ZxColor, _brightness: ZxBrightness) -> (c: Rgb565)
    ensures
        c == color_conv_spec(color),
{
    match color {
        ZxColor::Black => Rgb565 { r: 0, g: 0, b: 0 },
        ZxColor::Blue => Rgb565 { r: 0, g: 0, b: RGB565_MAX_RB },
        ZxColor::Red => Rgb565 { r: RGB565_MAX_RB, g: 0, b: 0 },
        ZxColor::Purple => Rgb565 { r: RGB565_MAX_RB, g: 0, b: RGB565_MAX_RB },
        ZxColor::Green => Rgb565 { r: 0, g: RGB565_MAX_G, b: 0 },
        ZxColor::Cyan => Rgb565 { r: 0, g: RGB565_MAX_G, b: RGB565_MAX_RB },
        ZxColor::Yellow => Rgb565 { r: RGB565_MAX_RB, g: RGB565_MAX_G, b: 0 },
        ZxColor::White => Rgb565 { r: RGB565_MAX_RB, g: RGB565_MAX_G, b: RGB565_MAX_RB },
    }
}

/// The monochrome display pixel of a palette color.
pub fn monochrome_conv(color: ZxColor, _brightness: ZxBrightness) -> (c: BinaryColor)
    ensures
        c == monochrome_conv_spec(color),
{
    match color {
        ZxColor::Black | ZxColor::Blue | ZxColor::Purple => BinaryColor::Off,
        _ => BinaryColor::On,
    }
}

/// Distinct palette colors stay distinct on a 16-bit display, and each color
/// channel is either off or at its full value.
pub proof fn lemma_color_conv_injective(a: ZxColor, b: ZxColor)
    ensures
        a != b ==> color_conv_spec(a) != color_conv_spec(b),
        color_conv_spec(a).r == 0 || color_conv_spec(a).r == RGB565_MAX_RB,
        color_conv_spec(a).g == 0 || color_conv_spec(a).g == RGB565_MAX_G,
        color_conv_spec(a).b == 0 || color_conv_spec(a).b == RGB565_MAX_RB,
{
}

} // verus!
