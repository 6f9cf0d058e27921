//! Where the dashboard draws what: each panel is a list of drawing operations
//! for a display of a given size. Every panel first paints its area white and
//! then writes its text in black.

use vstd::prelude::*;
use crate::color::ZxColor;
use crate::geometry::{
    bounding_box, bounding_box_spec, center_offset, eg_point_add_size, eg_point_sub_size,
    eg_rectangle_center, eg_rectangle_with_center, rectangle_center_spec, rectangle_contains,
    rectangle_with_center_spec, Point, Rectangle, Size,
};

verus! {

/// The two sizes of the ProFont typeface the dashboard writes with.
#[derive(Clone, Copy, Debug, PartialEq, Eq, Structural)]
pub enum Font {
    ProFont24Point,
    ProFont18Point,
}

/// How a text sits on its position.
#[derive(Clone, Copy, Debug, PartialEq, Eq, Structural)]
pub enum TextAnchor {
    /// Centered horizontally, with its middle on the position.
    CenterMiddle,
    /// Starting at the position, with its baseline on it.
    LeftBaseline,
}

/// The bitmaps the dashboard shows.
#[derive(Clone, Copy, Debug, PartialEq, Eq, Structural)]
pub enum Picture {
    LargeLogo,
    SmallLogo,
    WifiConnected,
    WifiNotConnected,
}

/// One drawing operation.
#[derive(Debug, PartialEq, Eq)]
pub enum DrawOp {
    /// A rectangle filled with `color` and outlined in it with a one-pixel stroke.
    Panel { area: Rectangle, color: ZxColor },
    /// A text in `font` and `color`.
    Text { text: String, position: Point, font: Font, color: ZxColor, anchor: TextAnchor },
    /// A bitmap with its top left corner at `position`.
    Picture { picture: Picture, position: Point },
    /// The whole display filled with `color`.
    Clear { color: ZxColor },
    /// A wait of `seconds` before the next operation.
    Pause { seconds: u64 },
}

/// A white panel over `area`.
pub open spec fn white_panel(area: Rectangle) -> DrawOp {
    DrawOp::Panel { area, color: ZxColor::White }
}

/// A black text anchored at `position` by `anchor`.
pub open spec fn black_text(text: String, position: Point, font: Font, anchor: TextAnchor) -> DrawOp {
    DrawOp::Text { text, position, font, color: ZxColor::Black, anchor }
}

/// The center of a display of size `d`.
pub open spec fn display_center(d: Size) -> Point {
    rectangle_center_spec(bounding_box_spec(d))
}

/// The point `dy` pixels below `p`.
pub open spec fn below(p: Point, dy: int) -> Point {
    Point { x: p.x, y: (p.y + dy) as i32 }
}

/// The width of a display read as a signed coordinate.
pub open spec fn signed_width(d: Size) -> int {
    d.width as i32 as int
}

/// The height of a display read as a signed coordinate.
pub open spec fn signed_height(d: Size) -> int {
    d.height as i32 as int
}

fn white(area: Rectangle) -> (op: DrawOp)
    ensures
        op == white_panel(area),
{
    DrawOp::Panel { area, color: ZxColor::White }
}

fn black(text: String, position: Point, font: Font, anchor: TextAnchor) -> (op: DrawOp)
    ensures
        op == black_text(text, position, font, anchor),
{
    DrawOp::Text { text, position, font, color: ZxColor::Black, anchor }
}

fn center_of(display: Size) -> (c: Point)
    ensures
        c == display_center(display),
        0 <= c.x == center_offset(display.width),
        0 <= c.y == center_offset(display.height),
{
    eg_rectangle_center(bounding_box(display))
}

// ----- the clock -----

/// The clock panel: a 132 by 40 area centered 15 pixels below the display's
/// center, and the clock text 10 pixels below the center.
pub open spec fn clock_panel_ops(d: Size, text: String) -> Seq<DrawOp> {
    let c = display_center(d);
    seq![
        white_panel(rectangle_with_center_spec(below(c, 15), Size { width: 132, height: 40 })),
        black_text(text, below(c, 10), Font::ProFont24Point, TextAnchor::CenterMiddle),
    ]
}

/// The display is low enough that the clock's positions fit in `i32`.
pub open spec fn clock_panel_fits(d: Size) -> bool {
    center_offset(d.height) + 15 <= i32::MAX
}

/// The operations that show the clock text `text`.
pub fn clock_panel(display: Size, text: String) -> (ops: Vec<DrawOp>)
    requires
        clock_panel_fits(display),
    ensures
        ops@ == clock_panel_ops(display, text),
{
    let c = center_of(display);
    let area = eg_rectangle_with_center(
        eg_point_add_size(c, Size { width: 0, height: 15 }),
        Size { width: 132, height: 40 },
    );
    let position = eg_point_add_size(c, Size { width: 0, height: 10 });
    let mut ops = Vec::new();
    ops.push(white(area));
    ops.push(black(text, position, Font::ProFont24Point, TextAnchor::CenterMiddle));
    ops
}

// ----- the date -----

/// The date panel: a 170 by 30 area in the top left corner, and the date text
/// starting 5 pixels from the left edge on a baseline 20 pixels down.
pub open spec fn date_panel_ops(text: String) -> Seq<DrawOp> {
    seq![
        white_panel(Rectangle { top_left: Point { x: 0, y: 0 }, size: Size { width: 170, height: 30 } }),
        black_text(text, Point { x: 5, y: 20 }, Font::ProFont18Point, TextAnchor::LeftBaseline),
    ]
}

/// The operations that show the date text `text`.
pub fn date_panel(text: String) -> (ops: Vec<DrawOp>)
    ensures
        ops@ == date_panel_ops(text),
{
    let mut ops = Vec::new();
    ops.push(white(Rectangle { top_left: Point { x: 0, y: 0 }, size: Size { width: 170, height: 30 } }));
    ops.push(black(text, Point { x: 5, y: 20 }, Font::ProFont18Point, TextAnchor::LeftBaseline));
    ops
}

// ----- the weekday -----

/// The weekday panel: a 140 by 30 area centered 20 pixels above the display's
/// center, and the weekday text 25 pixels above the center.
pub open spec fn weekday_panel_ops(d: Size, text: String) -> Seq<DrawOp> {
    let c = display_center(d);
    seq![
        white_panel(rectangle_with_center_spec(below(c, -20), Size { width: 140, height: 30 })),
        black_text(text, below(c, -25), Font::ProFont24Point, TextAnchor::CenterMiddle),
    ]
}

/// The operations that show the weekday text `text`.
pub fn weekday_panel(display: Size, text: String) -> (ops: Vec<DrawOp>)
    ensures
        ops@ == weekday_panel_ops(display, text),
{
    let c = center_of(display);
    let area = eg_rectangle_with_center(
        eg_point_sub_size(c, Size { width: 0, height: 20 }),
        Size { width: 140, height: 30 },
    );
    let position = eg_point_sub_size(c, Size { width: 0, height: 25 });
    let mut ops = Vec::new();
    ops.push(white(area));
    ops.push(black(text, position, Font::ProFont24Point, TextAnchor::CenterMiddle));
    ops
}

// ----- temperature and humidity -----

/// The measurement panels: an 80 by 45 area in the top right corner with the
/// temperature 35 pixels from the right edge and 13 down; a 120 by 40 area
/// from 80 pixels left of the right edge and 50 up from the bottom, with the
/// humidity 50 pixels from the right and 20 up when it is a reading, or 35
/// from the right and 40 up when it is a notice.
pub open spec fn measurements_panel_ops(
    d: Size,
    temperature: String,
    humidity: String,
    has_data: bool,
) -> Seq<DrawOp> {
    let w = signed_width(d);
    let h = signed_height(d);
    let humidity_position = if has_data {
        Point { x: (w - 50) as i32, y: (h - 20) as i32 }
    } else {
        Point { x: (w - 35) as i32, y: (h - 40) as i32 }
    };
    seq![
        white_panel(Rectangle { top_left: Point { x: (w - 80) as i32, y: 0 }, size: Size { width: 80, height: 45 } }),
        black_text(temperature, Point { x: (w - 35) as i32, y: 13 }, Font::ProFont18Point, TextAnchor::CenterMiddle),
        white_panel(Rectangle { top_left: Point { x: (w - 80) as i32, y: (h - 50) as i32 }, size: Size { width: 120, height: 40 } }),
        black_text(humidity, humidity_position, Font::ProFont18Point, TextAnchor::CenterMiddle),
    ]
}

/// The display's signed width and height leave room for the measurement panels.
pub open spec fn measurements_panel_fits(d: Size) -> bool {
    signed_width(d) - 80 >= i32::MIN && signed_height(d) - 50 >= i32::MIN
}

/// The operations that show a temperature and a humidity text; `has_data`
/// tells a reading from a notice.
pub fn measurements_panel(display: Size, temperature: String, humidity: String, has_data: bool) -> (ops: Vec<DrawOp>)
    requires
        measurements_panel_fits(display),
    ensures
        ops@ == measurements_panel_ops(display, temperature, humidity, has_data),
{
    let w = display.width as i32;
    let h = display.height as i32;
    let mut ops = Vec::new();
    ops.push(white(Rectangle { top_left: Point { x: w - 80, y: 0 }, size: Size { width: 80, height: 45 } }));
    ops.push(black(temperature, Point { x: w - 35, y: 13 }, Font::ProFont18Point, TextAnchor::CenterMiddle));
    ops.push(white(Rectangle { top_left: Point { x: w - 80, y: h - 50 }, size: Size { width: 120, height: 40 } }));
    let humidity_position = if has_data {
        Point { x: w - 50, y: h - 20 }
    } else {
        Point { x: w - 35, y: h - 40 }
    };
    ops.push(black(humidity, humidity_position, Font::ProFont18Point, TextAnchor::CenterMiddle));
    ops
}

// ----- the logo -----

/// The welcome screen: a white display with the large logo 100 pixels left of
/// and above the center, five seconds of it, then a white display with the
/// small logo in the bottom left corner, 50 pixels up from the bottom.
pub open spec fn logo_ops(d: Size) -> Seq<DrawOp> {
    let c = display_center(d);
    seq![
        DrawOp::Clear { color: ZxColor::White },
        DrawOp::Picture { picture: Picture::LargeLogo, position: Point { x: (c.x - 100) as i32, y: (c.y - 100) as i32 } },
        DrawOp::Pause { seconds: 5 },
        DrawOp::Clear { color: ZxColor::White },
        DrawOp::Picture { picture: Picture::SmallLogo, position: Point { x: 0, y: (signed_height(d) - 50) as i32 } },
    ]
}

/// The display's signed height leaves room for the bottom row of pictures.
pub open spec fn bottom_row_fits(d: Size) -> bool {
    signed_height(d) - 50 >= i32::MIN
}

/// The operations of the welcome screen.
pub fn logo(display: Size) -> (ops: Vec<DrawOp>)
    requires
        bottom_row_fits(display),
    ensures
        ops@ == logo_ops(display),
{
    let c = center_of(display);
    let h = display.height as i32;
    let mut ops = Vec::new();
    ops.push(DrawOp::Clear { color: ZxColor::White });
    ops.push(DrawOp::Picture {
        picture: Picture::LargeLogo,
        position: eg_point_sub_size(c, Size { width: 100, height: 100 }),
    });
    ops.push(DrawOp::Pause { seconds: 5 });
    ops.push(DrawOp::Clear { color: ZxColor::White });
    ops.push(DrawOp::Picture { picture: Picture::SmallLogo, position: Point { x: 0, y: h - 50 } });
    ops
}

// ----- Wi-Fi -----

/// The Wi-Fi icon 53 pixels from the left edge and 50 up from the bottom; the
/// connected icon is drawn over a white 50 by 50 area starting 50 pixels from
/// the left edge.
pub open spec fn wifi_icon_ops(d: Size, connected: bool) -> Seq<DrawOp> {
    let h = signed_height(d);
    if connected {
        seq![
            white_panel(Rectangle { top_left: Point { x: 50, y: (h - 50) as i32 }, size: Size { width: 50, height: 50 } }),
            DrawOp::Picture { picture: Picture::WifiConnected, position: Point { x: 53, y: (h - 50) as i32 } },
        ]
    } else {
        seq![DrawOp::Picture { picture: Picture::WifiNotConnected, position: Point { x: 53, y: (h - 50) as i32 } }]
    }
}

/// The operations that show whether Wi-Fi is connected.
pub fn wifi_icon(display: Size, connected: bool) -> (ops: Vec<DrawOp>)
    requires
        bottom_row_fits(display),
    ensures
        ops@ == wifi_icon_ops(display, connected),
{
    let h = display.height as i32;
    let mut ops = Vec::new();
    if connected {
        ops.push(white(Rectangle { top_left: Point { x: 50, y: h - 50 }, size: Size { width: 50, height: 50 } }));
        ops.push(DrawOp::Picture { picture: Picture::WifiConnected, position: Point { x: 53, y: h - 50 } });
    } else {
        ops.push(DrawOp::Picture { picture: Picture::WifiNotConnected, position: Point { x: 53, y: h - 50 } });
    }
    ops
}

/// The message of the Wi-Fi status panel.
pub open spec fn wifi_message(connected: bool) -> Seq<char> {
    if connected {
        "Wi-Fi connected"@
    } else {
        "Connecting Wi-Fi..."@
    }
}

/// The Wi-Fi status band: an area as wide as the display and 80 high around
/// its center, with `message` 25 pixels above the center. Once connected, the
/// connected icon follows, two seconds pass and the band is cleared again.
pub open spec fn wifi_status_ops(d: Size, connected: bool, message: String) -> Seq<DrawOp> {
    let c = display_center(d);
    let band = white_panel(rectangle_with_center_spec(c, Size { width: d.width, height: 80 }));
    let head = seq![band, black_text(message, below(c, -25), Font::ProFont24Point, TextAnchor::CenterMiddle)];
    if connected {
        head + wifi_icon_ops(d, true) + seq![DrawOp::Pause { seconds: 2 }, band]
    } else {
        head
    }
}

/// The operations that show that Wi-Fi is connecting or has connected.
pub fn wifi_status(display: Size, connected: bool) -> (ops: Vec<DrawOp>)
    requires
        connected ==> bottom_row_fits(display),
    ensures
        ops@.len() >= 2,
        ops@[1] is Text,
        (ops@[1]->text)@ == wifi_message(connected),
        ops@ == wifi_status_ops(display, connected, ops@[1]->text),
{
    let c = center_of(display);
    let band = eg_rectangle_with_center(c, Size { width: display.width, height: 80 });
    let position = eg_point_sub_size(c, Size { width: 0, height: 25 });
    let message = if connected {
        String::from_str("Wi-Fi connected")
    } else {
        String::from_str("Connecting Wi-Fi...")
    };
    let ghost message_copy = message;
    let mut ops = Vec::new();
    ops.push(white(band));
    ops.push(black(message, position, Font::ProFont24Point, TextAnchor::CenterMiddle));
    if connected {
        let mut icon = wifi_icon(display, true);
        ops.append(&mut icon);
        ops.push(DrawOp::Pause { seconds: 2 });
        ops.push(white(band));
    }
    assert(ops@ =~= wifi_status_ops(display, connected, message_copy));
    ops
}

/// Every text the dashboard writes lands inside the area its panel has just
/// painted white, so no text reaches past the area it cleared. The Wi-Fi band
/// needs a display at least one pixel wide.
pub proof fn lemma_texts_inside_their_panels(
    d: Size,
    text: String,
    temperature: String,
    humidity: String,
    has_data: bool,
    message: String,
    connected: bool,
)
    requires
        clock_panel_fits(d),
        measurements_panel_fits(d),
        d.width > 0,
    ensures
        rectangle_contains(clock_panel_ops(d, text)[0]->area, clock_panel_ops(d, text)[1]->Text_position),
        rectangle_contains(date_panel_ops(text)[0]->area, date_panel_ops(text)[1]->Text_position),
        rectangle_contains(weekday_panel_ops(d, text)[0]->area, weekday_panel_ops(d, text)[1]->Text_position),
        rectangle_contains(
            measurements_panel_ops(d, temperature, humidity, has_data)[0]->area,
            measurements_panel_ops(d, temperature, humidity, has_data)[1]->Text_position,
        ),
        rectangle_contains(
            measurements_panel_ops(d, temperature, humidity, has_data)[2]->area,
            measurements_panel_ops(d, temperature, humidity, has_data)[3]->Text_position,
        ),
        rectangle_contains(
            wifi_status_ops(d, connected, message)[0]->area,
            wifi_status_ops(d, connected, message)[1]->Text_position,
        ),
{
    let c = display_center(d);
    assert(0 <= c.x == center_offset(d.width) < d.width);
    assert(0 <= c.y == center_offset(d.height));
}

} // verus!
