use esp_clock::color::ZxColor;
use esp_clock::geometry::{bounding_box, Point, Rectangle, Size};
use esp_clock::layout::{
    clock_panel, date_panel, logo, measurements_panel, weekday_panel, wifi_icon, wifi_status,
    DrawOp, Font, Picture, TextAnchor,
};

const SCREEN: Size = Size { width: 320, height: 240 };

fn white(x: i32, y: i32, width: u32, height: u32) -> DrawOp {
    DrawOp::Panel { area: Rectangle { top_left: Point { x, y }, size: Size { width, height } }, color: ZxColor::White }
}

fn black(text: &str, x: i32, y: i32, font: Font, anchor: TextAnchor) -> DrawOp {
    DrawOp::Text { text: text.to_string(), position: Point { x, y }, font, color: ZxColor::Black, anchor }
}

#[test]
fn bounding_box_starts_at_the_origin() {
    assert_eq!(bounding_box(SCREEN), Rectangle { top_left: Point { x: 0, y: 0 }, size: SCREEN });
}

#[test]
fn clock_panel_on_a_320_by_240_display() {
    assert_eq!(
        clock_panel(SCREEN, "19:52:00".to_string()),
        vec![
            white(94, 115, 132, 40),
            black("19:52:00", 159, 129, Font::ProFont24Point, TextAnchor::CenterMiddle),
        ]
    );
}

#[test]
fn clock_panel_on_a_128_by_64_display() {
    let size = Size { width: 128, height: 64 };
    assert_eq!(
        clock_panel(size, "1:02:03".to_string()),
        vec![
            white(-2, 27, 132, 40),
            black("1:02:03", 63, 41, Font::ProFont24Point, TextAnchor::CenterMiddle),
        ]
    );
}

#[test]
fn date_panel_in_the_top_left_corner() {
    assert_eq!(
        date_panel("28-June-2022".to_string()),
        vec![white(0, 0, 170, 30), black("28-June-2022", 5, 20, Font::ProFont18Point, TextAnchor::LeftBaseline)]
    );
}

#[test]
fn weekday_panel_above_the_center() {
    assert_eq!(
        weekday_panel(SCREEN, "Tuesday".to_string()),
        vec![white(90, 85, 140, 30), black("Tuesday", 159, 94, Font::ProFont24Point, TextAnchor::CenterMiddle)]
    );
}

#[test]
fn measurements_panel_with_readings() {
    assert_eq!(
        measurements_panel(SCREEN, "+21\u{b0}C".to_string(), "45%RH".to_string(), true),
        vec![
            white(240, 0, 80, 45),
            black("+21\u{b0}C", 285, 13, Font::ProFont18Point, TextAnchor::CenterMiddle),
            white(240, 190, 120, 40),
            black("45%RH", 270, 220, Font::ProFont18Point, TextAnchor::CenterMiddle),
        ]
    );
}

#[test]
fn measurements_panel_without_readings() {
    assert_eq!(
        measurements_panel(SCREEN, "No\ndata".to_string(), "No\ndata".to_string(), false),
        vec![
            white(240, 0, 80, 45),
            black("No\ndata", 285, 13, Font::ProFont18Point, TextAnchor::CenterMiddle),
            white(240, 190, 120, 40),
            black("No\ndata", 285, 200, Font::ProFont18Point, TextAnchor::CenterMiddle),
        ]
    );
}

#[test]
fn logo_screen() {
    assert_eq!(
        logo(SCREEN),
        vec![
            DrawOp::Clear { color: ZxColor::White },
            DrawOp::Picture { picture: Picture::LargeLogo, position: Point { x: 59, y: 19 } },
            DrawOp::Pause { seconds: 5 },
            DrawOp::Clear { color: ZxColor::White },
            DrawOp::Picture { picture: Picture::SmallLogo, position: Point { x: 0, y: 190 } },
        ]
    );
}

#[test]
fn wifi_icons() {
    assert_eq!(
        wifi_icon(SCREEN, true),
        vec![white(50, 190, 50, 50), DrawOp::Picture { picture: Picture::WifiConnected, position: Point { x: 53, y: 190 } }]
    );
    assert_eq!(
        wifi_icon(SCREEN, false),
        vec![DrawOp::Picture { picture: Picture::WifiNotConnected, position: Point { x: 53, y: 190 } }]
    );
}

#[test]
fn wifi_status_while_connecting() {
    assert_eq!(
        wifi_status(SCREEN, false),
        vec![
            white(0, 80, 320, 80),
            black("Connecting Wi-Fi...", 159, 94, Font::ProFont24Point, TextAnchor::CenterMiddle),
        ]
    );
}

#[test]
fn wifi_status_once_connected() {
    assert_eq!(
        wifi_status(SCREEN, true),
        vec![
            white(0, 80, 320, 80),
            black("Wi-Fi connected", 159, 94, Font::ProFont24Point, TextAnchor::CenterMiddle),
            white(50, 190, 50, 50),
            DrawOp::Picture { picture: Picture::WifiConnected, position: Point { x: 53, y: 190 } },
            DrawOp::Pause { seconds: 2 },
            white(0, 80, 320, 80),
        ]
    );
}

#[test]
fn texts_land_inside_their_panels() {
    fn inside(area: &Rectangle, p: &Point) -> bool {
        area.top_left.x <= p.x
            && (p.x as i64) < area.top_left.x as i64 + area.size.width as i64
            && area.top_left.y <= p.y
            && (p.y as i64) < area.top_left.y as i64 + area.size.height as i64
    }
    for size in [SCREEN, Size { width: 128, height: 64 }, Size { width: 240, height: 240 }] {
        let panels = vec![
            clock_panel(size, "x".to_string()),
            date_panel("x".to_string()),
            weekday_panel(size, "x".to_string()),
            wifi_status(size, false),
        ];
        for ops in panels {
            match (&ops[0], &ops[1]) {
                (DrawOp::Panel { area, .. }, DrawOp::Text { position, .. }) => assert!(inside(area, position)),
                _ => panic!("a panel and its text"),
            }
        }
    }
}
