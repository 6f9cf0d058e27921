use std::collections::HashMap;

use esp_clock::color::ZxColor;
use esp_clock::geometry::{Point, Size};
use esp_clock::layout::{
    clock_panel, date_panel, logo, measurements_panel, weekday_panel, wifi_icon, DrawOp, Font,
    Picture, TextAnchor,
};

type Screen = HashMap<(i64, i64), u32>;

const SCREEN: Size = Size { width: 320, height: 240 };

fn ink(c: ZxColor) -> u32 {
    match c {
        ZxColor::Black => 0,
        ZxColor::Blue => 1,
        ZxColor::Red => 2,
        ZxColor::Purple => 3,
        ZxColor::Green => 4,
        ZxColor::Cyan => 5,
        ZxColor::Yellow => 6,
        ZxColor::White => 7,
    }
}

fn cell(font: Font) -> (i64, i64) {
    match font {
        Font::ProFont24Point => (16, 24),
        Font::ProFont18Point => (12, 18),
    }
}

/// A stand-in font: each character lights a pattern of pixels in its cell
/// that depends on the character.
fn glyphs(text: &str, position: Point, font: Font, anchor: TextAnchor) -> Vec<(i64, i64)> {
    let (w, h) = cell(font);
    let n = text.chars().count() as i64;
    let (x0, y0) = match anchor {
        TextAnchor::CenterMiddle => (position.x as i64 - n * w / 2, position.y as i64 - h / 2),
        TextAnchor::LeftBaseline => (position.x as i64, position.y as i64 - h),
    };
    let mut lit = Vec::new();
    for (i, ch) in text.chars().enumerate() {
        for k in 0..w {
            for row in 0..h {
                if (ch as i64 + k + row) % 3 == 0 {
                    lit.push((x0 + i as i64 * w + k, y0 + row));
                }
            }
        }
    }
    lit
}

fn bitmap_pixel(p: Picture, x: i64, y: i64) -> u32 {
    let base = match p {
        Picture::LargeLogo => 100,
        Picture::SmallLogo => 200,
        Picture::WifiConnected => 300,
        Picture::WifiNotConnected => 400,
    };
    base + (x * 31 + y) as u32
}

fn on_display(p: (i64, i64)) -> bool {
    on(SCREEN, p)
}

fn on(size: Size, p: (i64, i64)) -> bool {
    0 <= p.0 && p.0 < size.width as i64 && 0 <= p.1 && p.1 < size.height as i64
}

fn draw(ops: &[DrawOp], screen: &Screen) -> Screen {
    draw_on(SCREEN, ops, screen)
}

fn draw_on(size: Size, ops: &[DrawOp], screen: &Screen) -> Screen {
    let mut s = screen.clone();
    let put = |s: &mut Screen, p: (i64, i64), c: u32| {
        if on(size, p) {
            s.insert(p, c);
        }
    };
    for op in ops {
        match op {
            DrawOp::Panel { area, color } => {
                for x in 0..area.size.width as i64 {
                    for y in 0..area.size.height as i64 {
                        put(&mut s, (area.top_left.x as i64 + x, area.top_left.y as i64 + y), ink(*color));
                    }
                }
            }
            DrawOp::Text { text, position, font, color, anchor } => {
                for p in glyphs(text, *position, *font, *anchor) {
                    put(&mut s, p, ink(*color));
                }
            }
            DrawOp::Picture { picture, position } => {
                for x in 0..20 {
                    for y in 0..20 {
                        put(&mut s, (position.x as i64 + x, position.y as i64 + y), bitmap_pixel(*picture, x, y));
                    }
                }
            }
            DrawOp::Clear { color } => {
                for x in 0..size.width as i64 {
                    for y in 0..size.height as i64 {
                        put(&mut s, (x, y), ink(*color));
                    }
                }
            }
            DrawOp::Pause { .. } => {}
        }
    }
    s
}

fn patterned_screen(seed: u32) -> Screen {
    let mut s = Screen::new();
    for x in 0..SCREEN.width as i64 {
        for y in 0..SCREEN.height as i64 {
            s.insert((x, y), (x as u32 * 7 + y as u32 * 13 + seed) % 11 + 50);
        }
    }
    s
}

#[test]
fn panels_drawn_twice_look_as_drawn_once() {
    let start = patterned_screen(3);
    let lists = vec![
        clock_panel(SCREEN, "19:52:07".to_string()),
        date_panel("28-June-2022".to_string()),
        weekday_panel(SCREEN, "Tuesday".to_string()),
        measurements_panel(SCREEN, "25°C".to_string(), "45%RH".to_string(), true),
        measurements_panel(SCREEN, "No data".to_string(), "No data".to_string(), false),
        wifi_icon(SCREEN, true),
        wifi_icon(SCREEN, false),
    ];
    for ops in lists {
        let once = draw(&ops, &start);
        assert_ne!(once, start);
        assert_eq!(draw(&ops, &once), once);
    }
}

#[test]
fn welcome_screen_does_not_depend_on_the_previous_screen() {
    let ops = logo(SCREEN);
    let a = draw(&ops, &patterned_screen(1));
    let b = draw(&ops, &patterned_screen(8));
    assert_eq!(a, b);
    assert_eq!(a, draw(&ops, &Screen::new()));
}

#[test]
fn a_new_clock_text_replaces_the_old_one() {
    let start = patterned_screen(5);
    let old = clock_panel(SCREEN, "19:52:07".to_string());
    let new = clock_panel(SCREEN, "19:52:08".to_string());
    let both = draw(&new, &draw(&old, &start));
    assert_eq!(both, draw(&new, &start));
    assert_ne!(draw(&old, &start), draw(&new, &start));
}

#[test]
fn the_humidity_area_hides_the_temperature_text() {
    let start = patterned_screen(2);
    let a = draw(&measurements_panel(SCREEN, "2°C".to_string(), "45%RH".to_string(), true), &start);
    let b = draw(&measurements_panel(SCREEN, "31°C".to_string(), "45%RH".to_string(), true), &start);
    let (w, h) = (SCREEN.width as i64, SCREEN.height as i64);
    for x in (w - 80)..(w - 80 + 120) {
        for y in (h - 50)..(h - 50 + 40) {
            if on_display((x, y)) {
                assert_eq!(a.get(&(x, y)), b.get(&(x, y)));
                assert!(a.contains_key(&(x, y)));
            }
        }
    }
    assert_ne!(a, b);
}

#[test]
fn empty_texts_leave_only_the_white_areas() {
    let small = Size { width: 64, height: 64 };
    let ops = measurements_panel(small, String::new(), String::new(), false);
    let s = draw_on(small, &ops, &Screen::new());
    for x in 0..64 {
        for y in 0..64 {
            if y < 54 {
                assert_eq!(s.get(&(x, y)), Some(&ink(ZxColor::White)));
            } else {
                assert_eq!(s.get(&(x, y)), None);
            }
        }
    }
    let s = draw_on(small, &date_panel(String::new()), &Screen::new());
    for x in 0..64 {
        for y in 0..64 {
            assert_eq!(s.get(&(x, y)).is_some(), y < 30);
        }
    }
}
