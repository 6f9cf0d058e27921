//! What the drawing operations do to the pixels of a display.
//!
//! A screen maps each pixel, a column and a row, to the color it shows, in
//! whatever color type the display has. How a palette color looks on the
//! display (`ink`), which pixels a text lights (`glyphs`) and what a bitmap
//! holds (`bitmap`) are parameters of the model: every law below holds for
//! every font rendering and every bitmap.
//!
//! Each operation paints pixels whose colors do not depend on what the
//! screen showed before: a panel paints every pixel of its rectangle (its
//! fill and its one-pixel stroke, centered on the edge, lie inside the
//! rectangle and have the same color), a text paints only the pixels its
//! glyphs light (an empty text lights none), a picture paints every pixel of its bitmap, a clear paints
//! the whole display and a pause paints nothing. Pixels off the display are
//! not drawn.

use vstd::prelude::*;
use crate::color::ZxColor;
use crate::geometry::{Point, Rectangle, Size};
use crate::layout::{
    clock_panel_ops, date_panel_ops, display_center, logo_ops, measurements_panel_ops,
    signed_height, signed_width, weekday_panel_ops, wifi_icon_ops, below, DrawOp, Font, Picture,
    TextAnchor,
};

verus! {

/// Whether pixel `p` (column, row) is one of the pixels of a display of size `d`.
pub open spec fn on_display(d: Size, p: (int, int)) -> bool {
    0 <= p.0 < d.width && 0 <= p.1 < d.height
}

/// Whether pixel `p` lies in rectangle `r`.
pub open spec fn in_rectangle(r: Rectangle, p: (int, int)) -> bool {
    &&& r.top_left.x <= p.0 < r.top_left.x + r.size.width
    &&& r.top_left.y <= p.1 < r.top_left.y + r.size.height
}

/// The pixels one operation paints on a display of size `d`, each with the
/// color it gets.
pub open spec fn op_paint<C>(
    d: Size,
    ink: spec_fn(ZxColor) -> C,
    glyphs: spec_fn(Seq<char>, Point, Font, TextAnchor) -> Set<(int, int)>,
    bitmap: spec_fn(Picture) -> Map<(int, int), C>,
    op: DrawOp,
) -> Map<(int, int), C> {
    match op {
        DrawOp::Panel { area, color } => Map::new(
            |p: (int, int)| on_display(d, p) && in_rectangle(area, p),
            |p: (int, int)| ink(color),
        ),
        DrawOp::Text { text, position, font, color, anchor } => Map::new(
            |p: (int, int)|
                on_display(d, p) && text@.len() > 0 && glyphs(text@, position, font, anchor).contains(p),
            |p: (int, int)| ink(color),
        ),
        DrawOp::Picture { picture, position } => Map::new(
            |p: (int, int)|
                on_display(d, p) && bitmap(picture).dom().contains((p.0 - position.x, p.1 - position.y)),
            |p: (int, int)| bitmap(picture)[(p.0 - position.x, p.1 - position.y)],
        ),
        DrawOp::Clear { color } => Map::new(|p: (int, int)| on_display(d, p), |p: (int, int)| ink(color)),
        DrawOp::Pause { .. } => Map::empty(),
    }
}

/// The screen after the operations `ops`, in order, on a display of size `d`
/// that showed `screen`.
pub open spec fn draw<C>(
    d: Size,
    ink: spec_fn(ZxColor) -> C,
    glyphs: spec_fn(Seq<char>, Point, Font, TextAnchor) -> Set<(int, int)>,
    bitmap: spec_fn(Picture) -> Map<(int, int), C>,
    ops: Seq<DrawOp>,
    screen: Map<(int, int), C>,
) -> Map<(int, int), C>
    decreases ops.len(),
{
    if ops.len() == 0 {
        screen
    } else {
        draw(d, ink, glyphs, bitmap, ops.drop_last(), screen).union_prefer_right(
            op_paint(d, ink, glyphs, bitmap, ops.last()),
        )
    }
}

/// The pixels the operations `ops` paint, with the colors they leave there.
pub open spec fn paint<C>(
    d: Size,
    ink: spec_fn(ZxColor) -> C,
    glyphs: spec_fn(Seq<char>, Point, Font, TextAnchor) -> Set<(int, int)>,
    bitmap: spec_fn(Picture) -> Map<(int, int), C>,
    ops: Seq<DrawOp>,
) -> Map<(int, int), C> {
    draw(d, ink, glyphs, bitmap, ops, Map::empty())
}

/// Drawing leaves what was on the screen where the operations paint nothing,
/// and what they paint elsewhere.
proof fn lemma_draw_is_overlay<C>(
    d: Size,
    ink: spec_fn(ZxColor) -> C,
    glyphs: spec_fn(Seq<char>, Point, Font, TextAnchor) -> Set<(int, int)>,
    bitmap: spec_fn(Picture) -> Map<(int, int), C>,
    ops: Seq<DrawOp>,
    screen: Map<(int, int), C>,
)
    ensures
        draw(d, ink, glyphs, bitmap, ops, screen)
            == screen.union_prefer_right(paint(d, ink, glyphs, bitmap, ops)),
    decreases ops.len(),
{
    if ops.len() == 0 {
        assert(screen.union_prefer_right(Map::<(int, int), C>::empty()) =~= screen);
    } else {
        lemma_draw_is_overlay(d, ink, glyphs, bitmap, ops.drop_last(), screen);
        let last = op_paint(d, ink, glyphs, bitmap, ops.last());
        let before = paint(d, ink, glyphs, bitmap, ops.drop_last());
        assert(paint(d, ink, glyphs, bitmap, ops) == before.union_prefer_right(last)) by {
            lemma_draw_is_overlay(d, ink, glyphs, bitmap, ops.drop_last(), Map::empty());
            assert(Map::<(int, int), C>::empty().union_prefer_right(before) =~= before);
        }
        assert(screen.union_prefer_right(before).union_prefer_right(last)
            =~= screen.union_prefer_right(before.union_prefer_right(last)));
    }
}

/// Drawing the same operations a second time changes nothing.
pub proof fn lemma_draw_twice<C>(
    d: Size,
    ink: spec_fn(ZxColor) -> C,
    glyphs: spec_fn(Seq<char>, Point, Font, TextAnchor) -> Set<(int, int)>,
    bitmap: spec_fn(Picture) -> Map<(int, int), C>,
    ops: Seq<DrawOp>,
    screen: Map<(int, int), C>,
)
    ensures
        draw(d, ink, glyphs, bitmap, ops, draw(d, ink, glyphs, bitmap, ops, screen))
            == draw(d, ink, glyphs, bitmap, ops, screen),
{
    let once = draw(d, ink, glyphs, bitmap, ops, screen);
    let painted = paint(d, ink, glyphs, bitmap, ops);
    lemma_draw_is_overlay(d, ink, glyphs, bitmap, ops, screen);
    lemma_draw_is_overlay(d, ink, glyphs, bitmap, ops, once);
    assert(screen.union_prefer_right(painted).union_prefer_right(painted)
        =~= screen.union_prefer_right(painted));
}

/// What two operations paint, the second over the first.
proof fn lemma_paint_two<C>(
    d: Size,
    ink: spec_fn(ZxColor) -> C,
    glyphs: spec_fn(Seq<char>, Point, Font, TextAnchor) -> Set<(int, int)>,
    bitmap: spec_fn(Picture) -> Map<(int, int), C>,
    first: DrawOp,
    second: DrawOp,
)
    ensures
        paint(d, ink, glyphs, bitmap, seq![first, second]) == op_paint(d, ink, glyphs, bitmap, first)
            .union_prefer_right(op_paint(d, ink, glyphs, bitmap, second)),
{
    let ops = seq![first, second];
    let e = Map::<(int, int), C>::empty();
    assert(ops.drop_last() =~= seq![first]);
    assert(seq![first].drop_last() =~= Seq::<DrawOp>::empty());
    assert(seq![first].last() == first);
    assert(ops.last() == second);
    assert(draw(d, ink, glyphs, bitmap, Seq::<DrawOp>::empty(), e) == e);
    assert(draw(d, ink, glyphs, bitmap, seq![first], e)
        == e.union_prefer_right(op_paint(d, ink, glyphs, bitmap, first)));
    assert(e.union_prefer_right(op_paint(d, ink, glyphs, bitmap, first))
        =~= op_paint(d, ink, glyphs, bitmap, first));
    assert(draw(d, ink, glyphs, bitmap, ops, e) == draw(d, ink, glyphs, bitmap, seq![first], e)
        .union_prefer_right(op_paint(d, ink, glyphs, bitmap, second)));
}

/// Every pixel one of the operations paints is painted by the whole list.
proof fn lemma_paint_covers_each<C>(
    d: Size,
    ink: spec_fn(ZxColor) -> C,
    glyphs: spec_fn(Seq<char>, Point, Font, TextAnchor) -> Set<(int, int)>,
    bitmap: spec_fn(Picture) -> Map<(int, int), C>,
    ops: Seq<DrawOp>,
    i: int,
    p: (int, int),
)
    requires
        0 <= i < ops.len(),
        op_paint(d, ink, glyphs, bitmap, ops[i]).dom().contains(p),
    ensures
        paint(d, ink, glyphs, bitmap, ops).dom().contains(p),
    decreases ops.len(),
{
    if i < ops.len() - 1 {
        assert(ops.drop_last()[i] == ops[i]);
        lemma_paint_covers_each(d, ink, glyphs, bitmap, ops.drop_last(), i, p);
    }
}

/// Drawing operations that paint every pixel some earlier operations painted
/// leaves the screen as if the earlier ones had never been drawn.
proof fn lemma_covered_drawing_forgotten<C>(
    d: Size,
    ink: spec_fn(ZxColor) -> C,
    glyphs: spec_fn(Seq<char>, Point, Font, TextAnchor) -> Set<(int, int)>,
    bitmap: spec_fn(Picture) -> Map<(int, int), C>,
    earlier: Seq<DrawOp>,
    later: Seq<DrawOp>,
    screen: Map<(int, int), C>,
)
    requires
        paint(d, ink, glyphs, bitmap, earlier).dom().subset_of(paint(d, ink, glyphs, bitmap, later).dom()),
    ensures
        draw(d, ink, glyphs, bitmap, later, draw(d, ink, glyphs, bitmap, earlier, screen))
            == draw(d, ink, glyphs, bitmap, later, screen),
{
    let first = draw(d, ink, glyphs, bitmap, earlier, screen);
    lemma_draw_is_overlay(d, ink, glyphs, bitmap, earlier, screen);
    lemma_draw_is_overlay(d, ink, glyphs, bitmap, later, first);
    lemma_draw_is_overlay(d, ink, glyphs, bitmap, later, screen);
    let pe = paint(d, ink, glyphs, bitmap, earlier);
    let pl = paint(d, ink, glyphs, bitmap, later);
    assert(screen.union_prefer_right(pe).union_prefer_right(pl) =~= screen.union_prefer_right(pl));
}

/// Drawing a panel a second time with the same arguments leaves the display
/// as one drawing does: the clock, the date, the weekday, the temperature and
/// humidity, and the Wi-Fi icon, connected or not.
pub proof fn lemma_panels_redraw_unchanged<C>(
    d: Size,
    ink: spec_fn(ZxColor) -> C,
    glyphs: spec_fn(Seq<char>, Point, Font, TextAnchor) -> Set<(int, int)>,
    bitmap: spec_fn(Picture) -> Map<(int, int), C>,
    text: String,
    temperature: String,
    humidity: String,
    has_data: bool,
    connected: bool,
    screen: Map<(int, int), C>,
)
    ensures
        ({
            let ops = clock_panel_ops(d, text);
            draw(d, ink, glyphs, bitmap, ops, draw(d, ink, glyphs, bitmap, ops, screen))
                == draw(d, ink, glyphs, bitmap, ops, screen)
        }),
        ({
            let ops = date_panel_ops(text);
            draw(d, ink, glyphs, bitmap, ops, draw(d, ink, glyphs, bitmap, ops, screen))
                == draw(d, ink, glyphs, bitmap, ops, screen)
        }),
        ({
            let ops = weekday_panel_ops(d, text);
            draw(d, ink, glyphs, bitmap, ops, draw(d, ink, glyphs, bitmap, ops, screen))
                == draw(d, ink, glyphs, bitmap, ops, screen)
        }),
        ({
            let ops = measurements_panel_ops(d, temperature, humidity, has_data);
            draw(d, ink, glyphs, bitmap, ops, draw(d, ink, glyphs, bitmap, ops, screen))
                == draw(d, ink, glyphs, bitmap, ops, screen)
        }),
        ({
            let ops = wifi_icon_ops(d, connected);
            draw(d, ink, glyphs, bitmap, ops, draw(d, ink, glyphs, bitmap, ops, screen))
                == draw(d, ink, glyphs, bitmap, ops, screen)
        }),
{
    lemma_draw_twice(d, ink, glyphs, bitmap, clock_panel_ops(d, text), screen);
    lemma_draw_twice(d, ink, glyphs, bitmap, date_panel_ops(text), screen);
    lemma_draw_twice(d, ink, glyphs, bitmap, weekday_panel_ops(d, text), screen);
    lemma_draw_twice(d, ink, glyphs, bitmap, measurements_panel_ops(d, temperature, humidity, has_data), screen);
    lemma_draw_twice(d, ink, glyphs, bitmap, wifi_icon_ops(d, connected), screen);
}

/// The welcome screen does not depend on what the display showed before it:
/// two displays of the same size end up with the same pixels.
pub proof fn lemma_logo_forgets_previous_screen<C>(
    d: Size,
    ink: spec_fn(ZxColor) -> C,
    glyphs: spec_fn(Seq<char>, Point, Font, TextAnchor) -> Set<(int, int)>,
    bitmap: spec_fn(Picture) -> Map<(int, int), C>,
    screen1: Map<(int, int), C>,
    screen2: Map<(int, int), C>,
)
    requires
        forall|p: (int, int)| #[trigger] screen1.dom().contains(p) ==> on_display(d, p),
        forall|p: (int, int)| #[trigger] screen2.dom().contains(p) ==> on_display(d, p),
    ensures
        draw(d, ink, glyphs, bitmap, logo_ops(d), screen1)
            == draw(d, ink, glyphs, bitmap, logo_ops(d), screen2),
{
    let ops = logo_ops(d);
    let painted = paint(d, ink, glyphs, bitmap, ops);
    lemma_draw_is_overlay(d, ink, glyphs, bitmap, ops, screen1);
    lemma_draw_is_overlay(d, ink, glyphs, bitmap, ops, screen2);
    assert forall|p: (int, int)| on_display(d, p) implies #[trigger] painted.dom().contains(p) by {
        assert(op_paint(d, ink, glyphs, bitmap, ops[0]).dom().contains(p));
        lemma_paint_covers_each(d, ink, glyphs, bitmap, ops, 0, p);
    }
    assert(screen1.union_prefer_right(painted) =~= screen2.union_prefer_right(painted));
}

/// The clock area, where the clock panel paints white.
pub open spec fn clock_area(d: Size) -> Rectangle {
    crate::geometry::rectangle_with_center_spec(below(display_center(d), 15), Size { width: 132, height: 40 })
}

/// A new clock text replaces the old one entirely: when the pixels the old
/// text lit on the display lie in the clock area, showing the old clock and
/// then the new one leaves the display as showing the new one alone.
pub proof fn lemma_clock_text_replaced<C>(
    d: Size,
    ink: spec_fn(ZxColor) -> C,
    glyphs: spec_fn(Seq<char>, Point, Font, TextAnchor) -> Set<(int, int)>,
    bitmap: spec_fn(Picture) -> Map<(int, int), C>,
    old_text: String,
    new_text: String,
    screen: Map<(int, int), C>,
)
    requires
        forall|p: (int, int)|
            on_display(d, p) && #[trigger] glyphs(old_text@, below(display_center(d), 10), Font::ProFont24Point, TextAnchor::CenterMiddle).contains(p)
                ==> in_rectangle(clock_area(d), p),
    ensures
        draw(d, ink, glyphs, bitmap, clock_panel_ops(d, new_text),
            draw(d, ink, glyphs, bitmap, clock_panel_ops(d, old_text), screen))
            == draw(d, ink, glyphs, bitmap, clock_panel_ops(d, new_text), screen),
{
    let old_ops = clock_panel_ops(d, old_text);
    let new_ops = clock_panel_ops(d, new_text);
    lemma_paint_two(d, ink, glyphs, bitmap, old_ops[0], old_ops[1]);
    lemma_paint_two(d, ink, glyphs, bitmap, new_ops[0], new_ops[1]);
    assert(old_ops =~= seq![old_ops[0], old_ops[1]]);
    assert(new_ops =~= seq![new_ops[0], new_ops[1]]);
    let area = op_paint(d, ink, glyphs, bitmap, old_ops[0]);
    assert(area == op_paint(d, ink, glyphs, bitmap, new_ops[0]));
    assert forall|p: (int, int)| paint(d, ink, glyphs, bitmap, old_ops).dom().contains(p)
        implies #[trigger] paint(d, ink, glyphs, bitmap, new_ops).dom().contains(p) by {
        assert(area.dom().contains(p));
    }
    lemma_covered_drawing_forgotten(d, ink, glyphs, bitmap, old_ops, new_ops, screen);
}

/// The humidity area, where the measurement panels paint white after the
/// temperature text.
pub open spec fn humidity_area(d: Size) -> Rectangle {
    Rectangle {
        top_left: Point { x: (signed_width(d) - 80) as i32, y: (signed_height(d) - 50) as i32 },
        size: Size { width: 120, height: 40 },
    }
}

/// The humidity area hides the temperature text: two drawings of the
/// measurement panels from the same screen that differ only in the
/// temperature text agree on every pixel of the display in the humidity area.
pub proof fn lemma_humidity_area_hides_temperature<C>(
    d: Size,
    ink: spec_fn(ZxColor) -> C,
    glyphs: spec_fn(Seq<char>, Point, Font, TextAnchor) -> Set<(int, int)>,
    bitmap: spec_fn(Picture) -> Map<(int, int), C>,
    temperature1: String,
    temperature2: String,
    humidity: String,
    has_data: bool,
    screen: Map<(int, int), C>,
    p: (int, int),
)
    requires
        on_display(d, p),
        in_rectangle(humidity_area(d), p),
    ensures
        draw(d, ink, glyphs, bitmap, measurements_panel_ops(d, temperature1, humidity, has_data), screen).dom().contains(p),
        draw(d, ink, glyphs, bitmap, measurements_panel_ops(d, temperature2, humidity, has_data), screen).dom().contains(p),
        draw(d, ink, glyphs, bitmap, measurements_panel_ops(d, temperature1, humidity, has_data), screen)[p]
            == draw(d, ink, glyphs, bitmap, measurements_panel_ops(d, temperature2, humidity, has_data), screen)[p],
{
    let ops1 = measurements_panel_ops(d, temperature1, humidity, has_data);
    let ops2 = measurements_panel_ops(d, temperature2, humidity, has_data);
    assert(ops1[2] == ops2[2] && ops1[3] == ops2[3]);
    assert(ops1.drop_last().last() == ops1[2]);
    assert(ops2.drop_last().last() == ops2[2]);
    let box_paint = op_paint(d, ink, glyphs, bitmap, ops1[2]);
    let text_paint = op_paint(d, ink, glyphs, bitmap, ops1[3]);
    assert(box_paint.dom().contains(p));
    let before1 = draw(d, ink, glyphs, bitmap, ops1.drop_last(), screen);
    let before2 = draw(d, ink, glyphs, bitmap, ops2.drop_last(), screen);
    assert(before1.dom().contains(p) && before1[p] == box_paint[p]);
    assert(before2.dom().contains(p) && before2[p] == box_paint[p]);
}

/// The pixels of the display in rectangle `r`, all of color `c`.
pub open spec fn filled<C>(d: Size, r: Rectangle, c: C) -> Map<(int, int), C> {
    Map::new(|p: (int, int)| on_display(d, p) && in_rectangle(r, p), |p: (int, int)| c)
}

/// Drawing one more operation paints over what the others painted.
proof fn lemma_paint_push<C>(
    d: Size,
    ink: spec_fn(ZxColor) -> C,
    glyphs: spec_fn(Seq<char>, Point, Font, TextAnchor) -> Set<(int, int)>,
    bitmap: spec_fn(Picture) -> Map<(int, int), C>,
    ops: Seq<DrawOp>,
    op: DrawOp,
)
    ensures
        paint(d, ink, glyphs, bitmap, ops.push(op))
            == paint(d, ink, glyphs, bitmap, ops).union_prefer_right(op_paint(d, ink, glyphs, bitmap, op)),
{
    assert(ops.push(op).drop_last() =~= ops);
}

/// The date area, where the date panel paints white.
pub open spec fn date_area() -> Rectangle {
    Rectangle { top_left: Point { x: 0, y: 0 }, size: Size { width: 170, height: 30 } }
}

/// The temperature area, where the measurement panels paint white first.
pub open spec fn temperature_area(d: Size) -> Rectangle {
    Rectangle { top_left: Point { x: (signed_width(d) - 80) as i32, y: 0 }, size: Size { width: 80, height: 45 } }
}

/// With empty texts, the date panel and the measurement panels paint their
/// areas white on the display and leave every other pixel as it was.
pub proof fn lemma_empty_texts_paint_only_white_areas<C>(
    d: Size,
    ink: spec_fn(ZxColor) -> C,
    glyphs: spec_fn(Seq<char>, Point, Font, TextAnchor) -> Set<(int, int)>,
    bitmap: spec_fn(Picture) -> Map<(int, int), C>,
    date: String,
    temperature: String,
    humidity: String,
    has_data: bool,
    screen: Map<(int, int), C>,
)
    requires
        date@.len() == 0,
        temperature@.len() == 0,
        humidity@.len() == 0,
    ensures
        draw(d, ink, glyphs, bitmap, date_panel_ops(date), screen)
            == screen.union_prefer_right(filled(d, date_area(), ink(ZxColor::White))),
        draw(d, ink, glyphs, bitmap, measurements_panel_ops(d, temperature, humidity, has_data), screen)
            == screen.union_prefer_right(filled(d, temperature_area(d), ink(ZxColor::White)))
                .union_prefer_right(filled(d, humidity_area(d), ink(ZxColor::White))),
{
    let e = Map::<(int, int), C>::empty();
    let none = Seq::<DrawOp>::empty();
    assert(paint(d, ink, glyphs, bitmap, none) == e);

    let date_ops = date_panel_ops(date);
    assert(date_ops =~= none.push(date_ops[0]).push(date_ops[1]));
    lemma_paint_push(d, ink, glyphs, bitmap, none, date_ops[0]);
    lemma_paint_push(d, ink, glyphs, bitmap, none.push(date_ops[0]), date_ops[1]);
    lemma_draw_is_overlay(d, ink, glyphs, bitmap, date_ops, screen);
    assert(paint(d, ink, glyphs, bitmap, date_ops) =~= filled(d, date_area(), ink(ZxColor::White)));

    let m = measurements_panel_ops(d, temperature, humidity, has_data);
    let m1 = none.push(m[0]);
    let m2 = m1.push(m[1]);
    let m3 = m2.push(m[2]);
    assert(m =~= m3.push(m[3]));
    lemma_paint_push(d, ink, glyphs, bitmap, none, m[0]);
    lemma_paint_push(d, ink, glyphs, bitmap, m1, m[1]);
    lemma_paint_push(d, ink, glyphs, bitmap, m2, m[2]);
    lemma_paint_push(d, ink, glyphs, bitmap, m3, m[3]);
    lemma_draw_is_overlay(d, ink, glyphs, bitmap, m, screen);
    let t = filled(d, temperature_area(d), ink(ZxColor::White));
    let h = filled(d, humidity_area(d), ink(ZxColor::White));
    assert(paint(d, ink, glyphs, bitmap, m) =~= t.union_prefer_right(h));
    assert(screen.union_prefer_right(t.union_prefer_right(h)) =~= screen.union_prefer_right(t).union_prefer_right(h));
}

} // verus!
