//! Points, sizes and rectangles on the display, with the rectangle and point
//! arithmetic of `embedded-graphics`.

use vstd::prelude::*;

verus! {

/// A point on the display; `y` grows downwards.
#[derive(Clone, Copy, Debug, PartialEq, Eq, Structural)]
pub struct Point {
    pub x: i32,
    pub y: i32,
}

/// A size in pixels.
#[derive(Clone, Copy, Debug, PartialEq, Eq, Structural)]
pub struct Size {
    pub width: u32,
    pub height: u32,
}

/// A rectangle given by its top left corner and its size.
#[derive(Clone, Copy, Debug, PartialEq, Eq, Structural)]
pub struct Rectangle {
    pub top_left: Point,
    pub size: Size,
}

/// The offset from a rectangle's top left corner to its center along a side
/// of length `n`, rounded down.
pub open spec fn center_offset(n: u32) -> int {
    if n == 0 {
        0
    } else {
        (n - 1) / 2
    }
}

/// The rectangle of size `size` whose center is `center`: the top left corner
/// lies `center_offset` left of and above the center.
pub open spec fn rectangle_with_center_spec(center: Point, size: Size) -> Rectangle {
    Rectangle {
        top_left: Point {
            x: (center.x - center_offset(size.width)) as i32,
            y: (center.y - center_offset(size.height)) as i32,
        },
        size,
    }
}

/// The center of a rectangle, rounded up and to the left.
pub open spec fn rectangle_center_spec(r: Rectangle) -> Point {
    Point {
        x: (r.top_left.x + center_offset(r.size.width)) as i32,
        y: (r.top_left.y + center_offset(r.size.height)) as i32,
    }
}

/// Whether the point `p` is one of the pixels of `r`.
pub open spec fn rectangle_contains(r: Rectangle, p: Point) -> bool {
    &&& r.top_left.x <= p.x < r.top_left.x + r.size.width
    &&& r.top_left.y <= p.y < r.top_left.y + r.size.height
}

/// The bounding box of a display of the given size: its top left corner is the origin.
pub open spec fn bounding_box_spec(size: Size) -> Rectangle {
    Rectangle { top_left: Point { x: 0, y: 0 }, size }
}

/// The bounding box of a display of the given size.
pub fn bounding_box(size: Size) -> (r: Rectangle)
    ensures
        r == bounding_box_spec(size),
{
    Rectangle { top_left: Point { x: 0, y: 0 }, size }
}

/// Calls `embedded_graphics::primitives::Rectangle::with_center`, whose source
/// places the top left corner at the center less half the size less one
/// (saturating at zero), rounded down; the size is kept. The subtraction
/// cannot overflow under `requires`.
#[verifier::external_body]
pub(crate) fn eg_rectangle_with_center(center: Point, size: Size) -> (r: Rectangle)
    requires
        center.x - center_offset(size.width) >= i32::MIN,
        center.y - center_offset(size.height) >= i32::MIN,
    ensures
        r == rectangle_with_center_spec(center, size),
{
    let r = embedded_graphics::primitives::Rectangle::with_center(
        embedded_graphics::prelude::Point::new(center.x, center.y),
        embedded_graphics::prelude::Size::new(size.width, size.height),
    );
    Rectangle {
        top_left: Point { x: r.top_left.x, y: r.top_left.y },
        size: Size { width: r.size.width, height: r.size.height },
    }
}

/// Calls `embedded_graphics::primitives::Rectangle::center`, whose source adds
/// half the size less one (saturating at zero), rounded down, to the top left
/// corner. The addition cannot overflow under `requires`.
#[verifier::external_body]
pub(crate) fn eg_rectangle_center(r: Rectangle) -> (c: Point)
    requires
        r.top_left.x + center_offset(r.size.width) <= i32::MAX,
        r.top_left.y + center_offset(r.size.height) <= i32::MAX,
    ensures
        c == rectangle_center_spec(r),
{
    let rect = embedded_graphics::primitives::Rectangle::new(
        embedded_graphics::prelude::Point::new(r.top_left.x, r.top_left.y),
        embedded_graphics::prelude::Size::new(r.size.width, r.size.height),
    );
    let c = rect.center();
    Point { x: c.x, y: c.y }
}

/// Calls `Add<Size>` of `embedded_graphics::prelude::Point`, which moves the
/// point right by the width and down by the height. Its source asserts (in
/// debug builds) that both fit in `i32`, and the sums must not overflow.
#[verifier::external_body]
pub(crate) fn eg_point_add_size(p: Point, s: Size) -> (q: Point)
    requires
        s.width <= i32::MAX,
        s.height <= i32::MAX,
        p.x + s.width <= i32::MAX,
        p.y + s.height <= i32::MAX,
    ensures
        q.x == p.x + s.width,
        q.y == p.y + s.height,
{
    let q = embedded_graphics::prelude::Point::new(p.x, p.y)
        + embedded_graphics::prelude::Size::new(s.width, s.height);
    Point { x: q.x, y: q.y }
}

/// Calls `Sub<Size>` of `embedded_graphics::prelude::Point`, which moves the
/// point left by the width and up by the height. Its source asserts (in
/// debug builds) that both fit in `i32`, and the differences must not overflow.
#[verifier::external_body]
pub(crate) fn eg_point_sub_size(p: Point, s: Size) -> (q: Point)
    requires
        s.width <= i32::MAX,
        s.height <= i32::MAX,
        p.x - s.width >= i32::MIN,
        p.y - s.height >= i32::MIN,
    ensures
        q.x == p.x - s.width,
        q.y == p.y - s.height,
{
    let q = embedded_graphics::prelude::Point::new(p.x, p.y)
        - embedded_graphics::prelude::Size::new(s.width, s.height);
    Point { x: q.x, y: q.y }
}

} // verus!
