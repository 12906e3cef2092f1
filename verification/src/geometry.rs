use vstd::prelude::*;

verus! {

/// A pixel position on the display: `x` grows rightward, `y` downward.
/// Either coordinate may be negative, for drawings that start off-screen.
#[derive(Clone, Copy, PartialEq, Eq, Structural, Debug)]
pub struct Point {
    pub x: i32,
    pub y: i32,
}

/// A width and a height, in pixels.
#[derive(Clone, Copy, PartialEq, Eq, Structural, Debug)]
pub struct Dimensions {
    pub width: u32,
    pub height: u32,
}

/// An axis-aligned rectangle: a top-left corner and a size.
#[derive(Clone, Copy, PartialEq, Eq, Structural, Debug)]
pub struct Rect {
    pub top_left: Point,
    pub size: Dimensions,
}

/// The whole screen as one rectangle, for a full-screen clear.
pub fn full_screen_rect(screen: Dimensions) -> (r: Rect)
    ensures
        r.top_left == (Point { x: 0, y: 0 }),
        r.size == screen,
{
    Rect { top_left: Point { x: 0, y: 0 }, size: screen }
}

/// Where an image's top-left corner goes so that the image sits centered
/// on the screen: half the screen minus half the image, on each axis.
pub fn centered_top_left(screen: Dimensions, image: Dimensions) -> (p: Point)
    requires
        screen.width <= i32::MAX,
        screen.height <= i32::MAX,
        image.width <= i32::MAX,
        image.height <= i32::MAX,
    ensures
        p.x == screen.width as int / 2 - image.width as int / 2,
        p.y == screen.height as int / 2 - image.height as int / 2,
{
    let x: i32 = screen.width as i32 / 2 - image.width as i32 / 2;
    let y: i32 = screen.height as i32 / 2 - image.height as i32 / 2;
    Point { x, y }
}

} // verus!
