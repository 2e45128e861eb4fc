use vstd::prelude::*;

verus! {

/// A position in logical pixels.
#[derive(Debug, Clone, Copy, PartialEq, Eq, Structural)]
pub struct Point {
    pub x: i32,
    pub y: i32,
}

/// An extent in logical pixels.
#[derive(Debug, Clone, Copy, PartialEq, Eq, Structural)]
pub struct Size {
    pub width: i32,
    pub height: i32,
}

/// An axis-aligned rectangle: its top-left corner and its size.
#[derive(Debug, Clone, Copy, PartialEq, Eq, Structural)]
pub struct Rect {
    pub origin: Point,
    pub size: Size,
}

/// The rectangle with corner `(x, y)` and extent `width` by `height`.
pub open spec fn rect_of(x: i32, y: i32, width: i32, height: i32) -> Rect {
    Rect { origin: Point { x, y }, size: Size { width, height } }
}

impl Point {
    pub fn new(x: i32, y: i32) -> (p: Point)
        ensures
            p == (Point { x, y }),
    {
        Point { x, y }
    }
}

impl Rect {
    pub fn new(x: i32, y: i32, width: i32, height: i32) -> (r: Rect)
        ensures
            r == rect_of(x, y, width, height),
    {
        Rect { origin: Point { x, y }, size: Size { width, height } }
    }
}

} // verus!
