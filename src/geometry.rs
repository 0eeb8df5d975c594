use vstd::prelude::*;

verus! {

/// A point in whole device pixels.
#[derive(Clone, Copy, Debug, PartialEq, Eq, Structural)]
pub struct Point {
    pub x: i32,
    pub y: i32,
}

/// An axis-aligned rectangle: its origin and its extent, in whole device pixels.
#[derive(Clone, Copy, Debug, PartialEq, Eq, Structural)]
pub struct Rectangle {
    pub x: i32,
    pub y: i32,
    pub width: u32,
    pub height: u32,
}

/// Space around the four sides of a widget.
#[derive(Clone, Copy, Debug, PartialEq, Eq, Structural)]
pub struct Thickness {
    pub left: u32,
    pub top: u32,
    pub right: u32,
    pub bottom: u32,
}

/// Size limits that layout respects for a widget.
#[derive(Clone, Copy, Debug, PartialEq, Eq, Structural)]
pub struct Constraint {
    pub min_width: u32,
    pub min_height: u32,
    pub max_width: u32,
    pub max_height: u32,
}

/// Whether a widget is drawn and takes part in hit-testing.
#[derive(Clone, Copy, Debug, PartialEq, Eq, Structural)]
pub enum Visibility {
    Visible,
    Hidden,
    Collapsed,
}

/// Raw id of the entity that holds the scrolled content.
#[derive(Clone, Copy, Debug, PartialEq, Eq, Structural)]
pub struct ContentId(pub u32);

impl Point {
    pub fn new(x: i32, y: i32) -> (r: Point)
        ensures
            r.x == x,
            r.y == y,
    {
        Point { x, y }
    }
}

impl Rectangle {
    pub fn new(x: i32, y: i32, width: u32, height: u32) -> (r: Rectangle)
        ensures
            r.x == x,
            r.y == y,
            r.width == width,
            r.height == height,
    {
        Rectangle { x, y, width, height }
    }
}

impl Thickness {
    pub fn new(left: u32, top: u32, right: u32, bottom: u32) -> (r: Thickness)
        ensures
            r.left == left,
            r.top == top,
            r.right == right,
            r.bottom == bottom,
    {
        Thickness { left, top, right, bottom }
    }

    /// The same space on every side.
    pub fn uniform(v: u32) -> (r: Thickness)
        ensures
            r == (Thickness { left: v, top: v, right: v, bottom: v }),
    {
        Thickness { left: v, top: v, right: v, bottom: v }
    }
}

impl Constraint {
    /// Only lower bounds; the upper bounds are left open.
    pub fn with_min(min_width: u32, min_height: u32) -> (r: Constraint)
        ensures
            r.min_width == min_width,
            r.min_height == min_height,
            r.max_width == u32::MAX,
            r.max_height == u32::MAX,
    {
        Constraint { min_width, min_height, max_width: u32::MAX, max_height: u32::MAX }
    }
}

} // verus!
