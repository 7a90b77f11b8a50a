//! Screen-space points, rectangles and pointer input, in whole units.

use vstd::prelude::*;

verus! {

/// An axis-aligned rectangle, bounds included.
#[derive(Clone, Copy, Debug, PartialEq, Eq, Structural)]
pub struct Rect {
    pub min_x: i64,
    pub min_y: i64,
    pub max_x: i64,
    pub max_y: i64,
}

impl Rect {
    pub open spec fn contains_spec(self, x: int, y: int) -> bool {
        self.min_x <= x <= self.max_x && self.min_y <= y <= self.max_y
    }

    /// Whether the rectangle has a positive width and height.
    pub open spec fn is_positive_spec(self) -> bool {
        self.min_x < self.max_x && self.min_y < self.max_y
    }

    /// The segment from `(x0, y0)` to `(x1, y1)`, grown by `rx` sideways and
    /// `ry` up and down.
    pub open spec fn around_spec(x0: i32, y0: i32, x1: i32, y1: i32, rx: u32, ry: u32) -> Rect {
        Rect {
            min_x: (x0 - rx) as i64,
            min_y: (y0 - ry) as i64,
            max_x: (x1 + rx) as i64,
            max_y: (y1 + ry) as i64,
        }
    }

    /// The segment from `(x0, y0)` to `(x1, y1)`, grown by `rx` sideways and
    /// `ry` up and down.
    pub fn around(x0: i32, y0: i32, x1: i32, y1: i32, rx: u32, ry: u32) -> (r: Rect)
        ensures
            r == Rect::around_spec(x0, y0, x1, y1, rx, ry),
    {
        Rect {
            min_x: x0 as i64 - rx as i64,
            min_y: y0 as i64 - ry as i64,
            max_x: x1 as i64 + rx as i64,
            max_y: y1 as i64 + ry as i64,
        }
    }

    /// Whether the point `(x, y)` lies in the rectangle.
    pub fn contains(&self, x: i32, y: i32) -> (r: bool)
        ensures
            r == self.contains_spec(x as int, y as int),
    {
        self.min_x <= x as i64 && x as i64 <= self.max_x && self.min_y <= y as i64 && y as i64
            <= self.max_y
    }

    /// Whether the rectangle has a positive width and height.
    pub fn is_positive(&self) -> (r: bool)
        ensures
            r == self.is_positive_spec(),
    {
        self.min_x < self.max_x && self.min_y < self.max_y
    }
}

/// A point on screen.
#[derive(Clone, Copy, Debug, PartialEq, Eq, Structural)]
pub struct Point {
    pub x: i32,
    pub y: i32,
}

/// What the pointer did this frame.
#[derive(Clone, Copy, Debug, PartialEq, Eq, Structural)]
pub struct PointerState {
    /// Hover position, when the pointer is over the window.
    pub pos: Option<Point>,
    /// The primary button is held.
    pub primary_down: bool,
    /// The primary button went down this frame.
    pub primary_pressed: bool,
    /// Some button is held or went down this frame.
    pub any_down: bool,
    /// Movement since the previous frame.
    pub delta_x: i32,
    pub delta_y: i32,
}

impl PointerState {
    /// Whether the pointer hovers inside `rect`.
    pub open spec fn in_rect(self, rect: Rect) -> bool {
        match self.pos {
            Some(p) => rect.contains_spec(p.x as int, p.y as int),
            None => false,
        }
    }

    /// Whether the pointer hovers inside `rect`.
    pub fn is_in(&self, rect: &Rect) -> (r: bool)
        ensures
            r == self.in_rect(*rect),
    {
        match self.pos {
            Some(p) => rect.contains(p.x, p.y),
            None => false,
        }
    }
}

} // verus!
