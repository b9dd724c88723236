//! Points and rectangles on the screen.

use vstd::prelude::*;

verus! {

#[derive(Clone, Copy, Debug, PartialEq, Eq, Structural)]
pub struct Point {
    pub x: i32,
    pub y: i32,
}

/// A rectangle: its top-left corner and its size. `Rect::new` and the
/// setters make it as the window system does: never empty (a zero size
/// counts as one), its values within half the `i32` range.
#[derive(Clone, Copy, Debug, PartialEq, Eq, Structural)]
pub struct Rect {
    pub x: i32,
    pub y: i32,
    pub width: u32,
    pub height: u32,
}

/// `v` pulled into the range of an `i32`.
pub open spec fn clamp_i32(v: int) -> i32 {
    if v < i32::MIN {
        i32::MIN
    } else if v > i32::MAX {
        i32::MAX
    } else {
        v as i32
    }
}

/// `a + b`, held at the ends of the `i32` range.
pub fn add_clamped(a: i32, b: i64) -> (r: i32)
    ensures
        r == clamp_i32(a + b),
{
    let a64 = a as i64;
    if b > 0 && a64 > i32::MAX as i64 - b {
        i32::MAX
    } else if b < 0 && a64 < i32::MIN as i64 - b {
        i32::MIN
    } else {
        (a64 + b) as i32
    }
}

impl Point {
    pub fn new(x: i32, y: i32) -> (r: Self)
        ensures
            r == (Point { x, y }),
    {
        Point { x, y }
    }

    /// The point moved by `dx` and `dy`, held in the `i32` range.
    pub fn offset(&self, dx: i32, dy: i32) -> (r: Point)
        ensures
            r == (Point { x: clamp_i32(self.x + dx), y: clamp_i32(self.y + dy) }),
    {
        Point { x: add_clamped(self.x, dx as i64), y: add_clamped(self.y, dy as i64) }
    }
}

/// The largest size, and the largest coordinate, that a rectangle is made
/// with: half the `i32` range, so that its right and bottom edges stay in it.
pub const MAX_RECT_VALUE: u32 = 1073741823;

/// The smallest coordinate that a rectangle is made with.
pub const MIN_RECT_POSITION: i32 = -1073741824;

/// A size as a rectangle is made with it: never empty (a zero counts as
/// one) and at most `MAX_RECT_VALUE`.
pub open spec fn rect_size(v: u32) -> u32 {
    if v == 0 {
        1
    } else if v > MAX_RECT_VALUE {
        MAX_RECT_VALUE
    } else {
        v
    }
}

/// A coordinate as a rectangle is made with it: held between
/// `MIN_RECT_POSITION` and `MAX_RECT_VALUE`.
pub open spec fn rect_position(v: i32) -> i32 {
    if v > MAX_RECT_VALUE as i32 {
        MAX_RECT_VALUE as i32
    } else if v < MIN_RECT_POSITION {
        MIN_RECT_POSITION
    } else {
        v
    }
}

/// The rectangle that `Rect::new` makes of its arguments.
pub open spec fn new_rect(x: i32, y: i32, width: u32, height: u32) -> Rect {
    Rect { x: rect_position(x), y: rect_position(y), width: rect_size(width), height: rect_size(height) }
}

fn clamp_size(v: u32) -> (r: u32)
    ensures
        r == rect_size(v),
{
    if v == 0 {
        1
    } else if v > MAX_RECT_VALUE {
        MAX_RECT_VALUE
    } else {
        v
    }
}

fn clamp_position(v: i32) -> (r: i32)
    ensures
        r == rect_position(v),
{
    if v > MAX_RECT_VALUE as i32 {
        MAX_RECT_VALUE as i32
    } else if v < MIN_RECT_POSITION {
        MIN_RECT_POSITION
    } else {
        v
    }
}

impl Rect {
    /// A rectangle at `x`, `y` of the given size; as the window system makes
    /// them, it is never empty (a zero size counts as one) and its values are
    /// held within half the `i32` range.
    pub fn new(x: i32, y: i32, width: u32, height: u32) -> (r: Self)
        ensures
            r == new_rect(x, y, width, height),
    {
        Rect { x: clamp_position(x), y: clamp_position(y), width: clamp_size(width), height: clamp_size(height) }
    }

    /// Moves the left edge to `x`, held as `Rect::new` holds it.
    pub fn set_x(&mut self, x: i32)
        ensures
            *final(self) == (Rect { x: rect_position(x), ..*old(self) }),
    {
        self.x = clamp_position(x);
    }

    /// Moves the top edge to `y`, held as `Rect::new` holds it.
    pub fn set_y(&mut self, y: i32)
        ensures
            *final(self) == (Rect { y: rect_position(y), ..*old(self) }),
    {
        self.y = clamp_position(y);
    }

    /// Sets the width, never empty, as `Rect::new` does.
    pub fn set_width(&mut self, width: u32)
        ensures
            *final(self) == (Rect { width: rect_size(width), ..*old(self) }),
    {
        self.width = clamp_size(width);
    }

    /// Sets the height, never empty, as `Rect::new` does.
    pub fn set_height(&mut self, height: u32)
        ensures
            *final(self) == (Rect { height: rect_size(height), ..*old(self) }),
    {
        self.height = clamp_size(height);
    }

    pub fn top_left(&self) -> (r: Point)
        ensures
            r == (Point { x: self.x, y: self.y }),
    {
        Point { x: self.x, y: self.y }
    }

    /// The corner right of the rectangle on its top edge.
    pub fn top_right(&self) -> (r: Point)
        ensures
            r == (Point { x: clamp_i32(self.x + self.width), y: self.y }),
    {
        Point { x: add_clamped(self.x, self.width as i64), y: self.y }
    }

    pub open spec fn has_point(&self, p: Point) -> bool {
        &&& self.x <= p.x < self.x + self.width
        &&& self.y <= p.y < self.y + self.height
    }

    /// True when `p` lies in the rectangle (its right and bottom edges are
    /// outside).
    pub fn contains_point(&self, p: Point) -> (r: bool)
        ensures
            r == self.has_point(p),
    {
        let px = p.x as i64;
        let py = p.y as i64;
        self.x as i64 <= px && px < self.x as i64 + self.width as i64 && self.y as i64 <= py && py
            < self.y as i64 + self.height as i64
    }
}

/// The rectangle `d` moved by the point `p`, held in the `i32` range.
pub open spec fn moved_rect(p: Point, d: Rect) -> Rect {
    new_rect(clamp_i32(d.x + p.x), clamp_i32(d.y + p.y), d.width, d.height)
}

/// The rectangle `d` moved by the point `p`.
pub fn move_render_point(p: Point, d: &Rect) -> (r: Rect)
    ensures
        r == moved_rect(p, *d),
{
    Rect::new(add_clamped(d.x, p.x as i64), add_clamped(d.y, p.y as i64), d.width, d.height)
}

} // verus!
