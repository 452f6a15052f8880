//! Points and rectangles on the drawing surface.
//!
//! Coordinates are kept within half of the `i32` range, and widths and
//! heights between 1 and half of `i32::MAX`, so that the far edge of a
//! rectangle, `x + width`, always fits an `i32`. Every operation that
//! could leave that range saturates at its nearest end.

use vstd::prelude::*;

verus! {

/// Largest coordinate that is kept as it is: half of `i32::MAX`.
pub const COORD_MAX: i32 = 1_073_741_823;

/// Smallest coordinate that is kept as it is: half of `i32::MIN`.
pub const COORD_MIN: i32 = -1_073_741_824;

/// Largest width or height that is kept as it is: half of `i32::MAX`.
pub const SIZE_MAX: u32 = 1_073_741_823;

/// The coordinate nearest to `v` in `COORD_MIN ..= COORD_MAX`.
pub open spec fn clamp_coordinate(v: int) -> int {
    if v > COORD_MAX {
        COORD_MAX as int
    } else if v < COORD_MIN {
        COORD_MIN as int
    } else {
        v
    }
}

/// The size that stands for a requested size `v`: an empty extent becomes
/// 1, and an extent above `SIZE_MAX` becomes `SIZE_MAX`.
pub open spec fn clamp_size(v: int) -> int {
    if v <= 0 {
        1
    } else if v > SIZE_MAX {
        SIZE_MAX as int
    } else {
        v
    }
}

fn coordinate_from(v: i64) -> (c: i32)
    ensures
        c == clamp_coordinate(v as int),
{
    if v > COORD_MAX as i64 {
        COORD_MAX
    } else if v < COORD_MIN as i64 {
        COORD_MIN
    } else {
        v as i32
    }
}

fn size_from(v: u32) -> (s: u32)
    ensures
        s == clamp_size(v as int),
{
    if v == 0 {
        1
    } else if v > SIZE_MAX {
        SIZE_MAX
    } else {
        v
    }
}

/// A point of the plane, in pixels.
#[derive(Clone, Copy, Debug, PartialEq, Eq, Structural)]
pub struct Position {
    pub x: i32,
    pub y: i32,
}

impl Position {
    /// Both coordinates lie in `COORD_MIN ..= COORD_MAX`.
    pub open spec fn in_bounds(self) -> bool {
        &&& COORD_MIN <= self.x <= COORD_MAX
        &&& COORD_MIN <= self.y <= COORD_MAX
    }

    /// The position in bounds nearest to `(x, y)`.
    pub open spec fn clamped(x: int, y: int) -> Position {
        Position { x: clamp_coordinate(x) as i32, y: clamp_coordinate(y) as i32 }
    }

    /// This position moved by `(dx, dy)`, saturating at the bounds.
    pub open spec fn shifted(self, dx: int, dy: int) -> Position {
        Position::clamped(self.x + dx, self.y + dy)
    }

    /// The position in bounds nearest to `(x, y)`.
    pub fn new(x: i32, y: i32) -> (p: Position)
        ensures
            p == Position::clamped(x as int, y as int),
            p.in_bounds(),
    {
        Position { x: coordinate_from(x as i64), y: coordinate_from(y as i64) }
    }

    /// Moves the position by `(dx, dy)`. A coordinate that would leave the
    /// bounds stops at the bound it crossed.
    pub fn offset(self, dx: i32, dy: i32) -> (p: Position)
        ensures
            p == self.shifted(dx as int, dy as int),
            p.in_bounds(),
    {
        let x: i64 = self.x as i64 + dx as i64;
        let y: i64 = self.y as i64 + dy as i64;
        Position { x: coordinate_from(x), y: coordinate_from(y) }
    }
}

/// An axis-aligned rectangle, given by its top left corner and its size.
#[derive(Clone, Copy, Debug, PartialEq, Eq, Structural)]
pub struct Rect {
    pub x: i32,
    pub y: i32,
    pub width: u32,
    pub height: u32,
}

impl Rect {
    /// The corner is in bounds and the rectangle is neither empty nor
    /// larger than `SIZE_MAX` in either extent.
    pub open spec fn wf(self) -> bool {
        &&& COORD_MIN <= self.x <= COORD_MAX
        &&& COORD_MIN <= self.y <= COORD_MAX
        &&& 1 <= self.width <= SIZE_MAX
        &&& 1 <= self.height <= SIZE_MAX
    }

    /// The well-formed rectangle nearest to the requested corner and size.
    pub open spec fn clamped(x: int, y: int, width: int, height: int) -> Rect {
        Rect {
            x: clamp_coordinate(x) as i32,
            y: clamp_coordinate(y) as i32,
            width: clamp_size(width) as u32,
            height: clamp_size(height) as u32,
        }
    }

    /// The rectangle of the requested size whose middle is `center`: its
    /// corner lies half the (clamped) size to the left of and above the
    /// (clamped) center, rounding the half down.
    pub open spec fn centered(center: Position, width: int, height: int) -> Rect {
        Rect {
            x: clamp_coordinate(clamp_coordinate(center.x as int) - clamp_size(width) / 2) as i32,
            y: clamp_coordinate(clamp_coordinate(center.y as int) - clamp_size(height) / 2) as i32,
            width: clamp_size(width) as u32,
            height: clamp_size(height) as u32,
        }
    }

    /// The point in the middle of the rectangle, rounding down.
    pub open spec fn center(self) -> (int, int) {
        (self.x + self.width / 2, self.y + self.height / 2)
    }

    /// A rectangle with its top left corner at `(x, y)`.
    pub fn new(x: i32, y: i32, width: u32, height: u32) -> (r: Rect)
        ensures
            r == Rect::clamped(x as int, y as int, width as int, height as int),
            r.wf(),
    {
        Rect {
            x: coordinate_from(x as i64),
            y: coordinate_from(y as i64),
            width: size_from(width),
            height: size_from(height),
        }
    }

    /// A rectangle with its middle at `center`.
    pub fn from_center(center: Position, width: u32, height: u32) -> (r: Rect)
        ensures
            r == Rect::centered(center, width as int, height as int),
            r.wf(),
    {
        let w: u32 = size_from(width);
        let h: u32 = size_from(height);
        let cx: i32 = coordinate_from(center.x as i64);
        let cy: i32 = coordinate_from(center.y as i64);
        Rect {
            x: coordinate_from(cx as i64 - (w / 2) as i64),
            y: coordinate_from(cy as i64 - (h / 2) as i64),
            width: w,
            height: h,
        }
    }
}

/// The far edges of a well-formed rectangle fit an `i32`.
pub proof fn lemma_rect_edges_fit(r: Rect)
    requires
        r.wf(),
    ensures
        r.x + r.width <= i32::MAX,
        r.y + r.height <= i32::MAX,
{
}

/// Centering is exact wherever nothing saturates: when the corner that
/// centering asks for is in bounds, the rectangle has the requested size
/// and its middle is the requested center.
pub proof fn lemma_centered_is_centered(center: Position, width: int, height: int)
    requires
        center.in_bounds(),
        1 <= width <= SIZE_MAX,
        1 <= height <= SIZE_MAX,
        COORD_MIN <= center.x - width / 2,
        COORD_MIN <= center.y - height / 2,
    ensures
        Rect::centered(center, width, height).width == width,
        Rect::centered(center, width, height).height == height,
        Rect::centered(center, width, height).center() == (center.x as int, center.y as int),
{
}

} // verus!
