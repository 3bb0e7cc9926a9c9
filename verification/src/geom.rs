//! Plain geometry for the terminal grid: sizes, positions and rectangles
//! measured in character cells.  Horizontal scrollbar work reuses the
//! vertical code path by transposing the axes.

use vstd::prelude::*;

verus! {

/// Viewport or content dimensions, in cells.
#[derive(Clone, Copy, Debug, PartialEq, Eq, Structural)]
pub struct Size {
    pub width: u16,
    pub height: u16,
}

/// A cell coordinate: `x` is the column, `y` the row.
#[derive(Clone, Copy, Debug, PartialEq, Eq, Structural)]
pub struct Position {
    pub x: u16,
    pub y: u16,
}

/// `n` clipped into `u16` range.
pub open spec fn sat_u16(n: int) -> int {
    if n > 0xffff {
        0xffff
    } else {
        n
    }
}

/// An axis-aligned rectangle of cells.
#[derive(Clone, Copy, Debug, PartialEq, Eq, Structural)]
pub struct Rect {
    pub x: u16,
    pub y: u16,
    pub width: u16,
    pub height: u16,
}

/// Clip a count into `u16` range, saturating at the maximum.
pub fn to_u16_saturating(n: usize) -> (r: u16)
    ensures
        r == sat_u16(n as int),
{
    if n > 0xffff {
        0xffff
    } else {
        n as u16
    }
}

impl Size {
    /// Swap the axes.
    pub open spec fn spec_transpose(self) -> Size {
        Size { width: self.height, height: self.width }
    }

    /// Swap the axes.
    pub fn transpose(&self) -> (s: Size)
        ensures
            s == self.spec_transpose(),
    {
        Size { width: self.height, height: self.width }
    }
}

impl Position {
    /// Swap the axes.
    pub open spec fn spec_transpose(self) -> Position {
        Position { x: self.y, y: self.x }
    }

    /// Swap the axes.
    pub fn transpose(&self) -> (p: Position)
        ensures
            p == self.spec_transpose(),
    {
        Position { x: self.y, y: self.x }
    }
}

impl Rect {
    /// Whether `pos` lies inside the rectangle.
    pub open spec fn spec_contains(self, pos: Position) -> bool {
        &&& self.x <= pos.x < self.x + self.width
        &&& self.y <= pos.y < self.y + self.height
    }

    /// The extent, ignoring the origin.
    pub open spec fn spec_as_size(self) -> Size {
        Size { width: self.width, height: self.height }
    }

    pub fn as_size(&self) -> (s: Size)
        ensures
            s == self.spec_as_size(),
    {
        Size { width: self.width, height: self.height }
    }

    /// Swap the axes.
    pub open spec fn spec_transpose(self) -> Rect {
        Rect { x: self.y, y: self.x, width: self.height, height: self.width }
    }

    /// Swap the axes.
    pub fn transpose(&self) -> (r: Rect)
        ensures
            r == self.spec_transpose(),
    {
        Rect { x: self.y, y: self.x, width: self.height, height: self.width }
    }

    /// The rectangle one cell in from every side: the drawable area inside
    /// a border.  A rectangle too small for a border collapses to nothing.
    pub open spec fn spec_inner(self) -> Rect {
        if self.width >= 2 && self.height >= 2 {
            Rect {
                x: (self.x + 1) as u16,
                y: (self.y + 1) as u16,
                width: (self.width - 2) as u16,
                height: (self.height - 2) as u16,
            }
        } else {
            Rect { x: 0, y: 0, width: 0, height: 0 }
        }
    }

    /// Shrink by the one-cell border on every side.
    pub fn inner(&self) -> (r: Rect)
        requires
            self.x + self.width <= u16::MAX,
            self.y + self.height <= u16::MAX,
        ensures
            r == self.spec_inner(),
            r.x + r.width <= u16::MAX,
            r.y + r.height <= u16::MAX,
    {
        if self.width >= 2 && self.height >= 2 {
            Rect {
                x: self.x + 1,
                y: self.y + 1,
                width: self.width - 2,
                height: self.height - 2,
            }
        } else {
            Rect { x: 0, y: 0, width: 0, height: 0 }
        }
    }

    pub fn contains(&self, pos: Position) -> (b: bool)
        ensures
            b == self.spec_contains(pos),
    {
        self.x <= pos.x && (pos.x as u32) < self.x as u32 + self.width as u32 && self.y <= pos.y
            && (pos.y as u32) < self.y as u32 + self.height as u32
    }
}

} // verus!
