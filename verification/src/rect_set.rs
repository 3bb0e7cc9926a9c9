//! The four panes of the layout: the input document, the transformed
//! output, and the two editable fields.
//!
//! The rectangles themselves come from the frontend's layout pass; the
//! library only records them and routes mouse events by containment, so
//! the routing decision is verified.

use vstd::prelude::*;
use crate::geom::Rect;

verus! {

/// Where each pane sits on the screen.
#[derive(Clone, Copy, Debug, PartialEq, Eq, Structural)]
pub struct RectSet {
    pub input: Rect,
    pub output: Rect,
    pub cli_flags: Rect,
    pub filter: Rect,
}

/// The rectangle stays within the cell grid on both axes.
pub open spec fn rect_bounded(r: Rect) -> bool {
    &&& r.x + r.width <= u16::MAX
    &&& r.y + r.height <= u16::MAX
}

impl RectSet {
    /// Every pane stays within the cell grid.
    pub open spec fn wf(self) -> bool {
        &&& rect_bounded(self.input)
        &&& rect_bounded(self.output)
        &&& rect_bounded(self.cli_flags)
        &&& rect_bounded(self.filter)
    }

    /// The layout before the first layout pass: everything empty.
    pub fn empty() -> (rs: RectSet)
        ensures
            rs.wf(),
            rs.input == (Rect { x: 0u16, y: 0u16, width: 0u16, height: 0u16 }),
            rs.output == (Rect { x: 0u16, y: 0u16, width: 0u16, height: 0u16 }),
            rs.cli_flags == (Rect { x: 0u16, y: 0u16, width: 0u16, height: 0u16 }),
            rs.filter == (Rect { x: 0u16, y: 0u16, width: 0u16, height: 0u16 }),
    {
        let zero = Rect { x: 0, y: 0, width: 0, height: 0 };
        RectSet { input: zero, output: zero, cli_flags: zero, filter: zero }
    }

    /// Adopt the four pane rectangles of a layout pass, clipping each
    /// width and height so the pane cannot leave the cell grid.  A
    /// rectangle that already fits is taken as it is.
    pub fn from_rects(input: Rect, output: Rect, cli_flags: Rect, filter: Rect) -> (rs: RectSet)
        ensures
            rs.wf(),
            rect_bounded(input) ==> rs.input == input,
            rect_bounded(output) ==> rs.output == output,
            rect_bounded(cli_flags) ==> rs.cli_flags == cli_flags,
            rect_bounded(filter) ==> rs.filter == filter,
    {
        RectSet {
            input: Self::clip(input),
            output: Self::clip(output),
            cli_flags: Self::clip(cli_flags),
            filter: Self::clip(filter),
        }
    }

    /// Clip a rectangle's extent to the cell grid.
    fn clip(r: Rect) -> (c: Rect)
        ensures
            rect_bounded(c),
            rect_bounded(r) ==> c == r,
    {
        let width = if r.width <= u16::MAX - r.x {
            r.width
        } else {
            u16::MAX - r.x
        };
        let height = if r.height <= u16::MAX - r.y {
            r.height
        } else {
            u16::MAX - r.y
        };
        Rect { x: r.x, y: r.y, width, height }
    }
}

} // verus!
