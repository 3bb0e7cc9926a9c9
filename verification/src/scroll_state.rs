//! The scroll engine: a two-dimensional offset over a content area, viewed
//! through a page, with saturating clamped scrolling and scrollbar
//! geometry.
//!
//! The clamping invariant: on each axis the offset always lands in
//! `[0, max(0, content - page)]` after a scroll operation, never wraps and
//! never passes the content end.  Scrollbar geometry is computed in exact
//! integer arithmetic: the thumb length is proportional to `page / content`
//! (floored at one cell) and its position proportional to
//! `offset / (content - page)`, interpolated into the track.

use vstd::prelude::*;
use vstd::arithmetic::div_mod::{
    lemma_div_is_ordered,
    lemma_div_multiples_vanish_fancy,
    lemma_div_pos_is_pos,
};
use vstd::arithmetic::mul::lemma_mul_inequality;
use crate::geom::{Position, Rect, Size};
use crate::event::{KeyModifiers, MouseInput, MouseKind};

verus! {

/// Scroll quantum for an unmodified wheel tick.
pub const NORMAL_SCROLL_COUNT: u16 = 1;

/// Scroll quantum for an alt-modified wheel tick: the fixed "large step",
/// bigger than a unit, smaller than a page.
pub const FAST_SCROLL_COUNT: u16 = 5;

/// A scrollbar: the track it occupies and the thumb drawn on it.
#[derive(Clone, Copy, Debug, PartialEq, Eq, Structural)]
pub struct ScrollBar {
    pub bar: Rect,
    pub thumb: Rect,
}

impl ScrollBar {
    /// Swap the axes of both rectangles.
    pub fn transpose(&self) -> (r: ScrollBar)
        ensures
            r.bar == self.bar.spec_transpose(),
            r.thumb == self.thumb.spec_transpose(),
    {
        ScrollBar { bar: self.bar.transpose(), thumb: self.thumb.transpose() }
    }
}

/// `num / den`, rounded half up.
pub open spec fn ratio_round(num: int, den: int) -> int {
    (2 * num + den) / (2 * den)
}

/// Thumb length for a track of `page` cells over `content` cells:
/// proportional to `page / content`, clipped to the track, floored at one
/// cell so it never disappears.
pub open spec fn spec_thumb_extent(page: int, content: int) -> int {
    let raw = ratio_round(page * page, content);
    let clipped = if raw > page {
        page
    } else {
        raw
    };
    if clipped < 1 {
        1
    } else {
        clipped
    }
}

/// Thumb position within a track of `page` cells over `content` cells, for
/// a clamped `offset`: proportional to `offset / (content - page)`,
/// interpolated into the part of the track the thumb can still move over.
pub open spec fn spec_thumb_position(offset: int, page: int, content: int) -> int {
    let max_off = content - page;
    let off = if offset > max_off {
        max_off
    } else {
        offset
    };
    ratio_round(off * (page - spec_thumb_extent(page, content)), max_off)
}

/// The vertical scrollbar geometry for `rect` over `content_h` rows
/// scrolled to `offset_y`: a one-cell-wide track on the right edge, with
/// the thumb placed and sized by the rules above.
pub open spec fn vertical_bar_ok(sb: ScrollBar, rect: Rect, offset_y: int, content_h: int) -> bool {
    &&& sb.bar.x == sb.thumb.x
    &&& sb.bar.x as int == if rect.x + rect.width >= 1 {
        rect.x + rect.width - 1
    } else {
        0
    }
    &&& sb.bar.y == rect.y
    &&& sb.bar.width == 1 && sb.thumb.width == 1
    &&& sb.bar.height == rect.height
    &&& sb.thumb.height as int == spec_thumb_extent(rect.height as int, content_h)
    &&& sb.thumb.y as int == rect.y + spec_thumb_position(offset_y, rect.height as int, content_h)
}

/// The scrollbars a pane shows: one per axis whose content extent exceeds
/// a non-zero page extent — the vertical one directly, the horizontal one
/// as the transposed vertical geometry — and none otherwise.
pub open spec fn scroll_bars_ok(
    bars: (Option<ScrollBar>, Option<ScrollBar>),
    rect: Rect,
    offset: Position,
    content_size: Size,
) -> bool {
    &&& (bars.0 is Some <==> 1 <= rect.height < content_size.height)
    &&& (bars.1 is Some <==> 1 <= rect.width < content_size.width)
    &&& (bars.0 matches Some(sb) ==> vertical_bar_ok(
        sb,
        rect,
        offset.y as int,
        content_size.height as int,
    ))
    &&& (bars.1 matches Some(sb) ==> vertical_bar_ok(
        ScrollBar { bar: sb.bar.spec_transpose(), thumb: sb.thumb.spec_transpose() },
        rect.spec_transpose(),
        offset.x as int,
        content_size.width as int,
    ))
}

/// Rounding `num / den` stays within `[0, q]` whenever `num <= den * q`.
proof fn lemma_ratio_round_le(num: int, den: int, q: int)
    requires
        den > 0,
        0 <= q,
        0 <= num <= den * q,
    ensures
        0 <= ratio_round(num, den) <= q,
{
    assert(2 * num + den > 0);
    lemma_div_pos_is_pos(2 * num + den, 2 * den);
    assert(2 * num + den <= 2 * den * q + den) by {
        lemma_mul_inequality(num, den * q, 2);
        assert(2 * (den * q) == 2 * den * q) by (nonlinear_arith);
        assert(num * 2 == 2 * num) by (nonlinear_arith);
        assert((den * q) * 2 == 2 * (den * q)) by (nonlinear_arith);
    }
    lemma_div_is_ordered(2 * num + den, 2 * den * q + den, 2 * den);
    assert((2 * den * q + den) / (2 * den) == q) by {
        lemma_div_multiples_vanish_fancy(q, den, 2 * den);
        assert(2 * den * q == (2 * den) * q) by (nonlinear_arith);
    }
}

/// `num / den` rounded half up, in machine arithmetic.
fn ratio_round_u64(num: u64, den: u64) -> (r: u64)
    requires
        0 < den <= 0xffff_ffff,
        num <= 0xffff_ffff_ffff,
    ensures
        r == ratio_round(num as int, den as int),
{
    (2 * num + den) / (2 * den)
}

/// One axis of a clamped decrement: move `count` toward zero, saturating at
/// zero, then clamp to `max` so a stale offset re-enters bounds.
pub open spec fn dec_clamped(cur: int, count: int, max: int) -> int {
    let moved = if cur >= count {
        cur - count
    } else {
        0
    };
    if moved <= max {
        moved
    } else {
        max
    }
}

/// One axis of a clamped increment: move `count` toward the end, saturating
/// at `max`.
pub open spec fn inc_clamped(cur: int, count: int, max: int) -> int {
    let moved = cur + count;
    if moved <= max {
        moved
    } else {
        max
    }
}

/// A scroll operation on one axis, by a cell count.
#[derive(Clone, Copy, Debug, PartialEq, Eq, Structural)]
pub enum ScrollOp {
    Up(u16),
    Down(u16),
    Left(u16),
    Right(u16),
}

/// Scroll position over a content area seen through a page.
#[derive(Clone, Copy, Debug, PartialEq, Eq, Structural)]
pub struct ScrollState {
    pub offset: Position,
    pub content_size: Size,
    pub page_size: Size,
}

impl ScrollState {
    /// Largest legal row offset: `max(0, content height - page height)`.
    pub open spec fn spec_max_offset_y(self) -> int {
        if self.content_size.height >= self.page_size.height {
            self.content_size.height - self.page_size.height
        } else {
            0
        }
    }

    /// Largest legal column offset: `max(0, content width - page width)`.
    pub open spec fn spec_max_offset_x(self) -> int {
        if self.content_size.width >= self.page_size.width {
            self.content_size.width - self.page_size.width
        } else {
            0
        }
    }

    /// The clamping invariant on both axes.
    pub open spec fn in_bounds(self) -> bool {
        &&& self.offset.x <= self.spec_max_offset_x()
        &&& self.offset.y <= self.spec_max_offset_y()
    }

    /// The state a scroll operation leads to.
    pub open spec fn after_scroll_op(self, op: ScrollOp) -> ScrollState {
        match op {
            ScrollOp::Up(count) => ScrollState {
                offset: Position {
                    x: self.offset.x,
                    y: dec_clamped(
                        self.offset.y as int,
                        count as int,
                        self.spec_max_offset_y(),
                    ) as u16,
                },
                ..self
            },
            ScrollOp::Down(count) => ScrollState {
                offset: Position {
                    x: self.offset.x,
                    y: inc_clamped(
                        self.offset.y as int,
                        count as int,
                        self.spec_max_offset_y(),
                    ) as u16,
                },
                ..self
            },
            ScrollOp::Left(count) => ScrollState {
                offset: Position {
                    x: dec_clamped(
                        self.offset.x as int,
                        count as int,
                        self.spec_max_offset_x(),
                    ) as u16,
                    y: self.offset.y,
                },
                ..self
            },
            ScrollOp::Right(count) => ScrollState {
                offset: Position {
                    x: inc_clamped(
                        self.offset.x as int,
                        count as int,
                        self.spec_max_offset_x(),
                    ) as u16,
                    y: self.offset.y,
                },
                ..self
            },
        }
    }

    pub fn new(content_size: Size) -> (st: ScrollState)
        ensures
            st.offset == (Position { x: 0u16, y: 0u16 }),
            st.content_size == content_size,
            st.page_size == (Size { width: 1u16, height: 1u16 }),
            st.in_bounds(),
    {
        ScrollState {
            offset: Position { x: 0, y: 0 },
            content_size,
            page_size: Size { width: 1, height: 1 },
        }
    }

    pub fn offset(&self) -> (p: Position)
        ensures
            p == self.offset,
    {
        self.offset
    }

    /// Replace the raw offset; used to carry a scroll position across a
    /// content replacement.  No reclamping happens here.
    pub fn set_offset(&mut self, offset: Position)
        ensures
            *final(self) == (ScrollState { offset, ..*old(self) }),
    {
        self.offset = offset;
    }

    /// Record new viewport dimensions.  The offset is not reclamped here;
    /// the next scroll operation reclamps it.
    pub fn set_page_size(&mut self, page_size: Size)
        ensures
            *final(self) == (ScrollState { page_size, ..*old(self) }),
    {
        self.page_size = page_size;
    }

    pub fn max_offset_y(&self) -> (m: u16)
        ensures
            m == self.spec_max_offset_y(),
    {
        if self.content_size.height >= self.page_size.height {
            self.content_size.height - self.page_size.height
        } else {
            0
        }
    }

    pub fn max_offset_x(&self) -> (m: u16)
        ensures
            m == self.spec_max_offset_x(),
    {
        if self.content_size.width >= self.page_size.width {
            self.content_size.width - self.page_size.width
        } else {
            0
        }
    }

    pub fn scroll_up(&mut self, count: u16)
        ensures
            *final(self) == old(self).after_scroll_op(ScrollOp::Up(count)),
            final(self).offset.y <= old(self).spec_max_offset_y(),
    {
        let max_y = self.max_offset_y();
        let moved = if self.offset.y >= count {
            self.offset.y - count
        } else {
            0
        };
        self.offset.y = if moved <= max_y {
            moved
        } else {
            max_y
        };
    }

    pub fn scroll_down(&mut self, count: u16)
        ensures
            *final(self) == old(self).after_scroll_op(ScrollOp::Down(count)),
            final(self).offset.y <= old(self).spec_max_offset_y(),
    {
        let max_y = self.max_offset_y();
        let moved = self.offset.y as u32 + count as u32;
        self.offset.y = if moved <= max_y as u32 {
            moved as u16
        } else {
            max_y
        };
    }

    pub fn scroll_left(&mut self, count: u16)
        ensures
            *final(self) == old(self).after_scroll_op(ScrollOp::Left(count)),
            final(self).offset.x <= old(self).spec_max_offset_x(),
    {
        let max_x = self.max_offset_x();
        let moved = if self.offset.x >= count {
            self.offset.x - count
        } else {
            0
        };
        self.offset.x = if moved <= max_x {
            moved
        } else {
            max_x
        };
    }

    pub fn scroll_right(&mut self, count: u16)
        ensures
            *final(self) == old(self).after_scroll_op(ScrollOp::Right(count)),
            final(self).offset.x <= old(self).spec_max_offset_x(),
    {
        let max_x = self.max_offset_x();
        let moved = self.offset.x as u32 + count as u32;
        self.offset.x = if moved <= max_x as u32 {
            moved as u16
        } else {
            max_x
        };
    }

    /// The scroll operation a mouse event maps to, if any: the wheel
    /// direction picks the axis, the modifiers the quantum — a page with
    /// exactly control held, the large step with exactly alt held, one cell
    /// otherwise.
    pub open spec fn spec_mouse_op(self, ev: MouseInput) -> Option<ScrollOp> {
        let vertical_count: u16 = if ev.modifiers.is_control_only() {
            self.page_size.height
        } else if ev.modifiers.is_alt_only() {
            FAST_SCROLL_COUNT
        } else {
            NORMAL_SCROLL_COUNT
        };
        let horizontal_count: u16 = if ev.modifiers.is_control_only() {
            self.page_size.width
        } else if ev.modifiers.is_alt_only() {
            FAST_SCROLL_COUNT
        } else {
            NORMAL_SCROLL_COUNT
        };
        match ev.kind {
            MouseKind::ScrollUp => Some(ScrollOp::Up(vertical_count)),
            MouseKind::ScrollDown => Some(ScrollOp::Down(vertical_count)),
            MouseKind::ScrollLeft => Some(ScrollOp::Left(horizontal_count)),
            MouseKind::ScrollRight => Some(ScrollOp::Right(horizontal_count)),
            MouseKind::Other => None,
        }
    }

    /// Route a mouse event into a scroll operation; events that are not
    /// wheel ticks are ignored.
    pub fn handle_mouse_event(&mut self, ev: MouseInput)
        ensures
            *final(self) == match old(self).spec_mouse_op(ev) {
                Some(op) => old(self).after_scroll_op(op),
                None => *old(self),
            },
    {
        let count_y = if ev.modifiers.control && !ev.modifiers.shift && !ev.modifiers.alt {
            self.page_size.height
        } else if ev.modifiers.alt && !ev.modifiers.shift && !ev.modifiers.control {
            FAST_SCROLL_COUNT
        } else {
            NORMAL_SCROLL_COUNT
        };
        let count_x = if ev.modifiers.control && !ev.modifiers.shift && !ev.modifiers.alt {
            self.page_size.width
        } else if ev.modifiers.alt && !ev.modifiers.shift && !ev.modifiers.control {
            FAST_SCROLL_COUNT
        } else {
            NORMAL_SCROLL_COUNT
        };
        match ev.kind {
            MouseKind::ScrollUp => self.scroll_up(count_y),
            MouseKind::ScrollDown => self.scroll_down(count_y),
            MouseKind::ScrollLeft => self.scroll_left(count_x),
            MouseKind::ScrollRight => self.scroll_right(count_x),
            MouseKind::Other => (),
        }
    }

    /// The scrollbar of the vertical axis of `rect`, for a content `content_size`
    /// high, scrolled to `offset`.
    pub fn vertical_scroll_bar(rect: Rect, offset: Position, content_size: Size) -> (sb: ScrollBar)
        requires
            rect.height >= 1,
            content_size.height > rect.height,
            rect.x + rect.width <= u16::MAX,
            rect.y + rect.height <= u16::MAX,
        ensures
            sb.bar.x == sb.thumb.x,
            sb.bar.x as int == if rect.x + rect.width >= 1 {
                rect.x + rect.width - 1
            } else {
                0
            },
            sb.bar.y == rect.y,
            sb.bar.width == 1 && sb.thumb.width == 1,
            sb.bar.height == rect.height,
            sb.thumb.height as int == spec_thumb_extent(
                rect.height as int,
                content_size.height as int,
            ),
            sb.thumb.y as int == rect.y + spec_thumb_position(
                offset.y as int,
                rect.height as int,
                content_size.height as int,
            ),
            1 <= sb.thumb.height <= rect.height,
            rect.y <= sb.thumb.y,
            sb.thumb.y + sb.thumb.height <= rect.y + rect.height,
    {
        let p = rect.height as u64;
        let c = content_size.height as u64;
        proof {
            lemma_mul_inequality(p as int, c as int, p as int);
            assert((p as int) * (p as int) <= 0xffff * 0xffff) by (nonlinear_arith)
                requires
                    0 <= p <= 0xffff,
            ;
        }
        let raw = ratio_round_u64(p * p, c);
        proof {
            lemma_ratio_round_le((p * p) as int, c as int, p as int);
        }
        let clipped = if raw > p {
            p
        } else {
            raw
        };
        let extent = if clipped < 1 {
            1u64
        } else {
            clipped
        };
        let max_off = c - p;
        let off = if offset.y as u64 > max_off {
            max_off
        } else {
            offset.y as u64
        };
        proof {
            lemma_mul_inequality(off as int, max_off as int, (p - extent) as int);
            assert((off as int) * ((p - extent) as int) <= 0xffff * 0xffff) by (nonlinear_arith)
                requires
                    0 <= off <= 0xffff,
                    0 <= (p - extent) as int <= 0xffff,
            ;
        }
        let pos = ratio_round_u64(off * (p - extent), max_off);
        proof {
            lemma_ratio_round_le((off * (p - extent)) as int, max_off as int, (p - extent) as int);
        }
        let right = rect.x + rect.width;
        let bar_x = if right >= 1 {
            right - 1
        } else {
            0
        };
        let bar = Rect { x: bar_x, y: rect.y, width: 1, height: rect.height };
        let thumb = Rect {
            x: bar_x,
            y: rect.y + pos as u16,
            width: 1,
            height: extent as u16,
        };
        ScrollBar { bar, thumb }
    }

    /// The scrollbars to draw inside `rect`: a vertical one when the content
    /// is taller than the page, a horizontal one (the vertical geometry,
    /// transposed) when it is wider; none on an axis whose page extent is
    /// zero or whose content fits.
    pub fn render_scroll_bars(&self, rect: Rect) -> (bars: (Option<ScrollBar>, Option<ScrollBar>))
        requires
            rect.x + rect.width <= u16::MAX,
            rect.y + rect.height <= u16::MAX,
        ensures
            scroll_bars_ok(bars, rect, self.offset, self.content_size),
    {
        let vertical = if rect.height >= 1 && rect.height < self.content_size.height {
            Some(Self::vertical_scroll_bar(rect, self.offset, self.content_size))
        } else {
            None
        };
        let horizontal = if rect.width >= 1 && rect.width < self.content_size.width {
            Some(
                Self::vertical_scroll_bar(
                    rect.transpose(),
                    self.offset.transpose(),
                    self.content_size.transpose(),
                ).transpose(),
            )
        } else {
            None
        };
        (vertical, horizontal)
    }
}

/// The state after a whole sequence of scroll operations.
pub open spec fn after_scroll_ops(st: ScrollState, ops: Seq<ScrollOp>) -> ScrollState
    decreases ops.len(),
{
    if ops.len() == 0 {
        st
    } else {
        after_scroll_ops(st, ops.drop_last()).after_scroll_op(ops.last())
    }
}

/// Clamping invariant: starting from any state within bounds, every
/// sequence of scroll operations leaves the offset within
/// `[0, max(0, content - page)]` on both axes.
pub proof fn lemma_scroll_ops_stay_in_bounds(st: ScrollState, ops: Seq<ScrollOp>)
    requires
        st.in_bounds(),
    ensures
        after_scroll_ops(st, ops).in_bounds(),
    decreases ops.len(),
{
    if ops.len() > 0 {
        lemma_scroll_ops_stay_in_bounds(st, ops.drop_last());
    }
}

} // verus!
