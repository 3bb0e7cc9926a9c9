//! A scrollable text pane: content accumulated line by line, addressed by
//! per-line character spans, scrolled by wheel events and clipped to a
//! viewport along grapheme-cluster boundaries.
//!
//! The pane owns its scroll offset, so a content replacement elsewhere can
//! carry the old offset over (see the reconciliation rule in
//! `jq_process`).

use vstd::prelude::*;
use crate::geom::{sat_u16, to_u16_saturating, Position, Rect, Size};
use crate::event::{KeyModifiers, MouseInput, MouseKind};
use crate::graphemes::{grapheme_count, graphemes_of};
use crate::lines::{span_texts, spans_valid, spec_window, window_lines, LineSpan};
use crate::scroll_state::{
    dec_clamped,
    inc_clamped,
    scroll_bars_ok,
    ScrollBar,
    ScrollState,
    FAST_SCROLL_COUNT,
    NORMAL_SCROLL_COUNT,
};

verus! {

/// `lines`, each terminated by a carriage return and a newline, as one
/// text.
pub open spec fn crlf_terminated(lines: Seq<Seq<char>>) -> Seq<char>
    decreases lines.len(),
{
    if lines.len() == 0 {
        Seq::empty()
    } else {
        crlf_terminated(lines.drop_last()) + lines.last() + seq!['\r', '\n']
    }
}

/// The tracked content width after pushing `lines` onto a pane that was
/// `width` wide: each line's grapheme count, clipped to `u16`, folded in
/// with the running maximum.
pub open spec fn max_width_from(width: int, lines: Seq<Seq<char>>) -> int
    decreases lines.len(),
{
    if lines.len() == 0 {
        width
    } else {
        let rest = max_width_from(width, lines.drop_last());
        let w = sat_u16(graphemes_of(lines.last()).len() as int);
        if w > rest {
            w
        } else {
            rest
        }
    }
}

/// The scroll quantum a wheel tick moves by: a page when control is among
/// the held modifiers, the fixed large step when alt is, one cell
/// otherwise.
pub open spec fn spec_scroll_count(modifiers: KeyModifiers, page_extent: u16) -> u16 {
    if modifiers.control {
        page_extent
    } else if modifiers.alt {
        FAST_SCROLL_COUNT
    } else {
        NORMAL_SCROLL_COUNT
    }
}

/// A scrollable text pane.
#[derive(Debug)]
pub struct ScrollView {
    pub content: String,
    pub line_spans: Vec<LineSpan>,
    pub offset: Position,
    pub page_size: Size,
    pub content_width: u16,
}

impl ScrollView {
    /// The spans address the content, and the content is exactly the
    /// pushed lines, each with its line ending.
    pub open spec fn wf(self) -> bool {
        &&& spans_valid(self.content@, self.line_spans@)
        &&& self.content@ == crlf_terminated(self.lines())
    }

    /// The pushed lines, as the spans address them.
    pub open spec fn lines(self) -> Seq<Seq<char>> {
        span_texts(self.content@, self.line_spans@)
    }

    /// Number of content rows, clipped to `u16`.
    pub open spec fn spec_content_height(self) -> int {
        sat_u16(self.lines().len() as int)
    }

    /// Largest legal row offset.
    pub open spec fn spec_max_offset_y(self) -> int {
        if self.spec_content_height() >= self.page_size.height {
            self.spec_content_height() - self.page_size.height
        } else {
            0
        }
    }

    /// Largest legal column offset.
    pub open spec fn spec_max_offset_x(self) -> int {
        if self.content_width >= self.page_size.width {
            self.content_width - self.page_size.width
        } else {
            0
        }
    }

    pub fn new() -> (v: ScrollView)
        ensures
            v.wf(),
            v.content@ == Seq::<char>::empty(),
            v.lines() == Seq::<Seq<char>>::empty(),
            v.offset == (Position { x: 0u16, y: 0u16 }),
            v.page_size == (Size { width: 0u16, height: 0u16 }),
            v.content_width == 0u16,
    {
        let v = ScrollView {
            content: String::new(),
            line_spans: Vec::new(),
            offset: Position { x: 0, y: 0 },
            page_size: Size { width: 0, height: 0 },
            content_width: 0,
        };
        proof {
            assert(v.lines() =~= Seq::<Seq<char>>::empty());
        }
        v
    }

    pub fn content_height(&self) -> (h: u16)
        ensures
            h == self.spec_content_height(),
    {
        to_u16_saturating(self.line_spans.len())
    }

    pub fn content_size(&self) -> (s: Size)
        ensures
            s.width == self.content_width,
            s.height == self.spec_content_height(),
    {
        Size { width: self.content_width, height: self.content_height() }
    }

    pub fn max_offset_y(&self) -> (m: u16)
        ensures
            m == self.spec_max_offset_y(),
    {
        let h = self.content_height();
        if h >= self.page_size.height {
            h - self.page_size.height
        } else {
            0
        }
    }

    pub fn max_offset_x(&self) -> (m: u16)
        ensures
            m == self.spec_max_offset_x(),
    {
        if self.content_width >= self.page_size.width {
            self.content_width - self.page_size.width
        } else {
            0
        }
    }

    pub fn content(&self) -> (s: &str)
        ensures
            s@ == self.content@,
    {
        self.content.as_str()
    }

    pub fn offset(&self) -> (p: Position)
        ensures
            p == self.offset,
    {
        self.offset
    }

    /// Replace the raw offset; used to carry a scroll position across a
    /// content replacement.
    pub fn set_offset(&mut self, offset: Position)
        ensures
            *final(self) == (ScrollView { offset, ..*old(self) }),
    {
        self.offset = offset;
    }

    /// Append one line to the content, record its span and widen the
    /// tracked content width to it if needed.
    pub fn push_line(&mut self, line: &str)
        requires
            old(self).wf(),
        ensures
            final(self).wf(),
            final(self).lines() == old(self).lines().push(line@),
            final(self).content@ == old(self).content@ + line@ + seq!['\r', '\n'],
            final(self).content_width as int == if sat_u16(graphemes_of(line@).len() as int)
                > old(self).content_width as int {
                sat_u16(graphemes_of(line@).len() as int)
            } else {
                old(self).content_width as int
            },
            final(self).offset == old(self).offset,
            final(self).page_size == old(self).page_size,
    {
        let width = to_u16_saturating(grapheme_count(line));
        if width > self.content_width {
            self.content_width = width;
        }
        let start = self.content.unicode_len();
        self.content.append(line);
        let end = self.content.unicode_len();
        self.content.append("\r\n");
        let ghost old_spans = self.line_spans@;
        let ghost old_lines = old(self).lines();
        self.line_spans.push(LineSpan { start, end });
        proof {
            reveal_strlit("\r\n");
            assert("\r\n"@ =~= seq!['\r', '\n']);
            assert(self.content@ =~= old(self).content@ + line@ + seq!['\r', '\n']);
            assert forall|k: int| 0 <= k < old_spans.len() implies self.content@.subrange(
                old_spans[k].start as int,
                old_spans[k].end as int,
            ) == old(self).content@.subrange(
                old_spans[k].start as int,
                old_spans[k].end as int,
            ) by {
                assert(self.content@.subrange(old_spans[k].start as int, old_spans[k].end as int)
                    =~= old(self).content@.subrange(
                    old_spans[k].start as int,
                    old_spans[k].end as int,
                ));
            }
            assert(self.content@.subrange(start as int, end as int) =~= line@);
            assert(self.lines() =~= old_lines.push(line@));
            assert(crlf_terminated(self.lines()) == crlf_terminated(old_lines.push(line@)));
            assert(old_lines.push(line@).drop_last() =~= old_lines);
            assert(crlf_terminated(old_lines.push(line@)) =~= crlf_terminated(old_lines) + line@
                + seq!['\r', '\n']);
        }
    }

    /// Append each of `lines` in order.
    pub fn extend(&mut self, lines: &Vec<String>)
        requires
            old(self).wf(),
        ensures
            final(self).wf(),
            final(self).lines() == old(self).lines() + lines@.map_values(|l: String| l@),
            final(self).offset == old(self).offset,
            final(self).page_size == old(self).page_size,
            final(self).content_width as int == max_width_from(
                old(self).content_width as int,
                lines@.map_values(|l: String| l@),
            ),
    {
        let ghost added = lines@.map_values(|l: String| l@);
        let mut i: usize = 0;
        proof {
            assert(old(self).lines() + added.take(0) =~= old(self).lines());
            assert(added.take(0) =~= Seq::<Seq<char>>::empty());
        }
        while i < lines.len()
            invariant
                i <= lines@.len(),
                added == lines@.map_values(|l: String| l@),
                self.wf(),
                self.lines() == old(self).lines() + added.take(i as int),
                self.offset == old(self).offset,
                self.page_size == old(self).page_size,
                self.content_width as int == max_width_from(
                    old(self).content_width as int,
                    added.take(i as int),
                ),
            decreases lines@.len() - i,
        {
            self.push_line(lines[i].as_str());
            proof {
                assert(added.take(i + 1) =~= added.take(i as int).push(added[i as int]));
                assert(old(self).lines() + added.take(i + 1) =~= (old(self).lines() + added.take(
                    i as int,
                )).push(added[i as int]));
                assert(added.take(i + 1).drop_last() =~= added.take(i as int));
            }
            i = i + 1;
        }
        proof {
            assert(added.take(lines@.len() as int) =~= added);
        }
    }

    /// Build a pane from a list of lines.
    pub fn from_lines(lines: &Vec<String>) -> (v: ScrollView)
        ensures
            v.wf(),
            v.lines() == lines@.map_values(|l: String| l@),
            v.offset == (Position { x: 0u16, y: 0u16 }),
            v.page_size == (Size { width: 0u16, height: 0u16 }),
            v.content_width as int == max_width_from(0, lines@.map_values(|l: String| l@)),
    {
        let mut v = Self::new();
        v.extend(lines);
        proof {
            assert(Seq::<Seq<char>>::empty() + lines@.map_values(|l: String| l@) =~= lines@
                .map_values(|l: String| l@));
        }
        v
    }

    /// Hand the accumulated content out and reset the pane to empty.
    pub fn take_content(&mut self) -> (content: String)
        requires
            old(self).wf(),
        ensures
            content@ == old(self).content@,
            final(self).wf(),
            final(self).lines() == Seq::<Seq<char>>::empty(),
            final(self).content@ == Seq::<char>::empty(),
            final(self).offset == (Position { x: 0u16, y: 0u16 }),
            final(self).page_size == (Size { width: 0u16, height: 0u16 }),
            final(self).content_width == 0u16,
    {
        let mut content = String::new();
        core::mem::swap(&mut content, &mut self.content);
        self.line_spans = Vec::new();
        self.offset = Position { x: 0, y: 0 };
        self.page_size = Size { width: 0, height: 0 };
        self.content_width = 0;
        proof {
            assert(self.lines() =~= Seq::<Seq<char>>::empty());
        }
        content
    }

    /// The offset a wheel event scrolls this pane to: the wheel picks the
    /// axis and direction, the modifiers the quantum; other events leave
    /// the offset alone.
    pub open spec fn spec_wheel_offset(self, ev: MouseInput) -> Position {
        match ev.kind {
            MouseKind::ScrollUp => Position {
                x: self.offset.x,
                y: dec_clamped(
                    self.offset.y as int,
                    spec_scroll_count(ev.modifiers, self.page_size.height) as int,
                    self.spec_max_offset_y(),
                ) as u16,
            },
            MouseKind::ScrollDown => Position {
                x: self.offset.x,
                y: inc_clamped(
                    self.offset.y as int,
                    spec_scroll_count(ev.modifiers, self.page_size.height) as int,
                    self.spec_max_offset_y(),
                ) as u16,
            },
            MouseKind::ScrollLeft => Position {
                x: dec_clamped(
                    self.offset.x as int,
                    spec_scroll_count(ev.modifiers, self.page_size.width) as int,
                    self.spec_max_offset_x(),
                ) as u16,
                y: self.offset.y,
            },
            MouseKind::ScrollRight => Position {
                x: inc_clamped(
                    self.offset.x as int,
                    spec_scroll_count(ev.modifiers, self.page_size.width) as int,
                    self.spec_max_offset_x(),
                ) as u16,
                y: self.offset.y,
            },
            MouseKind::Other => self.offset,
        }
    }

    /// The clamping invariant on both axes.
    pub open spec fn in_bounds(self) -> bool {
        &&& self.offset.x <= self.spec_max_offset_x()
        &&& self.offset.y <= self.spec_max_offset_y()
    }

    /// The quantum a wheel tick scrolls by, from the held modifiers.
    pub fn scroll_count(modifiers: KeyModifiers, page_extent: u16) -> (count: u16)
        ensures
            count == spec_scroll_count(modifiers, page_extent),
    {
        if modifiers.control {
            page_extent
        } else if modifiers.alt {
            FAST_SCROLL_COUNT
        } else {
            NORMAL_SCROLL_COUNT
        }
    }

    pub fn scroll_up(&mut self, modifiers: KeyModifiers)
        ensures
            *final(self) == (ScrollView {
                offset: Position {
                    x: old(self).offset.x,
                    y: dec_clamped(
                        old(self).offset.y as int,
                        spec_scroll_count(modifiers, old(self).page_size.height) as int,
                        old(self).spec_max_offset_y(),
                    ) as u16,
                },
                ..*old(self)
            }),
    {
        let count = Self::scroll_count(modifiers, self.page_size.height);
        let max_y = self.max_offset_y();
        let moved = if self.offset.y >= count {
            self.offset.y - count
        } else {
            0
        };
        self.offset.y = if moved <= max_y {
            moved
        } else {
            max_y
        };
    }

    pub fn scroll_down(&mut self, modifiers: KeyModifiers)
        ensures
            *final(self) == (ScrollView {
                offset: Position {
                    x: old(self).offset.x,
                    y: inc_clamped(
                        old(self).offset.y as int,
                        spec_scroll_count(modifiers, old(self).page_size.height) as int,
                        old(self).spec_max_offset_y(),
                    ) as u16,
                },
                ..*old(self)
            }),
    {
        let count = Self::scroll_count(modifiers, self.page_size.height);
        let max_y = self.max_offset_y();
        let moved = self.offset.y as u32 + count as u32;
        self.offset.y = if moved <= max_y as u32 {
            moved as u16
        } else {
            max_y
        };
    }

    pub fn scroll_left(&mut self, modifiers: KeyModifiers)
        ensures
            *final(self) == (ScrollView {
                offset: Position {
                    x: dec_clamped(
                        old(self).offset.x as int,
                        spec_scroll_count(modifiers, old(self).page_size.width) as int,
                        old(self).spec_max_offset_x(),
                    ) as u16,
                    y: old(self).offset.y,
                },
                ..*old(self)
            }),
    {
        let count = Self::scroll_count(modifiers, self.page_size.width);
        let max_x = self.max_offset_x();
        let moved = if self.offset.x >= count {
            self.offset.x - count
        } else {
            0
        };
        self.offset.x = if moved <= max_x {
            moved
        } else {
            max_x
        };
    }

    pub fn scroll_right(&mut self, modifiers: KeyModifiers)
        ensures
            *final(self) == (ScrollView {
                offset: Position {
                    x: inc_clamped(
                        old(self).offset.x as int,
                        spec_scroll_count(modifiers, old(self).page_size.width) as int,
                        old(self).spec_max_offset_x(),
                    ) as u16,
                    y: old(self).offset.y,
                },
                ..*old(self)
            }),
    {
        let count = Self::scroll_count(modifiers, self.page_size.width);
        let max_x = self.max_offset_x();
        let moved = self.offset.x as u32 + count as u32;
        self.offset.x = if moved <= max_x as u32 {
            moved as u16
        } else {
            max_x
        };
    }

    /// Route a wheel event to the matching scroll direction; other mouse
    /// events are ignored.
    pub fn handle_mouse_event(&mut self, ev: MouseInput)
        ensures
            *final(self) == (ScrollView { offset: old(self).spec_wheel_offset(ev), ..*old(self) }),
    {
        match ev.kind {
            MouseKind::ScrollUp => self.scroll_up(ev.modifiers),
            MouseKind::ScrollDown => self.scroll_down(ev.modifiers),
            MouseKind::ScrollLeft => self.scroll_left(ev.modifiers),
            MouseKind::ScrollRight => self.scroll_right(ev.modifiers),
            MouseKind::Other => (),
        }
    }

    /// The lines visible in a `rect`-sized window at the current offset.
    pub fn render_content(&self, rect: Rect) -> (out: Vec<String>)
        requires
            self.wf(),
        ensures
            out@.map_values(|l: String| l@) == spec_window(
                self.lines(),
                self.offset.x as int,
                self.offset.y as int,
                rect.width as int,
                rect.height as int,
            ),
    {
        window_lines(
            self.content.as_str(),
            &self.line_spans,
            self.offset.x,
            self.offset.y,
            rect.width,
            rect.height,
        )
    }

    /// The scrollbars to draw for the current offset inside `rect`, one
    /// per axis whose content extent exceeds the page extent.
    pub fn render_scroll_bars(&self, rect: Rect) -> (bars: (Option<ScrollBar>, Option<ScrollBar>))
        requires
            rect.x + rect.width <= u16::MAX,
            rect.y + rect.height <= u16::MAX,
        ensures
            scroll_bars_ok(
                bars,
                rect,
                self.offset,
                Size { width: self.content_width, height: self.spec_content_height() as u16 },
            ),
    {
        let state = ScrollState {
            offset: self.offset,
            content_size: self.content_size(),
            page_size: self.page_size,
        };
        state.render_scroll_bars(rect)
    }

    /// Adopt `rect` as the page and produce everything a draw needs: the
    /// visible window and the scrollbars.
    pub fn render(&mut self, rect: Rect) -> (out: (
        Vec<String>,
        (Option<ScrollBar>, Option<ScrollBar>),
    ))
        requires
            old(self).wf(),
            rect.x + rect.width <= u16::MAX,
            rect.y + rect.height <= u16::MAX,
        ensures
            *final(self) == (ScrollView {
                page_size: Size { width: rect.width, height: rect.height },
                ..*old(self)
            }),
            out.0@.map_values(|l: String| l@) == spec_window(
                old(self).lines(),
                old(self).offset.x as int,
                old(self).offset.y as int,
                rect.width as int,
                rect.height as int,
            ),
            scroll_bars_ok(
                out.1,
                rect,
                old(self).offset,
                Size {
                    width: old(self).content_width,
                    height: old(self).spec_content_height() as u16,
                },
            ),
    {
        self.page_size = rect.as_size();
        let lines = self.render_content(rect);
        let bars = self.render_scroll_bars(rect);
        (lines, bars)
    }
}

/// The pane after a whole sequence of wheel events.
pub open spec fn after_wheel_events(v: ScrollView, events: Seq<MouseInput>) -> ScrollView
    decreases events.len(),
{
    if events.len() == 0 {
        v
    } else {
        let prev = after_wheel_events(v, events.drop_last());
        ScrollView { offset: prev.spec_wheel_offset(events.last()), ..prev }
    }
}

/// Clamping invariant: starting from any pane within bounds, every
/// sequence of wheel events leaves the offset within
/// `[0, max(0, content - page)]` on both axes.
pub proof fn lemma_wheel_events_stay_in_bounds(v: ScrollView, events: Seq<MouseInput>)
    requires
        v.in_bounds(),
    ensures
        after_wheel_events(v, events).in_bounds(),
    decreases events.len(),
{
    if events.len() > 0 {
        lemma_wheel_events_stay_in_bounds(v, events.drop_last());
    }
}

} // verus!
