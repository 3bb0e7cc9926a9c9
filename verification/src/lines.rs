//! Line indexing over a text buffer.
//!
//! A buffer is addressed as a list of spans, one per line, each a half-open
//! character range into the buffer, so extraction reuses the buffer instead
//! of copying it.  Lines are split as `str::lines` splits them: at `'\n'`,
//! with one `'\r'` before the `'\n'` stripped, and an optional final line
//! ending; an empty buffer has no lines.

use vstd::prelude::*;
use crate::geom::{sat_u16, to_u16_saturating, Position, Rect, Size};
use crate::graphemes::{extracted, grapheme_count, grapheme_substring, graphemes_of};
use crate::scroll_state::{scroll_bars_ok, ScrollBar, ScrollState};

verus! {

/// Index of the first `'\n'` at or after position `i`, or the length of `s`
/// if there is none.
pub open spec fn first_nl_from(s: Seq<char>, i: int) -> int
    decreases s.len() - i,
{
    if i < 0 || i >= s.len() {
        s.len() as int
    } else if s[i] == '\n' {
        i
    } else {
        first_nl_from(s, i + 1)
    }
}

/// Strip one trailing `'\r'`, if any.
pub open spec fn trim_cr(piece: Seq<char>) -> Seq<char> {
    if piece.len() > 0 && piece.last() == '\r' {
        piece.drop_last()
    } else {
        piece
    }
}

/// The lines of `s` from position `i` on, split as `str::lines` splits.
pub open spec fn lines_from(s: Seq<char>, i: int) -> Seq<Seq<char>>
    decreases s.len() - i,
        via lines_from_decreases
{
    if i < 0 || i >= s.len() {
        Seq::empty()
    } else {
        let j = first_nl_from(s, i);
        if j < s.len() {
            seq![trim_cr(s.subrange(i, j))] + lines_from(s, j + 1)
        } else {
            seq![s.subrange(i, j)]
        }
    }
}

#[via_fn]
proof fn lines_from_decreases(s: Seq<char>, i: int) {
    if 0 <= i < s.len() {
        lemma_first_nl_bounds(s, i);
    }
}

/// The lines of `s`.
pub open spec fn lines_of(s: Seq<char>) -> Seq<Seq<char>> {
    lines_from(s, 0)
}

/// `first_nl_from` returns a position between `i` and the end, points at a
/// `'\n'` unless it is the end, and skips no `'\n'`.
pub proof fn lemma_first_nl_bounds(s: Seq<char>, i: int)
    requires
        0 <= i <= s.len(),
    ensures
        i <= first_nl_from(s, i) <= s.len(),
        first_nl_from(s, i) < s.len() ==> s[first_nl_from(s, i)] == '\n',
        forall|k: int| i <= k < first_nl_from(s, i) ==> s[k] != '\n',
    decreases s.len() - i,
{
    if i < s.len() && s[i] != '\n' {
        lemma_first_nl_bounds(s, i + 1);
    }
}

/// A scan that saw no `'\n'` before `j` and a `'\n'` (or the end) at `j`
/// pins `first_nl_from` down to `j`.
proof fn lemma_first_nl_at(s: Seq<char>, i: int, j: int)
    requires
        0 <= i <= j <= s.len(),
        forall|k: int| i <= k < j ==> s[k] != '\n',
        j == s.len() || s[j] == '\n',
    ensures
        first_nl_from(s, i) == j,
    decreases j - i,
{
    if i < j {
        lemma_first_nl_at(s, i + 1, j);
    }
}

/// A half-open character range of one line within a buffer.
#[derive(Clone, Copy, Debug, PartialEq, Eq, Structural)]
pub struct LineSpan {
    pub start: usize,
    pub end: usize,
}

/// Every span lies within `content`.
pub open spec fn spans_valid(content: Seq<char>, spans: Seq<LineSpan>) -> bool {
    forall|k: int|
        0 <= k < spans.len() ==> (#[trigger] spans[k]).start <= spans[k].end <= content.len()
}

/// The text each span addresses.
pub open spec fn span_texts(content: Seq<char>, spans: Seq<LineSpan>) -> Seq<Seq<char>> {
    spans.map_values(|sp: LineSpan| content.subrange(sp.start as int, sp.end as int))
}

/// Compute the per-line spans of `content`: one span per line of
/// `lines_of(content@)`, each addressing the line's text inside `content`.
pub fn line_spans(content: &str) -> (spans: Vec<LineSpan>)
    ensures
        spans_valid(content@, spans@),
        span_texts(content@, spans@) == lines_of(content@),
{
    let n = content.unicode_len();
    let mut spans: Vec<LineSpan> = Vec::new();
    let mut line_start: usize = 0;
    let mut i: usize = 0;
    while i < n
        invariant
            n == content@.len(),
            line_start <= i <= n,
            spans_valid(content@, spans@),
            span_texts(content@, spans@) + lines_from(content@, line_start as int) == lines_of(
                content@,
            ),
            forall|k: int| line_start <= k < i ==> content@[k] != '\n',
        decreases n - i,
    {
        let c = content.get_char(i);
        if c == '\n' {
            let end = if i > line_start && content.get_char(i - 1) == '\r' {
                i - 1
            } else {
                i
            };
            let ghost old_spans = spans@;
            spans.push(LineSpan { start: line_start, end });
            proof {
                lemma_first_nl_at(content@, line_start as int, i as int);
                let piece = content@.subrange(line_start as int, i as int);
                assert(trim_cr(piece) =~= content@.subrange(line_start as int, end as int));
                assert(span_texts(content@, spans@) =~= span_texts(content@, old_spans).push(
                    content@.subrange(line_start as int, end as int),
                ));
                assert(span_texts(content@, spans@) + lines_from(content@, i + 1 as int)
                    =~= span_texts(content@, old_spans) + lines_from(
                    content@,
                    line_start as int,
                ));
            }
            line_start = i + 1;
        }
        i = i + 1;
    }
    if line_start < n {
        let ghost old_spans = spans@;
        spans.push(LineSpan { start: line_start, end: n });
        proof {
            lemma_first_nl_at(content@, line_start as int, n as int);
            assert(span_texts(content@, spans@) =~= span_texts(content@, old_spans).push(
                content@.subrange(line_start as int, n as int),
            ));
            assert(span_texts(content@, spans@) =~= span_texts(content@, old_spans)
                + lines_from(content@, line_start as int));
        }
    }
    spans
}

/// The rows `[off_y, off_y + height)` of `lines`, clipped to the rows that
/// exist.
pub open spec fn window_rows(lines: Seq<Seq<char>>, off_y: int, height: int) -> Seq<Seq<char>> {
    let lo = if off_y <= lines.len() {
        off_y
    } else {
        lines.len() as int
    };
    let hi = if off_y + height <= lines.len() {
        off_y + height
    } else {
        lines.len() as int
    };
    if lo <= hi {
        lines.subrange(lo, hi)
    } else {
        Seq::empty()
    }
}

/// The visible window of `lines` for an offset and a page: the page's rows,
/// each clipped to the page's columns along whole grapheme clusters.
pub open spec fn spec_window(
    lines: Seq<Seq<char>>,
    off_x: int,
    off_y: int,
    width: int,
    height: int,
) -> Seq<Seq<char>> {
    window_rows(lines, off_y, height).map_values(|l: Seq<char>| extracted(l, off_x, width))
}

/// Extract the visible window: rows `[off_y, off_y + height)` of the lines
/// addressed by `spans`, each clipped to columns `[off_x, off_x + width)`
/// in grapheme clusters.
pub fn window_lines(
    content: &str,
    spans: &Vec<LineSpan>,
    off_x: u16,
    off_y: u16,
    width: u16,
    height: u16,
) -> (out: Vec<String>)
    requires
        spans_valid(content@, spans@),
    ensures
        out@.map_values(|l: String| l@) == spec_window(
            span_texts(content@, spans@),
            off_x as int,
            off_y as int,
            width as int,
            height as int,
        ),
{
    let ghost texts = span_texts(content@, spans@);
    let ghost goal = spec_window(texts, off_x as int, off_y as int, width as int, height as int);
    let n = spans.len();
    let lo: usize = if (off_y as usize) <= n {
        off_y as usize
    } else {
        n
    };
    let hi: usize = if (off_y as usize) + (height as usize) <= n {
        (off_y as usize) + (height as usize)
    } else {
        n
    };
    let mut out: Vec<String> = Vec::new();
    let mut row: usize = lo;
    proof {
        assert(out@.map_values(|l: String| l@) =~= goal.take(0));
    }
    while row < hi
        invariant
            lo <= row <= hi <= spans@.len(),
            lo == if off_y as int <= texts.len() {
                off_y as int
            } else {
                texts.len() as int
            },
            hi == if off_y + height <= texts.len() {
                off_y + height
            } else {
                texts.len() as int
            },
            spans_valid(content@, spans@),
            texts == span_texts(content@, spans@),
            goal == spec_window(texts, off_x as int, off_y as int, width as int, height as int),
            goal.len() == hi - lo,
            out@.map_values(|l: String| l@) == goal.take(row - lo),
        decreases hi - row,
    {
        let sp = spans[row];
        let line = content.substring_char(sp.start, sp.end);
        let clipped = grapheme_substring(line, off_x as usize, width as usize);
        let ghost before = out@;
        out.push(clipped);
        proof {
            assert(out@.map_values(|l: String| l@) =~= before.map_values(|l: String| l@).push(
                clipped@,
            ));
            assert(goal[row - lo] == extracted(texts[row as int], off_x as int, width as int));
            assert(goal.take(row + 1 - lo) =~= goal.take(row - lo).push(goal[row - lo]));
        }
        row = row + 1;
    }
    proof {
        assert(goal.take(hi - lo) =~= goal);
    }
    out
}

/// The widest line, measured in grapheme clusters.
pub open spec fn max_grapheme_width(lines: Seq<Seq<char>>) -> int
    decreases lines.len(),
{
    if lines.len() == 0 {
        0
    } else {
        let rest = max_grapheme_width(lines.drop_last());
        let w = graphemes_of(lines.last()).len() as int;
        if w > rest {
            w
        } else {
            rest
        }
    }
}

/// Measure the widest line addressed by `spans`, in grapheme clusters.
pub fn max_line_width(content: &str, spans: &Vec<LineSpan>) -> (w: usize)
    requires
        spans_valid(content@, spans@),
    ensures
        w == max_grapheme_width(span_texts(content@, spans@)),
{
    let ghost texts = span_texts(content@, spans@);
    let mut w: usize = 0;
    let mut k: usize = 0;
    proof {
        assert(texts.take(0) =~= Seq::<Seq<char>>::empty());
    }
    while k < spans.len()
        invariant
            k <= spans@.len(),
            spans_valid(content@, spans@),
            texts == span_texts(content@, spans@),
            w == max_grapheme_width(texts.take(k as int)),
        decreases spans@.len() - k,
    {
        let sp = spans[k];
        let line = content.substring_char(sp.start, sp.end);
        let line_width = grapheme_count(line);
        if line_width > w {
            w = line_width;
        }
        proof {
            assert(texts.take(k + 1 as int).drop_last() =~= texts.take(k as int));
            assert(texts.take(k + 1 as int).last() == texts[k as int]);
        }
        k = k + 1;
    }
    proof {
        assert(texts.take(spans@.len() as int) =~= texts);
    }
    w
}

/// An indexed text buffer with its own scroll state: the buffer, one span
/// per line, and the scroll position over the (width, height) the index
/// measured.
pub struct Lines {
    pub content: String,
    pub line_spans: Vec<LineSpan>,
    pub scroll_state: ScrollState,
}

impl Lines {
    pub open spec fn wf(self) -> bool {
        spans_valid(self.content@, self.line_spans@)
    }

    /// The indexed lines.
    pub open spec fn lines(self) -> Seq<Seq<char>> {
        span_texts(self.content@, self.line_spans@)
    }

    /// Index `content`: split it into line spans, measure the widest line
    /// in grapheme clusters, and start a scroll state over that content
    /// size, scrolled to the origin.
    pub fn new(content: String) -> (r: Lines)
        ensures
            r.wf(),
            r.content@ == content@,
            r.lines() == lines_of(content@),
            r.scroll_state.offset == (Position { x: 0u16, y: 0u16 }),
            r.scroll_state.page_size == (Size { width: 1u16, height: 1u16 }),
            r.scroll_state.content_size.width as int == sat_u16(
                max_grapheme_width(lines_of(content@)),
            ),
            r.scroll_state.content_size.height as int == sat_u16(lines_of(content@).len() as int),
    {
        let spans = line_spans(content.as_str());
        let width = max_line_width(content.as_str(), &spans);
        let content_size = Size {
            width: to_u16_saturating(width),
            height: to_u16_saturating(spans.len()),
        };
        Lines { content, line_spans: spans, scroll_state: ScrollState::new(content_size) }
    }

    pub fn scroll_state_mut(&mut self) -> (st: &mut ScrollState)
        ensures
            *st == old(self).scroll_state,
            final(self).scroll_state == *final(st),
            final(self).content == old(self).content,
            final(self).line_spans == old(self).line_spans,
    {
        &mut self.scroll_state
    }

    /// The lines visible in a `rect`-sized window at the current offset.
    pub fn render_content(&self, rect: Rect) -> (out: Vec<String>)
        requires
            self.wf(),
        ensures
            out@.map_values(|l: String| l@) == spec_window(
                self.lines(),
                self.scroll_state.offset.x as int,
                self.scroll_state.offset.y as int,
                rect.width as int,
                rect.height as int,
            ),
    {
        window_lines(
            self.content.as_str(),
            &self.line_spans,
            self.scroll_state.offset.x,
            self.scroll_state.offset.y,
            rect.width,
            rect.height,
        )
    }

    /// Adopt `rect` as the page and produce one draw of this buffer: the
    /// visible window and the scrollbars.
    pub fn render_scroll_view(&mut self, rect: Rect) -> (out: (
        Vec<String>,
        (Option<ScrollBar>, Option<ScrollBar>),
    ))
        requires
            old(self).wf(),
            rect.x + rect.width <= u16::MAX,
            rect.y + rect.height <= u16::MAX,
        ensures
            final(self).content == old(self).content,
            final(self).line_spans == old(self).line_spans,
            final(self).scroll_state == (ScrollState {
                page_size: rect.spec_as_size(),
                ..old(self).scroll_state
            }),
            out.0@.map_values(|l: String| l@) == spec_window(
                old(self).lines(),
                old(self).scroll_state.offset.x as int,
                old(self).scroll_state.offset.y as int,
                rect.width as int,
                rect.height as int,
            ),
            scroll_bars_ok(
                out.1,
                rect,
                old(self).scroll_state.offset,
                old(self).scroll_state.content_size,
            ),
    {
        self.scroll_state.set_page_size(rect.as_size());
        let lines = self.render_content(rect);
        let bars = self.scroll_state.render_scroll_bars(rect);
        (lines, bars)
    }

    /// Hand the buffer out; the index empties with it, the scroll state
    /// stays.
    pub fn take_content(&mut self) -> (content: String)
        ensures
            content@ == old(self).content@,
            final(self).wf(),
            final(self).lines() == Seq::<Seq<char>>::empty(),
            final(self).content@ == Seq::<char>::empty(),
            final(self).scroll_state == old(self).scroll_state,
    {
        let mut content = String::new();
        core::mem::swap(&mut content, &mut self.content);
        self.line_spans = Vec::new();
        proof {
            assert(self.lines() =~= Seq::<Seq<char>>::empty());
        }
        content
    }
}

} // verus!
