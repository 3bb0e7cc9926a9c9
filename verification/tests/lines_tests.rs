use rq::geom::{Position, Rect, Size};
use rq::lines::{line_spans, max_line_width, window_lines, Lines};

fn texts(content: &str) -> Vec<String> {
    line_spans(content)
        .iter()
        .map(|sp| content.chars().skip(sp.start).take(sp.end - sp.start).collect())
        .collect()
}

#[test]
fn lines_split_like_the_standard_library() {
    assert_eq!(texts(""), Vec::<String>::new());
    assert_eq!(texts("a"), vec!["a"]);
    assert_eq!(texts("a\nbb\nccc"), vec!["a", "bb", "ccc"]);
    assert_eq!(texts("a\n"), vec!["a"]);
    assert_eq!(texts("\n\n"), vec!["", ""]);
    assert_eq!(texts("a\r\nb"), vec!["a", "b"]);
    assert_eq!(texts("a\r"), vec!["a\r"]);
    assert_eq!(texts("a\r\r\nb"), vec!["a\r", "b"]);
}

#[test]
fn width_is_measured_in_grapheme_clusters() {
    let content = "e\u{301}e\u{301}\nabc\n\u{1f1f7}\u{1f1fa}";
    let spans = line_spans(content);
    assert_eq!(max_line_width(content, &spans), 3);
}

#[test]
fn indexing_measures_the_content_size() {
    let lines = Lines::new(String::from("a\nbb\nccc"));
    assert_eq!(lines.scroll_state.content_size, Size { width: 3, height: 3 });
    assert_eq!(lines.scroll_state.offset, Position { x: 0, y: 0 });

    let empty = Lines::new(String::new());
    assert_eq!(empty.scroll_state.content_size, Size { width: 0, height: 0 });
}

#[test]
fn window_clips_rows_and_columns() {
    let content = "one\ntwo\nthree\nfour";
    let spans = line_spans(content);
    assert_eq!(window_lines(content, &spans, 0, 1, 3, 2), vec!["two", "thr"]);
    assert_eq!(window_lines(content, &spans, 1, 2, 10, 10), vec!["hree", "our"]);
    assert_eq!(window_lines(content, &spans, 0, 9, 3, 2), Vec::<String>::new());
    assert_eq!(window_lines(content, &spans, 0, 0, 0, 2), vec!["", ""]);
}

#[test]
fn indexed_buffer_renders_and_hands_its_content_back() {
    let mut lines = Lines::new(String::from("alpha\nbeta\ngamma"));
    let (window, bars) = lines.render_scroll_view(Rect { x: 0, y: 0, width: 4, height: 2 });
    assert_eq!(window, vec!["alph", "beta"]);
    assert!(bars.0.is_some());
    assert!(bars.1.is_some());
    assert_eq!(lines.scroll_state.page_size, Size { width: 4, height: 2 });
    assert_eq!(lines.take_content(), "alpha\nbeta\ngamma");
}
