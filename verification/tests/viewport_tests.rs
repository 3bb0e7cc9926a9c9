use rq::event::{KeyModifiers, MouseInput, MouseKind};
use rq::geom::{Position, Rect};
use rq::jq_process::JqOutput;
use rq::scroll::ScrollView;

fn plain_wheel(kind: MouseKind) -> MouseInput {
    MouseInput {
        position: Position { x: 0, y: 0 },
        kind,
        modifiers: KeyModifiers { shift: false, control: false, alt: false },
    }
}

#[test]
fn two_by_two_window_scrolls_down_one_row() {
    // Content "a\nbb\nccc" seen through a 2x2 page at the origin shows
    // ["a", "bb"]; one unit down it shows ["bb", "cc"].
    let mut output = JqOutput::new(1, "a\nbb\nccc");
    let page = Rect { x: 0, y: 0, width: 2, height: 2 };
    let (window, _) = output.scroll_view_mut().render(page);
    assert_eq!(window, vec!["a", "bb"]);
    output.scroll_view_mut().handle_mouse_event(plain_wheel(MouseKind::ScrollDown));
    assert_eq!(output.scroll_view_mut().offset(), Position { x: 0, y: 1 });
    let (window, _) = output.scroll_view_mut().render(page);
    assert_eq!(window, vec!["bb", "cc"]);
}

#[test]
fn pushed_lines_accumulate_and_hand_back_crlf_terminated_content() {
    let mut view = ScrollView::new();
    view.push_line("x");
    view.push_line("yy");
    assert_eq!(view.content(), "x\r\nyy\r\n");
    assert_eq!(view.content_size().width, 2);
    assert_eq!(view.content_size().height, 2);
    let taken = view.take_content();
    assert_eq!(taken, "x\r\nyy\r\n");
    assert_eq!(view.content(), "");
    assert_eq!(view.content_size().height, 0);
}

#[test]
fn from_lines_matches_pushing_each_line() {
    let lines = vec![String::from("one"), String::from("two")];
    let view = ScrollView::from_lines(&lines);
    assert_eq!(view.content(), "one\r\ntwo\r\n");
}

#[test]
fn horizontal_window_respects_clusters() {
    let mut view = ScrollView::new();
    view.push_line("e\u{301}abc");
    let mut shifted = view;
    shifted.set_offset(Position { x: 1, y: 0 });
    let (window, _) = shifted.render(Rect { x: 0, y: 0, width: 2, height: 1 });
    assert_eq!(window, vec!["ab"]);
    shifted.set_offset(Position { x: 0, y: 0 });
    let (window, _) = shifted.render(Rect { x: 0, y: 0, width: 1, height: 1 });
    assert_eq!(window, vec!["e\u{301}"]);
}

#[test]
fn wheel_scrolling_clamps_to_the_content() {
    let mut view = ScrollView::new();
    for _ in 0..30 {
        view.push_line("line");
    }
    let page = Rect { x: 0, y: 0, width: 10, height: 10 };
    let (_, _) = view.render(page);
    for _ in 0..100 {
        view.handle_mouse_event(plain_wheel(MouseKind::ScrollDown));
    }
    assert_eq!(view.offset().y, 20);
    for _ in 0..100 {
        view.handle_mouse_event(plain_wheel(MouseKind::ScrollUp));
    }
    assert_eq!(view.offset().y, 0);
}

#[test]
fn oversized_content_saturates_the_tracked_size() {
    let mut view = ScrollView::new();
    let wide = "x".repeat(70_000);
    view.push_line(&wide);
    assert_eq!(view.content_size().width, u16::MAX);
    assert_eq!(view.content_size().height, 1);
}
