use rq::event::{KeyModifiers, MouseInput, MouseKind};
use rq::geom::{Position, Rect, Size};
use rq::scroll_state::ScrollState;

fn modifiers(shift: bool, control: bool, alt: bool) -> KeyModifiers {
    KeyModifiers { shift, control, alt }
}

fn wheel(kind: MouseKind, m: KeyModifiers) -> MouseInput {
    MouseInput { position: Position { x: 0, y: 0 }, kind, modifiers: m }
}

#[test]
fn offsets_stay_clamped_after_any_scroll_sequence() {
    let mut st = ScrollState::new(Size { width: 40, height: 100 });
    st.set_page_size(Size { width: 10, height: 10 });
    let max_x = 30;
    let max_y = 90;
    st.scroll_down(7);
    st.scroll_right(3);
    st.scroll_down(200);
    st.scroll_right(200);
    assert_eq!(st.offset(), Position { x: max_x, y: max_y });
    st.scroll_up(65535);
    st.scroll_left(65535);
    assert_eq!(st.offset(), Position { x: 0, y: 0 });
    st.scroll_up(1);
    st.scroll_left(1);
    assert_eq!(st.offset(), Position { x: 0, y: 0 });
    for _ in 0..977 {
        st.scroll_down(13);
        st.scroll_right(29);
    }
    assert!(st.offset().x <= max_x);
    assert!(st.offset().y <= max_y);
}

#[test]
fn scrolling_is_a_noop_when_content_fits() {
    let mut st = ScrollState::new(Size { width: 5, height: 5 });
    st.set_page_size(Size { width: 10, height: 10 });
    st.scroll_down(3);
    st.scroll_right(3);
    assert_eq!(st.offset(), Position { x: 0, y: 0 });
}

#[test]
fn set_page_size_does_not_reclamp_but_next_scroll_does() {
    let mut st = ScrollState::new(Size { width: 0, height: 100 });
    st.set_page_size(Size { width: 1, height: 10 });
    st.scroll_down(90);
    assert_eq!(st.offset().y, 90);
    st.set_page_size(Size { width: 1, height: 50 });
    assert_eq!(st.offset().y, 90);
    st.scroll_down(1);
    assert_eq!(st.offset().y, 50);
}

#[test]
fn mouse_quanta_follow_modifiers() {
    let mut st = ScrollState::new(Size { width: 0, height: 1000 });
    st.set_page_size(Size { width: 1, height: 20 });
    st.handle_mouse_event(wheel(MouseKind::ScrollDown, modifiers(false, false, false)));
    assert_eq!(st.offset().y, 1);
    st.handle_mouse_event(wheel(MouseKind::ScrollDown, modifiers(false, false, true)));
    assert_eq!(st.offset().y, 6);
    st.handle_mouse_event(wheel(MouseKind::ScrollDown, modifiers(false, true, false)));
    assert_eq!(st.offset().y, 26);
    // Control together with another modifier is not the page quantum.
    st.handle_mouse_event(wheel(MouseKind::ScrollDown, modifiers(true, true, false)));
    assert_eq!(st.offset().y, 27);
    st.handle_mouse_event(wheel(MouseKind::ScrollUp, modifiers(false, true, false)));
    assert_eq!(st.offset().y, 7);
    st.handle_mouse_event(wheel(MouseKind::Other, modifiers(false, false, false)));
    assert_eq!(st.offset().y, 7);
}

#[test]
fn scrollbar_thumb_for_tall_content() {
    // Content 100 rows high seen through a 10-row page, scrolled to row 45:
    // the thumb is one cell (10/100 of a 10-cell track, floored at 1) and
    // sits 45/90 of the way down the remaining track.
    let mut st = ScrollState::new(Size { width: 0, height: 100 });
    st.set_page_size(Size { width: 5, height: 10 });
    st.set_offset(Position { x: 0, y: 45 });
    let rect = Rect { x: 0, y: 0, width: 5, height: 10 };
    let (vertical, horizontal) = st.render_scroll_bars(rect);
    let bar = vertical.expect("content is taller than the page");
    assert!(horizontal.is_none());
    assert_eq!(bar.thumb.height, 1);
    assert_eq!(bar.thumb.y, 5);
    assert_eq!(bar.bar.height, 10);
    assert_eq!(bar.bar.x, 4);
    assert_eq!(bar.thumb.x, 4);
}

#[test]
fn scrollbar_thumb_reaches_the_ends() {
    let mut st = ScrollState::new(Size { width: 0, height: 100 });
    st.set_page_size(Size { width: 5, height: 10 });
    let rect = Rect { x: 3, y: 2, width: 5, height: 10 };
    let (top, _) = st.render_scroll_bars(rect);
    assert_eq!(top.unwrap().thumb.y, 2);
    st.set_offset(Position { x: 0, y: 90 });
    let (bottom, _) = st.render_scroll_bars(rect);
    let bottom = bottom.unwrap();
    assert_eq!(bottom.thumb.y + bottom.thumb.height, 12);
}

#[test]
fn no_scrollbar_when_content_fits_or_page_is_zero() {
    let mut st = ScrollState::new(Size { width: 4, height: 10 });
    st.set_page_size(Size { width: 5, height: 10 });
    let rect = Rect { x: 0, y: 0, width: 5, height: 10 };
    let (vertical, horizontal) = st.render_scroll_bars(rect);
    assert!(vertical.is_none());
    assert!(horizontal.is_none());
    let zero_page = Rect { x: 0, y: 0, width: 0, height: 0 };
    let mut tall = ScrollState::new(Size { width: 9, height: 100 });
    tall.set_page_size(Size { width: 0, height: 0 });
    let (v, h) = tall.render_scroll_bars(zero_page);
    assert!(v.is_none());
    assert!(h.is_none());
}

#[test]
fn horizontal_scrollbar_is_the_transposed_vertical_one() {
    let mut st = ScrollState::new(Size { width: 100, height: 1 });
    st.set_page_size(Size { width: 10, height: 1 });
    st.set_offset(Position { x: 45, y: 0 });
    let rect = Rect { x: 0, y: 0, width: 10, height: 1 };
    let (_, horizontal) = st.render_scroll_bars(rect);
    let bar = horizontal.expect("content is wider than the page");
    assert_eq!(bar.thumb.width, 1);
    assert_eq!(bar.thumb.x, 5);
    assert_eq!(bar.bar.width, 10);
}
