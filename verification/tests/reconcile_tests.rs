use rq::app::App;
use rq::geom::Position;
use rq::jq_process::{JqError, JqOutput};

#[test]
fn late_arrival_of_an_older_result_is_discarded() {
    // Two runs requested at t=10 and t=20; the t=10 result arrives after
    // the t=20 one and must not displace it.
    let mut app = App::new();
    app.handle_jq_output(Ok(JqOutput::new(20, "newer")));
    app.handle_jq_output(Ok(JqOutput::new(10, "older")));
    assert_eq!(app.jq_output.instant(), 20);
    assert_eq!(app.jq_output.scroll_view.content(), "newer\r\n");
}

#[test]
fn arrival_order_does_not_change_the_outcome() {
    let mut in_order = App::new();
    in_order.handle_jq_output(Ok(JqOutput::new(10, "older")));
    in_order.handle_jq_output(Ok(JqOutput::new(20, "newer")));
    let mut reordered = App::new();
    reordered.handle_jq_output(Ok(JqOutput::new(20, "newer")));
    reordered.handle_jq_output(Ok(JqOutput::new(10, "older")));
    assert_eq!(in_order.jq_output.instant(), reordered.jq_output.instant());
    assert_eq!(
        in_order.jq_output.scroll_view.content(),
        reordered.jq_output.scroll_view.content()
    );
    assert_eq!(
        in_order.jq_output.scroll_view.offset(),
        reordered.jq_output.scroll_view.offset()
    );
}

#[test]
fn applying_the_same_result_twice_changes_nothing_further() {
    let mut app = App::new();
    app.handle_jq_output(Ok(JqOutput::new(7, "text")));
    let instant = app.jq_output.instant();
    let content = app.jq_output.scroll_view.content().to_string();
    let offset = app.jq_output.scroll_view.offset();
    app.handle_jq_output(Ok(JqOutput::new(7, "text")));
    assert_eq!(app.jq_output.instant(), instant);
    assert_eq!(app.jq_output.scroll_view.content(), content);
    assert_eq!(app.jq_output.scroll_view.offset(), offset);
}

#[test]
fn scroll_position_survives_a_content_refresh() {
    let mut app = App::new();
    app.handle_jq_output(Ok(JqOutput::new(1, "a\nb\nc\nd\ne")));
    app.jq_output.scroll_view.set_offset(Position { x: 0, y: 3 });
    app.handle_jq_output(Ok(JqOutput::new(2, "f\ng\nh\ni\nj")));
    assert_eq!(app.jq_output.scroll_view.offset(), Position { x: 0, y: 3 });
    assert_eq!(app.jq_output.scroll_view.content(), "f\r\ng\r\nh\r\ni\r\nj\r\n");
}

#[test]
fn a_failed_run_leaves_the_output_and_sets_the_indicator() {
    let mut app = App::new();
    app.handle_jq_output(Ok(JqOutput::new(5, "good")));
    assert!(!app.output_error);
    app.handle_jq_output(Err(JqError::Failed { stderr: String::from("boom") }));
    assert!(app.output_error);
    assert_eq!(app.jq_output.scroll_view.content(), "good\r\n");
    app.handle_jq_output(Ok(JqOutput::new(6, "better")));
    assert!(!app.output_error);
    assert_eq!(app.jq_output.scroll_view.content(), "better\r\n");
}

#[test]
fn committing_hands_out_the_reconciled_output() {
    let mut app = App::new();
    app.handle_jq_output(Ok(JqOutput::new(3, "final\nanswer")));
    let committed = app.commit_output();
    assert_eq!(committed, "final\r\nanswer\r\n");
    assert_eq!(app.jq_output.scroll_view.content(), "");
}
