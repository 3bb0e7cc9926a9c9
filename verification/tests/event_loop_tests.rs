use rq::app::{key_action, loop_transition, Action, App, EditorOp, Event, ExitReason, LoopState};
use rq::event::{Key, KeyModifiers, MouseInput, MouseKind};
use rq::geom::{Position, Rect};
use rq::jq_process::JqOutput;
use rq::rect_set::RectSet;

fn wheel_at(x: u16, y: u16) -> MouseInput {
    MouseInput {
        position: Position { x, y },
        kind: MouseKind::ScrollDown,
        modifiers: KeyModifiers { shift: false, control: false, alt: false },
    }
}

fn layout() -> RectSet {
    RectSet::from_rects(
        Rect { x: 0, y: 0, width: 20, height: 10 },
        Rect { x: 20, y: 0, width: 20, height: 10 },
        Rect { x: 0, y: 10, width: 40, height: 3 },
        Rect { x: 0, y: 13, width: 40, height: 3 },
    )
}

#[test]
fn keys_map_to_their_decisions() {
    assert_eq!(key_action(Key::CtrlC), Action::Quit);
    assert_eq!(key_action(Key::Enter), Action::CommitAfterGrace);
    assert_eq!(key_action(Key::Tab), Action::Editor(EditorOp::ToggleFocus));
    assert_eq!(key_action(Key::Up), Action::Editor(EditorOp::Undo));
    assert_eq!(key_action(Key::Down), Action::Editor(EditorOp::Redo));
    assert_eq!(key_action(Key::Other), Action::Editor(EditorOp::Input));
}

#[test]
fn only_quit_and_commit_leave_the_running_state() {
    assert_eq!(loop_transition(&Action::Quit), LoopState::Exiting(ExitReason::UserQuit));
    assert_eq!(
        loop_transition(&Action::CommitAfterGrace),
        LoopState::Exiting(ExitReason::Committed)
    );
    assert_eq!(loop_transition(&Action::Ignore), LoopState::Running);
    assert_eq!(loop_transition(&Action::SpawnJq), LoopState::Running);
    assert_eq!(loop_transition(&Action::Editor(EditorOp::Input)), LoopState::Running);
}

#[test]
fn mouse_events_scroll_the_pane_under_the_pointer() {
    let mut app = App::new();
    for _ in 0..20 {
        app.input_scroll_view.push_line("input line");
    }
    app.handle_jq_output(Ok(JqOutput::new(1, &"out\n".repeat(20))));
    let plan_rects = layout();
    app.render(plan_rects);

    let action = app.handle_event(Event::Mouse(wheel_at(5, 5)));
    assert_eq!(action, Action::Ignore);
    assert_eq!(app.input_scroll_view.offset().y, 1);
    assert_eq!(app.jq_output.scroll_view.offset().y, 0);

    let action = app.handle_event(Event::Mouse(wheel_at(25, 5)));
    assert_eq!(action, Action::Ignore);
    assert_eq!(app.jq_output.scroll_view.offset().y, 1);

    // Outside both panes nothing moves.
    app.handle_event(Event::Mouse(wheel_at(5, 12)));
    assert_eq!(app.input_scroll_view.offset().y, 1);
    assert_eq!(app.jq_output.scroll_view.offset().y, 1);
}

#[test]
fn fresh_input_lines_request_a_new_run() {
    let mut app = App::new();
    let action = app.handle_event(Event::InputLines(vec![
        String::from("{\"a\": 1}"),
        String::from("{\"a\": 2}"),
    ]));
    assert_eq!(action, Action::SpawnJq);
    assert_eq!(app.input_scroll_view.content(), "{\"a\": 1}\r\n{\"a\": 2}\r\n");
}

#[test]
fn a_draw_clips_each_pane_inside_its_border() {
    let mut app = App::new();
    app.handle_event(Event::InputLines(vec![
        String::from("alpha"),
        String::from("beta"),
        String::from("gamma"),
    ]));
    app.handle_jq_output(Ok(JqOutput::new(1, "one\ntwo")));
    let plan = app.render(layout());
    // The input pane is 20x10 with a border: 18x8 inside.
    assert_eq!(plan.input_lines, vec!["alpha", "beta", "gamma"]);
    assert_eq!(plan.output_lines, vec!["one", "two"]);
    assert!(!plan.output_error);
    assert_eq!(app.input_scroll_view.page_size.width, 18);
    assert_eq!(app.input_scroll_view.page_size.height, 8);
}
