//! The loop's state and decisions.
//!
//! One single-threaded loop owns all mutable state: the input pane, the
//! current output and the pane layout.  Background runs only send
//! messages; every message lands here as a plain [`Event`] and the
//! verified handlers decide what changes and what the frontend must do
//! next.  Stale results are discarded by the last-writer-wins rule on the
//! run's request time, so convergence does not depend on arrival order.

use vstd::prelude::*;
use crate::event::{Key, MouseInput};
use crate::geom::{Rect, Size};
use crate::jq_process::{JqError, JqOutput};
use crate::rect_set::RectSet;
use crate::scroll::ScrollView;
use crate::scroll_state::{scroll_bars_ok, ScrollBar};
use crate::lines::spec_window;

verus! {

/// What the frontend must do to the focused editor.
#[derive(Clone, Copy, Debug, PartialEq, Eq, Structural)]
pub enum EditorOp {
    /// Move focus to the other editable field.
    ToggleFocus,
    /// Undo the last edit.
    Undo,
    /// Redo the last undone edit.
    Redo,
    /// Feed the key to the focused editor.
    Input,
}

/// What the frontend must do after an event was handled.
#[derive(Clone, Copy, Debug, PartialEq, Eq, Structural)]
pub enum Action {
    /// Nothing; keep looping.
    Ignore,
    /// Start a new run against the current editor contents.
    SpawnJq,
    /// End the session unsuccessfully: the user force-quit.
    Quit,
    /// Wait the grace interval for an in-flight run to land, then commit
    /// the reconciled output and end the session.
    CommitAfterGrace,
    /// Apply an editing operation; if it changed the edited content,
    /// start a new run.
    Editor(EditorOp),
}

/// Why the loop ended.
#[derive(Clone, Copy, Debug, PartialEq, Eq, Structural)]
pub enum ExitReason {
    /// The user pressed the force-quit combination.
    UserQuit,
    /// The user committed; the session ends with the reconciled output.
    Committed,
    /// The event source failed or closed.
    SourceClosed,
}

/// The loop's control state.
#[derive(Clone, Copy, Debug, PartialEq, Eq, Structural)]
pub enum LoopState {
    Running,
    Exiting(ExitReason),
}

/// One message the loop multiplexes over: an input event, a finished run,
/// or more lines of the input document.
pub enum Event {
    Key(Key),
    Mouse(MouseInput),
    JqResult(Result<JqOutput, JqError>),
    InputLines(Vec<String>),
}

impl Event {
    /// A result event carries a well-formed pane.
    pub open spec fn wf(self) -> bool {
        match self {
            Event::JqResult(res) => match res {
                Ok(out) => out.wf(),
                Err(_) => true,
            },
            _ => true,
        }
    }
}

/// The decision a key maps to.
pub open spec fn spec_key_action(key: Key) -> Action {
    match key {
        Key::CtrlC => Action::Quit,
        Key::Enter => Action::CommitAfterGrace,
        Key::Tab => Action::Editor(EditorOp::ToggleFocus),
        Key::Up => Action::Editor(EditorOp::Undo),
        Key::Down => Action::Editor(EditorOp::Redo),
        Key::Other => Action::Editor(EditorOp::Input),
    }
}

/// Map a key to its decision: the reserved combinations end the session,
/// everything else goes to the focused editor.
pub fn key_action(key: Key) -> (a: Action)
    ensures
        a == spec_key_action(key),
{
    match key {
        Key::CtrlC => Action::Quit,
        Key::Enter => Action::CommitAfterGrace,
        Key::Tab => Action::Editor(EditorOp::ToggleFocus),
        Key::Up => Action::Editor(EditorOp::Undo),
        Key::Down => Action::Editor(EditorOp::Redo),
        Key::Other => Action::Editor(EditorOp::Input),
    }
}

/// The control state an action moves the loop to: the session ends on a
/// quit or a commit, and keeps running otherwise.
pub fn loop_transition(action: &Action) -> (s: LoopState)
    ensures
        s == match action {
            Action::Quit => LoopState::Exiting(ExitReason::UserQuit),
            Action::CommitAfterGrace => LoopState::Exiting(ExitReason::Committed),
            _ => LoopState::Running,
        },
{
    match action {
        Action::Quit => LoopState::Exiting(ExitReason::UserQuit),
        Action::CommitAfterGrace => LoopState::Exiting(ExitReason::Committed),
        _ => LoopState::Running,
    }
}

/// Everything one draw needs: both panes' visible lines and scrollbars,
/// and whether the output border shows the error colour.
pub struct RenderPlan {
    pub input_lines: Vec<String>,
    pub input_bars: (Option<ScrollBar>, Option<ScrollBar>),
    pub output_lines: Vec<String>,
    pub output_bars: (Option<ScrollBar>, Option<ScrollBar>),
    pub output_error: bool,
}

/// The loop's state: the input document pane, the current reconciled
/// output, the error indicator, and where the panes sit.
pub struct App {
    pub input_scroll_view: ScrollView,
    pub jq_output: JqOutput,
    pub output_error: bool,
    pub rect_set: RectSet,
}

impl App {
    pub open spec fn wf(self) -> bool {
        &&& self.input_scroll_view.wf()
        &&& self.jq_output.wf()
        &&& self.rect_set.wf()
    }

    /// The state after a finished run is reconciled: a successful result
    /// newer than the current one replaces it but inherits the current
    /// scroll offset; an older or equally old one is discarded; a failed
    /// run only turns the error indicator on.  A successful run always
    /// turns it off.
    pub open spec fn spec_after_output(self, res: Result<JqOutput, JqError>) -> App {
        match res {
            Ok(incoming) => {
                let merged = if incoming.instant > self.jq_output.instant {
                    JqOutput {
                        scroll_view: ScrollView {
                            offset: self.jq_output.scroll_view.offset,
                            ..incoming.scroll_view
                        },
                        ..incoming
                    }
                } else {
                    self.jq_output
                };
                App { jq_output: merged, output_error: false, ..self }
            },
            Err(_) => App { output_error: true, ..self },
        }
    }

    /// The state after a mouse event: a wheel tick scrolls the pane whose
    /// rectangle contains the pointer; anywhere else it is ignored.
    pub open spec fn spec_after_mouse(self, ev: MouseInput) -> App {
        if self.rect_set.input.spec_contains(ev.position) {
            App {
                input_scroll_view: ScrollView {
                    offset: self.input_scroll_view.spec_wheel_offset(ev),
                    ..self.input_scroll_view
                },
                ..self
            }
        } else if self.rect_set.output.spec_contains(ev.position) {
            App {
                jq_output: JqOutput {
                    scroll_view: ScrollView {
                        offset: self.jq_output.scroll_view.spec_wheel_offset(ev),
                        ..self.jq_output.scroll_view
                    },
                    ..self.jq_output
                },
                ..self
            }
        } else {
            self
        }
    }

    /// The state before anything happened: empty panes, an empty output
    /// with the earliest possible timestamp, no error, no layout yet.
    pub fn new() -> (app: App)
        ensures
            app.wf(),
            app.input_scroll_view.lines() == Seq::<Seq<char>>::empty(),
            app.input_scroll_view.content@ == Seq::<char>::empty(),
            app.jq_output.instant == 0,
            app.jq_output.scroll_view.lines() == Seq::<Seq<char>>::empty(),
            app.jq_output.scroll_view.content@ == Seq::<char>::empty(),
            !app.output_error,
            app.rect_set == (RectSet {
                input: Rect { x: 0u16, y: 0u16, width: 0u16, height: 0u16 },
                output: Rect { x: 0u16, y: 0u16, width: 0u16, height: 0u16 },
                cli_flags: Rect { x: 0u16, y: 0u16, width: 0u16, height: 0u16 },
                filter: Rect { x: 0u16, y: 0u16, width: 0u16, height: 0u16 },
            }),
    {
        App {
            input_scroll_view: ScrollView::new(),
            jq_output: JqOutput::empty(),
            output_error: false,
            rect_set: RectSet::empty(),
        }
    }

    /// Reconcile a finished run into the current output slot
    /// (last-writer-wins on the run's request time).
    pub fn handle_jq_output(&mut self, res: Result<JqOutput, JqError>)
        ensures
            *final(self) == old(self).spec_after_output(res),
    {
        match res {
            Ok(incoming) => {
                self.output_error = false;
                if self.jq_output.instant() < incoming.instant() {
                    let merged = incoming.with_scroll_view_offset(&self.jq_output);
                    self.jq_output = merged;
                }
            },
            Err(_) => {
                self.output_error = true;
            },
        }
    }

    /// Route a mouse event to the pane under the pointer.
    pub fn handle_mouse_event(&mut self, ev: MouseInput)
        ensures
            *final(self) == old(self).spec_after_mouse(ev),
    {
        if self.rect_set.input.contains(ev.position) {
            self.input_scroll_view.handle_mouse_event(ev);
        } else if self.rect_set.output.contains(ev.position) {
            self.jq_output.scroll_view.handle_mouse_event(ev);
        }
    }

    /// Append freshly read lines of the input document to the input pane.
    pub fn extend_input(&mut self, lines: &Vec<String>)
        requires
            old(self).wf(),
        ensures
            final(self).wf(),
            final(self).input_scroll_view.lines() == old(self).input_scroll_view.lines()
                + lines@.map_values(|l: String| l@),
            final(self).input_scroll_view.offset == old(self).input_scroll_view.offset,
            final(self).input_scroll_view.page_size == old(self).input_scroll_view.page_size,
            final(self).jq_output == old(self).jq_output,
            final(self).output_error == old(self).output_error,
            final(self).rect_set == old(self).rect_set,
    {
        self.input_scroll_view.extend(lines);
    }

    /// Take the reconciled output to end the session with.
    pub fn commit_output(&mut self) -> (content: String)
        requires
            old(self).wf(),
        ensures
            final(self).wf(),
            content@ == old(self).jq_output.scroll_view.content@,
            final(self).jq_output.scroll_view.lines() == Seq::<Seq<char>>::empty(),
            final(self).jq_output.scroll_view.content@ == Seq::<char>::empty(),
            final(self).jq_output.instant == old(self).jq_output.instant,
            final(self).input_scroll_view == old(self).input_scroll_view,
            final(self).output_error == old(self).output_error,
            final(self).rect_set == old(self).rect_set,
    {
        self.jq_output.scroll_view.take_content()
    }

    /// Handle one multiplexed event; the returned action tells the
    /// frontend what to do next.
    pub fn handle_event(&mut self, event: Event) -> (a: Action)
        requires
            old(self).wf(),
            event.wf(),
        ensures
            final(self).wf(),
            match event {
                Event::Key(k) => *final(self) == *old(self) && a == spec_key_action(k),
                Event::Mouse(m) => *final(self) == old(self).spec_after_mouse(m) && a
                    == Action::Ignore,
                Event::JqResult(res) => *final(self) == old(self).spec_after_output(res) && a
                    == Action::Ignore,
                Event::InputLines(lines) => {
                    &&& a == Action::SpawnJq
                    &&& final(self).input_scroll_view.lines() == old(
                        self,
                    ).input_scroll_view.lines() + lines@.map_values(|l: String| l@)
                    &&& final(self).jq_output == old(self).jq_output
                    &&& final(self).output_error == old(self).output_error
                    &&& final(self).rect_set == old(self).rect_set
                },
            },
    {
        match event {
            Event::Key(k) => key_action(k),
            Event::Mouse(m) => {
                self.handle_mouse_event(m);
                Action::Ignore
            },
            Event::JqResult(res) => {
                self.handle_jq_output(res);
                Action::Ignore
            },
            Event::InputLines(lines) => {
                self.extend_input(&lines);
                Action::SpawnJq
            },
        }
    }

    /// Adopt a fresh layout and produce one draw: each pane renders into
    /// the area inside its border, and the output border carries the
    /// error indicator.
    pub fn render(&mut self, rect_set: RectSet) -> (plan: RenderPlan)
        requires
            old(self).wf(),
            rect_set.wf(),
        ensures
            final(self).wf(),
            final(self).rect_set == rect_set,
            final(self).output_error == old(self).output_error,
            final(self).input_scroll_view == (ScrollView {
                page_size: rect_set.input.spec_inner().spec_as_size(),
                ..old(self).input_scroll_view
            }),
            final(self).jq_output == (JqOutput {
                scroll_view: ScrollView {
                    page_size: rect_set.output.spec_inner().spec_as_size(),
                    ..old(self).jq_output.scroll_view
                },
                ..old(self).jq_output
            }),
            plan.output_error == old(self).output_error,
            plan.input_lines@.map_values(|l: String| l@) == spec_window(
                old(self).input_scroll_view.lines(),
                old(self).input_scroll_view.offset.x as int,
                old(self).input_scroll_view.offset.y as int,
                rect_set.input.spec_inner().width as int,
                rect_set.input.spec_inner().height as int,
            ),
            plan.output_lines@.map_values(|l: String| l@) == spec_window(
                old(self).jq_output.scroll_view.lines(),
                old(self).jq_output.scroll_view.offset.x as int,
                old(self).jq_output.scroll_view.offset.y as int,
                rect_set.output.spec_inner().width as int,
                rect_set.output.spec_inner().height as int,
            ),
            scroll_bars_ok(
                plan.input_bars,
                rect_set.input.spec_inner(),
                old(self).input_scroll_view.offset,
                Size {
                    width: old(self).input_scroll_view.content_width,
                    height: old(self).input_scroll_view.spec_content_height() as u16,
                },
            ),
            scroll_bars_ok(
                plan.output_bars,
                rect_set.output.spec_inner(),
                old(self).jq_output.scroll_view.offset,
                Size {
                    width: old(self).jq_output.scroll_view.content_width,
                    height: old(self).jq_output.scroll_view.spec_content_height() as u16,
                },
            ),
    {
        self.rect_set = rect_set;
        let input_inner = rect_set.input.inner();
        let (input_lines, input_bars) = self.input_scroll_view.render(input_inner);
        let output_inner = rect_set.output.inner();
        let (output_lines, output_bars) = self.jq_output.scroll_view.render(output_inner);
        RenderPlan {
            input_lines,
            input_bars,
            output_lines,
            output_bars,
            output_error: self.output_error,
        }
    }
}

/// Last-writer-wins commutes: two successful results with distinct
/// request times reconcile to the same state in either arrival order,
/// and when the later one is newer than the current slot, the later
/// one's content is what ends up displayed.
pub proof fn lemma_lww_commutative(st: App, first: JqOutput, second: JqOutput)
    requires
        first.instant < second.instant,
    ensures
        st.spec_after_output(Ok(first)).spec_after_output(Ok(second)) == st.spec_after_output(
            Ok(second),
        ).spec_after_output(Ok(first)),
        st.jq_output.instant < second.instant ==> {
            let merged = st.spec_after_output(Ok(first)).spec_after_output(Ok(second)).jq_output;
            &&& merged.instant == second.instant
            &&& merged.scroll_view.content == second.scroll_view.content
            &&& merged.scroll_view.line_spans == second.scroll_view.line_spans
        },
{
}

/// Reconciling the same result twice leaves the state exactly as after
/// the first reconciliation.
pub proof fn lemma_lww_idempotent(st: App, res: Result<JqOutput, JqError>)
    ensures
        st.spec_after_output(res).spec_after_output(res) == st.spec_after_output(res),
{
}

} // verus!
