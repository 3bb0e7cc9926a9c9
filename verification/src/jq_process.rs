//! The external computation: command-line assembly for one `jq` run, and
//! classification of what the run produced.
//!
//! A run is stamped with the moment the user's intent was captured —
//! before the process is launched — so that results can be reconciled by
//! intent order, not by completion order.  The process spawn itself and
//! the streams live outside the library; they hand back plain values
//! (exit success, output bytes, diagnostic bytes) and the library decides
//! what they mean.

use vstd::prelude::*;
use vstd::utf8::{encode_utf8, valid_utf8};
use crate::geom::{Position, Size};
use crate::lines::{line_spans, lines_of, span_texts};
use crate::scroll::{max_width_from, ScrollView};

verus! {

/// What shell-style tokenization makes of a flag string: the words, or
/// nothing when the string is erroneous.
pub uninterp spec fn shell_words(s: Seq<char>) -> Option<Seq<Seq<char>>>;

/// Relies on `shlex::split`: it tokenizes the whole string with POSIX
/// shell word splitting, returns `None` exactly on erroneous input (an
/// unclosed quote, a dangling escape), and depends on the string alone.
#[verifier::external_body]
fn split_shell_words(s: &str) -> (r: Option<Vec<String>>)
    ensures
        match r {
            Some(words) => shell_words(s@) == Some(words@.map_values(|w: String| w@)),
            None => r is None && shell_words(s@) is None,
        },
{
    shlex::split(s)
}

/// Relies on `String::from_utf8`: it succeeds exactly on valid UTF-8 and
/// decodes those bytes.
#[verifier::external_body]
fn string_from_utf8(bytes: Vec<u8>) -> (r: Option<String>)
    ensures
        match r {
            Some(s) => valid_utf8(bytes@) && encode_utf8(s@) == bytes@,
            None => r is None && !valid_utf8(bytes@),
        },
{
    String::from_utf8(bytes).ok()
}

/// Why a `jq` run produced no usable output.  A failed run never touches
/// the displayed output; the loop keeps the last good result visible.
#[derive(Debug, Clone, PartialEq, Eq)]
pub enum JqError {
    /// The flag string did not tokenize as shell words.
    InvalidFlags,
    /// The process could not be launched; the I/O diagnostic.
    Spawn { message: String },
    /// The process exited unsuccessfully; its diagnostic stream.
    Failed { stderr: String },
    /// An output stream was not valid UTF-8.
    NonUtf8,
}

impl JqError {
    /// The diagnostic text for this error.
    pub open spec fn spec_message(self) -> Seq<char> {
        match self {
            JqError::InvalidFlags => "unable to split cli-flags for the shell"@,
            JqError::Spawn { message } => "unable to spawn jq: "@ + message@,
            JqError::Failed { stderr } => "jq failed: "@ + stderr@,
            JqError::NonUtf8 => "jq produced output that is not valid UTF-8"@,
        }
    }

    /// Render the diagnostic text.
    pub fn message(&self) -> (r: String)
        ensures
            r@ == self.spec_message(),
    {
        match self {
            JqError::InvalidFlags => String::from_str(
                "unable to split cli-flags for the shell",
            ),
            JqError::Spawn { message } => String::from_str("unable to spawn jq: ").concat(
                message.as_str(),
            ),
            JqError::Failed { stderr } => String::from_str("jq failed: ").concat(
                stderr.as_str(),
            ),
            JqError::NonUtf8 => String::from_str("jq produced output that is not valid UTF-8"),
        }
    }
}

/// One timestamped result: the pane holding the produced text, stamped
/// with the moment the producing run was requested.
#[derive(Debug)]
pub struct JqOutput {
    pub instant: u64,
    pub scroll_view: ScrollView,
}

impl JqOutput {
    pub open spec fn wf(self) -> bool {
        self.scroll_view.wf()
    }

    /// Wrap `content` from a run requested at `instant`: one pane line per
    /// line of `content`, scrolled to the origin.
    pub fn new(instant: u64, content: &str) -> (out: JqOutput)
        ensures
            out.wf(),
            out.instant == instant,
            out.scroll_view.lines() == lines_of(content@),
            out.scroll_view.offset == (Position { x: 0u16, y: 0u16 }),
            out.scroll_view.page_size == (Size { width: 0u16, height: 0u16 }),
            out.scroll_view.content_width as int == max_width_from(0, lines_of(content@)),
    {
        let spans = line_spans(content);
        let ghost texts = span_texts(content@, spans@);
        let mut view = ScrollView::new();
        let mut i: usize = 0;
        proof {
            assert(view.lines() =~= texts.take(0));
        }
        while i < spans.len()
            invariant
                i <= spans@.len(),
                crate::lines::spans_valid(content@, spans@),
                texts == span_texts(content@, spans@),
                view.wf(),
                view.lines() == texts.take(i as int),
                view.offset == (Position { x: 0u16, y: 0u16 }),
                view.page_size == (Size { width: 0u16, height: 0u16 }),
                view.content_width as int == max_width_from(0, texts.take(i as int)),
            decreases spans@.len() - i,
        {
            let sp = spans[i];
            let line = content.substring_char(sp.start, sp.end);
            view.push_line(line);
            proof {
                assert(texts.take(i + 1) =~= texts.take(i as int).push(texts[i as int]));
                assert(texts.take(i + 1).drop_last() =~= texts.take(i as int));
            }
            i = i + 1;
        }
        proof {
            assert(texts.take(spans@.len() as int) =~= texts);
        }
        JqOutput { instant, scroll_view: view }
    }

    /// The empty result, stamped with the earliest possible moment so any
    /// real result supersedes it.
    pub fn empty() -> (out: JqOutput)
        ensures
            out.wf(),
            out.instant == 0,
            out.scroll_view.lines() == Seq::<Seq<char>>::empty(),
            out.scroll_view.content@ == Seq::<char>::empty(),
            out.scroll_view.offset == (Position { x: 0u16, y: 0u16 }),
    {
        JqOutput { instant: 0, scroll_view: ScrollView::new() }
    }

    pub fn instant(&self) -> (t: u64)
        ensures
            t == self.instant,
    {
        self.instant
    }

    pub fn scroll_view_mut(&mut self) -> (sv: &mut ScrollView)
        ensures
            *sv == old(self).scroll_view,
            final(self).scroll_view == *final(sv),
            final(self).instant == old(self).instant,
    {
        &mut self.scroll_view
    }

    /// This result, scrolled to where `other` was: carries the user's
    /// scroll position across a content refresh.
    pub fn with_scroll_view_offset(self, other: &JqOutput) -> (out: JqOutput)
        ensures
            out == (JqOutput {
                scroll_view: ScrollView {
                    offset: other.scroll_view.offset,
                    ..self.scroll_view
                },
                ..self
            }),
    {
        let mut out = self;
        let offset = other.scroll_view.offset();
        out.scroll_view.set_offset(offset);
        out
    }
}

/// The assembled command line of one run: the program, its arguments (the
/// flag words, then the filter), and the moment the run was requested.
#[derive(Debug)]
pub struct JqCommand {
    pub started_at: u64,
    pub program: String,
    pub args: Vec<String>,
}

/// What a run is built from: the editable flag string, the editable
/// filter, and the moment the user's intent was captured.
#[derive(Debug)]
pub struct JqProcessBuilder {
    pub cli_flags: String,
    pub filter: String,
    pub started_at: u64,
}

impl JqProcessBuilder {
    /// Assemble the command line: tokenize the flag string into shell
    /// words and append the filter, with `.` standing in for an empty
    /// filter.  Fails exactly when the flag string does not tokenize.
    pub fn build(self) -> (r: Result<JqCommand, JqError>)
        ensures
            r is Ok <==> shell_words(self.cli_flags@) is Some,
            r matches Ok(cmd) ==> {
                &&& cmd.started_at == self.started_at
                &&& cmd.program@ == "jq"@
                &&& cmd.args@.map_values(|a: String| a@) == shell_words(
                    self.cli_flags@,
                )->Some_0.push(
                    if self.filter@.len() == 0 {
                        "."@
                    } else {
                        self.filter@
                    },
                )
            },
            r matches Err(e) ==> e == JqError::InvalidFlags,
    {
        match split_shell_words(self.cli_flags.as_str()) {
            None => Err(JqError::InvalidFlags),
            Some(mut args) => {
                let ghost words = args@.map_values(|a: String| a@);
                let filter_arg = if self.filter.as_str().is_empty() {
                    String::from_str(".")
                } else {
                    self.filter
                };
                let ghost filter_view = filter_arg@;
                args.push(filter_arg);
                proof {
                    assert(args@.map_values(|a: String| a@) =~= words.push(filter_view));
                }
                Ok(JqCommand {
                    started_at: self.started_at,
                    program: String::from_str("jq"),
                    args,
                })
            },
        }
    }
}

/// Classify what a finished run produced: the output text of a successful
/// run, stamped with the run's request time; the diagnostic of an
/// unsuccessful one; or the UTF-8 failure of either stream.
pub fn jq_output_from_process(
    started_at: u64,
    status_success: bool,
    stdout: Vec<u8>,
    stderr: Vec<u8>,
) -> (r: Result<JqOutput, JqError>)
    ensures
        r is Ok <==> status_success && valid_utf8(stdout@),
        r matches Ok(out) ==> {
            &&& out.wf()
            &&& out.instant == started_at
            &&& out.scroll_view.offset == (Position { x: 0u16, y: 0u16 })
            &&& exists|text: Seq<char>|
                #[trigger] encode_utf8(text) == stdout@ && out.scroll_view.lines() == lines_of(
                    text,
                )
        },
        !status_success && valid_utf8(stderr@) ==> (r matches Err(JqError::Failed { stderr: msg })
            && encode_utf8(msg@) == stderr@),
        !status_success && !valid_utf8(stderr@) ==> r == Result::<JqOutput, JqError>::Err(
            JqError::NonUtf8,
        ),
        status_success && !valid_utf8(stdout@) ==> r == Result::<JqOutput, JqError>::Err(
            JqError::NonUtf8,
        ),
{
    if status_success {
        match string_from_utf8(stdout) {
            Some(text) => Ok(JqOutput::new(started_at, text.as_str())),
            None => Err(JqError::NonUtf8),
        }
    } else {
        match string_from_utf8(stderr) {
            Some(message) => Err(JqError::Failed { stderr: message }),
            None => Err(JqError::NonUtf8),
        }
    }
}

} // verus!
