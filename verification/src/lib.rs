//! Core of an interactive viewer that pipes a text document through an
//! external `jq` process while the user edits the filter live.
//!
//! The library owns the verified logic: line indexing over the document,
//! grapheme-safe column extraction, the scroll/viewport engine with its
//! clamping and scrollbar geometry, assembly of the external command line,
//! classification of the process outcome, and the last-writer-wins
//! reconciliation of asynchronously arriving results.  Terminal I/O, the
//! process spawn itself and the editing widgets live outside the library
//! and talk to it through plain values.

pub mod app;
pub mod cli_args;
pub mod event;
pub mod geom;
pub mod graphemes;
pub mod jq_process;
pub mod lines;
pub mod rect_set;
pub mod scroll;
pub mod scroll_state;
