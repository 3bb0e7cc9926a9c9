//! Plain models of the input events the loop reacts to.
//!
//! The terminal backend's own event types stay outside the library; the
//! frontend translates them into these value types before any decision is
//! taken, so every routing and scrolling decision is verified.

use vstd::prelude::*;
use crate::geom::Position;

verus! {

/// The modifier keys held during a mouse or key event.
#[derive(Clone, Copy, Debug, PartialEq, Eq, Structural)]
pub struct KeyModifiers {
    pub shift: bool,
    pub control: bool,
    pub alt: bool,
}

impl KeyModifiers {
    /// Exactly the control key, nothing else.
    pub open spec fn is_control_only(self) -> bool {
        self.control && !self.shift && !self.alt
    }

    /// Exactly the alt key, nothing else.
    pub open spec fn is_alt_only(self) -> bool {
        self.alt && !self.shift && !self.control
    }
}

/// The kinds of mouse event the scroll engine reacts to; anything else is
/// ignored.
#[derive(Clone, Copy, Debug, PartialEq, Eq, Structural)]
pub enum MouseKind {
    ScrollUp,
    ScrollDown,
    ScrollLeft,
    ScrollRight,
    Other,
}

/// A mouse event: where it happened, what it was, and the modifiers held.
#[derive(Clone, Copy, Debug, PartialEq, Eq, Structural)]
pub struct MouseInput {
    pub position: Position,
    pub kind: MouseKind,
    pub modifiers: KeyModifiers,
}

/// A key event, reduced to what the loop decides on: the reserved
/// combinations, the editor history keys, and everything else, which is
/// forwarded verbatim to the focused editor.
#[derive(Clone, Copy, Debug, PartialEq, Eq, Structural)]
pub enum Key {
    /// The reserved force-quit combination.
    CtrlC,
    /// The commit key: end the session with the current output.
    Enter,
    /// Toggle focus between the editable fields.
    Tab,
    /// Undo in the focused editor.
    Up,
    /// Redo in the focused editor.
    Down,
    /// Any other key, forwarded to the focused editor.
    Other,
}

} // verus!
