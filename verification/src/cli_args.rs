//! The `jq` flags the session starts with.
//!
//! The frontend parses the command line; this type only carries the
//! chosen flags and renders them into the editable flag string the flags
//! field is seeded with.

use vstd::prelude::*;

verus! {

/// The `jq` flags that can be chosen up front.
#[derive(Clone, Copy, Debug, PartialEq, Eq, Structural)]
pub struct JqCliArgs {
    pub compact_output: bool,
    pub null_input: bool,
    pub raw_input: bool,
    pub raw_output: bool,
    pub slurp: bool,
}

impl JqCliArgs {
    /// The editable flag string: each chosen flag, each followed by one
    /// space.  The trailing space is kept deliberately: a user editing
    /// the field will want to type after it.
    pub open spec fn spec_flags_string(self) -> Seq<char> {
        (if self.compact_output {
            "--compact-output "@
        } else {
            Seq::<char>::empty()
        }) + (if self.null_input {
            "--null-input "@
        } else {
            Seq::<char>::empty()
        }) + (if self.raw_input {
            "--raw-input "@
        } else {
            Seq::<char>::empty()
        }) + (if self.raw_output {
            "--raw-output "@
        } else {
            Seq::<char>::empty()
        }) + (if self.slurp {
            "--slurp "@
        } else {
            Seq::<char>::empty()
        })
    }

    /// Render the chosen flags into the editable flag string.
    pub fn to_flags_string(&self) -> (r: String)
        ensures
            r@ == self.spec_flags_string(),
    {
        let mut r = String::new();
        if self.compact_output {
            r.append("--compact-output ");
        }
        if self.null_input {
            r.append("--null-input ");
        }
        if self.raw_input {
            r.append("--raw-input ");
        }
        if self.raw_output {
            r.append("--raw-output ");
        }
        if self.slurp {
            r.append("--slurp ");
        }
        proof {
            assert(r@ =~= self.spec_flags_string());
        }
        r
    }
}

} // verus!
