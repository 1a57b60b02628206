//! How the tool ends.

use vstd::prelude::*;

verus! {

/// The exit code by which the tool reports that the child did what was
/// expected of it: it failed, or it crashed.
pub const EXIT_SUCCESS: i32 = 0;

/// The exit code by which the tool reports everything else.
pub const EXIT_FAILURE: i32 = 1;

/// How the tool ends: the line it writes to the error stream, if any, and its
/// exit code.
#[derive(Clone, Debug)]
pub struct Verdict {
    pub diagnostic: Option<String>,
    pub exit_code: i32,
}

/// The mathematical value of a [`Verdict`].
pub struct VerdictView {
    pub diagnostic: Option<Seq<char>>,
    pub exit_code: i32,
}

impl View for Verdict {
    type V = VerdictView;

    open spec fn view(&self) -> VerdictView {
        VerdictView {
            diagnostic: match self.diagnostic {
                Some(line) => Some(line@),
                None => None,
            },
            exit_code: self.exit_code,
        }
    }
}

} // verus!
