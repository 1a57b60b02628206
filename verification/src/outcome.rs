//! How a child process ended, as the operating system reports it and as the
//! tool reads it.

use vstd::prelude::*;
use crate::diagnostics::{fault_text, signal_error};

verus! {

/// The exit code with which the C runtime of Windows ends a process that
/// called `abort`.
pub const WINDOWS_ABORT_EXIT_CODE: i32 = 3;

/// The family of platforms the child runs on. It decides how a runtime abort
/// shows: as a fault of its own, or under an ordinary-looking exit code.
#[derive(Clone, Copy, Debug, PartialEq, Eq, Structural)]
pub enum Platform {
    /// Faults end a process without an exit code.
    Unix,
    /// A runtime abort ends a process with a reserved exit code.
    Windows,
}

/// The way a child ended, as the operating system reported it.
#[derive(Clone, Debug)]
pub enum Termination {
    /// It exited with this code.
    Exited(i32),
    /// A fault ended it. `description` is the platform's text for the fault,
    /// empty where the platform has none.
    Signaled { description: String, core_dumped: bool },
}

/// The mathematical value of a [`Termination`].
pub enum TerminationView {
    Exited(i32),
    Signaled { description: Seq<char>, core_dumped: bool },
}

impl View for Termination {
    type V = TerminationView;

    open spec fn view(&self) -> TerminationView {
        match *self {
            Termination::Exited(code) => TerminationView::Exited(code),
            Termination::Signaled { description, core_dumped } => TerminationView::Signaled {
                description: description@,
                core_dumped,
            },
        }
    }
}

/// The way a child ended, as the tool reads it: a normal exit with its
/// code, or a crash with its description.
#[derive(Clone, Debug)]
pub enum Outcome {
    Exited(i32),
    Signaled(String),
}

/// The mathematical value of an [`Outcome`].
pub enum OutcomeView {
    Exited(i32),
    Signaled(Seq<char>),
}

impl View for Outcome {
    type V = OutcomeView;

    open spec fn view(&self) -> OutcomeView {
        match *self {
            Outcome::Exited(code) => OutcomeView::Exited(code),
            Outcome::Signaled(description) => OutcomeView::Signaled(description@),
        }
    }
}

/// The description given to a runtime abort that showed as an exit code.
pub open spec fn abort_text() -> Seq<char> {
    "other error"@
}

impl Platform {
    /// The exit code that stands for a runtime abort, where the platform has
    /// one.
    pub open spec fn spec_abort_code(self) -> Option<i32> {
        match self {
            Platform::Unix => None,
            Platform::Windows => Some(WINDOWS_ABORT_EXIT_CODE),
        }
    }

    /// The reading of a termination. A fault is a crash, described by
    /// [`fault_text`]. An exit stays an exit, with one exception: where a crash
    /// is expected, the platform's abort code is read as a crash.
    pub open spec fn spec_classify(
        self,
        expect_crash: bool,
        termination: TerminationView,
    ) -> OutcomeView {
        match termination {
            TerminationView::Exited(code) => if expect_crash && self.spec_abort_code() == Some(
                code,
            ) {
                OutcomeView::Signaled(abort_text())
            } else {
                OutcomeView::Exited(code)
            },
            TerminationView::Signaled { description, core_dumped } => OutcomeView::Signaled(
                fault_text(description, core_dumped),
            ),
        }
    }

    /// The exit code that stands for a runtime abort, where the platform has
    /// one.
    pub fn abort_code(self) -> (code: Option<i32>)
        ensures
            code == self.spec_abort_code(),
    {
        match self {
            Platform::Unix => None,
            Platform::Windows => Some(WINDOWS_ABORT_EXIT_CODE),
        }
    }

    /// Reads a termination as an exit or as a crash.
    pub fn classify(self, expect_crash: bool, termination: Termination) -> (outcome: Outcome)
        ensures
            outcome@ == self.spec_classify(expect_crash, termination@),
    {
        match termination {
            Termination::Exited(code) => {
                let aborted = match self.abort_code() {
                    Some(abort) => expect_crash && code == abort,
                    None => false,
                };
                if aborted {
                    Outcome::Signaled(String::from_str("other error"))
                } else {
                    Outcome::Exited(code)
                }
            },
            Termination::Signaled { description, core_dumped } => Outcome::Signaled(
                signal_error(description.as_str(), core_dumped),
            ),
        }
    }
}

} // verus!
