//! The three things that can go wrong, and how each is reported.

use vstd::prelude::*;
use crate::diagnostics::{
    error_line,
    error_line_text,
    lemma_error_line_shape,
    lemma_not_found_names_program,
    lemma_occurs_in_error_line,
    not_found_error,
    not_found_text,
    occurs_in,
};
use crate::verdict::{Verdict, VerdictView, EXIT_FAILURE, EXIT_SUCCESS};

verus! {

/// What went wrong. None of these is tried again.
#[derive(Clone, Debug)]
pub enum Failure {
    /// The search path does not hold the program. `reason` is what the search
    /// said.
    Resolution { name: String, reason: String },
    /// The operating system did not start the child. `reason` is what it said.
    Spawn { reason: String },
    /// A fault ended the child.
    AbnormalTermination { description: String },
}

/// The mathematical value of a [`Failure`].
pub enum FailureView {
    Resolution { name: Seq<char>, reason: Seq<char> },
    Spawn { reason: Seq<char> },
    AbnormalTermination { description: Seq<char> },
}

impl View for Failure {
    type V = FailureView;

    open spec fn view(&self) -> FailureView {
        match *self {
            Failure::Resolution { name, reason } => FailureView::Resolution {
                name: name@,
                reason: reason@,
            },
            Failure::Spawn { reason } => FailureView::Spawn { reason: reason@ },
            Failure::AbnormalTermination { description } => FailureView::AbnormalTermination {
                description: description@,
            },
        }
    }
}

/// What is said of a failure, behind the prefix.
pub open spec fn spec_message(failure: FailureView) -> Seq<char> {
    match failure {
        FailureView::Resolution { name, reason } => not_found_text(name, reason),
        FailureView::Spawn { reason } => reason,
        FailureView::AbnormalTermination { description } => description,
    }
}

/// The exit code after a failure. A program that was not found was never run,
/// so that is a failure of the tool whatever was expected. A child that did
/// not start, or that a fault ended, is the crash that was expected, if one
/// was.
pub open spec fn spec_failure_exit_code(expect_crash: bool, failure: FailureView) -> i32 {
    match failure {
        FailureView::Resolution { .. } => EXIT_FAILURE,
        _ => if expect_crash {
            EXIT_SUCCESS
        } else {
            EXIT_FAILURE
        },
    }
}

/// The verdict after a failure: one line for the error stream, and the exit
/// code.
pub open spec fn spec_report(expect_crash: bool, failure: FailureView) -> VerdictView {
    VerdictView {
        diagnostic: Some(error_line_text(spec_message(failure))),
        exit_code: spec_failure_exit_code(expect_crash, failure),
    }
}

impl Failure {
    /// What is said of the failure, behind the prefix.
    pub fn message(&self) -> (message: String)
        ensures
            message@ == spec_message(self@),
    {
        match self {
            Failure::Resolution { name, reason } => not_found_error(name.as_str(), reason.as_str()),
            Failure::Spawn { reason } => reason.clone(),
            Failure::AbnormalTermination { description } => description.clone(),
        }
    }

    /// The exit code after the failure.
    pub fn exit_code(&self, expect_crash: bool) -> (code: i32)
        ensures
            code == spec_failure_exit_code(expect_crash, self@),
    {
        match self {
            Failure::Resolution { .. } => EXIT_FAILURE,
            _ => if expect_crash {
                EXIT_SUCCESS
            } else {
                EXIT_FAILURE
            },
        }
    }

    /// The verdict after the failure.
    pub fn report(&self, expect_crash: bool) -> (verdict: Verdict)
        ensures
            verdict@ == spec_report(expect_crash, self@),
    {
        let message = self.message();
        Verdict {
            diagnostic: Some(error_line(message.as_str())),
            exit_code: self.exit_code(expect_crash),
        }
    }
}

/// Every failure is reported on one line that starts with `error: `, and the
/// tool then exits with 0 or 1.
pub proof fn lemma_report_shape(expect_crash: bool, failure: FailureView)
    ensures
        spec_report(expect_crash, failure).diagnostic is Some,
        spec_report(expect_crash, failure).diagnostic->Some_0.len() >= 7,
        spec_report(expect_crash, failure).diagnostic->Some_0.subrange(0, 7) == "error: "@,
        spec_report(expect_crash, failure).exit_code == 0 || spec_report(
            expect_crash,
            failure,
        ).exit_code == 1,
{
    lemma_error_line_shape(spec_message(failure));
}

/// A program that is not on the search path ends the tool with a failure and
/// with a line that holds the program's name, whether or not a crash was
/// expected.
pub proof fn lemma_not_found_fails_and_names_program(
    expect_crash: bool,
    name: Seq<char>,
    reason: Seq<char>,
)
    ensures
        spec_report(expect_crash, FailureView::Resolution { name, reason }).exit_code == 1,
        spec_report(expect_crash, FailureView::Resolution { name, reason }).diagnostic is Some,
        occurs_in(
            name,
            spec_report(expect_crash, FailureView::Resolution { name, reason }).diagnostic->Some_0,
        ),
{
    lemma_not_found_names_program(name, reason);
    lemma_occurs_in_error_line(name, not_found_text(name, reason));
}

} // verus!
