//! The policy: from the way the child ended to what the tool prints and the
//! code it exits with.

use vstd::prelude::*;
use crate::diagnostics::{error_line_text, fault_text, lemma_fault_text_nonempty};
use crate::failure::{spec_report, Failure, FailureView};
use crate::outcome::{Outcome, OutcomeView, Platform, Termination, TerminationView};
use crate::verdict::{Verdict, VerdictView, EXIT_FAILURE, EXIT_SUCCESS};

verus! {

/// What spawning and waiting gave: how the child ended, or the reason the
/// operating system gave for not starting it.
pub open spec fn launch_view(launch: Result<Termination, String>) -> Result<
    TerminationView,
    Seq<char>,
> {
    match launch {
        Ok(termination) => Ok(termination@),
        Err(reason) => Err(reason@),
    }
}

/// The exit code for an outcome. A child that exited with 0 is a failure and
/// one that exited with anything else a success, whether or not a crash was
/// expected. A crash is a success exactly where one was expected.
pub open spec fn spec_exit_code(expect_crash: bool, outcome: OutcomeView) -> i32 {
    match outcome {
        OutcomeView::Exited(code) => if code == 0 {
            EXIT_FAILURE
        } else {
            EXIT_SUCCESS
        },
        OutcomeView::Signaled(_) => if expect_crash {
            EXIT_SUCCESS
        } else {
            EXIT_FAILURE
        },
    }
}

/// The verdict on an outcome. An exit is judged by its code, in silence. A
/// crash is reported as an abnormal termination.
pub open spec fn spec_judge(expect_crash: bool, outcome: OutcomeView) -> VerdictView {
    match outcome {
        OutcomeView::Exited(_) => VerdictView {
            diagnostic: None,
            exit_code: spec_exit_code(expect_crash, outcome),
        },
        OutcomeView::Signaled(description) => spec_report(
            expect_crash,
            FailureView::AbnormalTermination { description },
        ),
    }
}

/// The verdict on what spawning and waiting gave: that on the outcome as the
/// platform reads it, or the report of a child that did not start.
pub open spec fn spec_translate(
    platform: Platform,
    expect_crash: bool,
    launch: Result<TerminationView, Seq<char>>,
) -> VerdictView {
    match launch {
        Ok(termination) => spec_judge(
            expect_crash,
            platform.spec_classify(expect_crash, termination),
        ),
        Err(reason) => spec_report(expect_crash, FailureView::Spawn { reason }),
    }
}

/// The exit code for an outcome.
pub fn exit_code(expect_crash: bool, outcome: &Outcome) -> (code: i32)
    ensures
        code == spec_exit_code(expect_crash, outcome@),
{
    match outcome {
        Outcome::Exited(code) => if *code == 0 {
            EXIT_FAILURE
        } else {
            EXIT_SUCCESS
        },
        Outcome::Signaled(_) => if expect_crash {
            EXIT_SUCCESS
        } else {
            EXIT_FAILURE
        },
    }
}

/// The verdict on an outcome.
pub fn judge(expect_crash: bool, outcome: Outcome) -> (verdict: Verdict)
    ensures
        verdict@ == spec_judge(expect_crash, outcome@),
        verdict.exit_code == spec_exit_code(expect_crash, outcome@),
{
    match outcome {
        Outcome::Exited(_) => Verdict {
            diagnostic: None,
            exit_code: exit_code(expect_crash, &outcome),
        },
        Outcome::Signaled(description) => {
            let failure = Failure::AbnormalTermination { description };
            failure.report(expect_crash)
        },
    }
}

/// The verdict on what spawning and waiting gave: `Ok` with the way the child
/// ended, or `Err` with the reason it was not started.
pub fn translate(platform: Platform, expect_crash: bool, launch: Result<Termination, String>) -> (verdict: Verdict)
    ensures
        verdict@ == spec_translate(platform, expect_crash, launch_view(launch)),
{
    match launch {
        Ok(termination) => judge(expect_crash, platform.classify(expect_crash, termination)),
        Err(reason) => {
            let failure = Failure::Spawn { reason };
            failure.report(expect_crash)
        },
    }
}

/// A child that exits with code 0 makes the tool fail, and nothing is printed,
/// whether or not a crash was expected.
pub proof fn lemma_clean_exit_fails(platform: Platform, expect_crash: bool)
    ensures
        spec_translate(platform, expect_crash, Ok(TerminationView::Exited(0))) == (VerdictView {
            diagnostic: None,
            exit_code: 1,
        }),
{
}

/// A child that exits with a code other than 0 makes the tool succeed,
/// whatever the code is. Where no crash was expected, nothing is printed.
pub proof fn lemma_failed_exit_succeeds(platform: Platform, expect_crash: bool, code: i32)
    requires
        code != 0,
    ensures
        spec_translate(platform, expect_crash, Ok(TerminationView::Exited(code))).exit_code == 0,
        !expect_crash ==> spec_translate(
            platform,
            expect_crash,
            Ok(TerminationView::Exited(code)),
        ).diagnostic is None,
{
}

/// A child that a fault ended makes the tool succeed where a crash was
/// expected and fail where none was. Either way the line that is printed is
/// the prefix and the description of the fault. The description is not empty,
/// and it starts with the platform's text for the fault where there is one.
pub proof fn lemma_fault_is_described(
    platform: Platform,
    expect_crash: bool,
    description: Seq<char>,
    core_dumped: bool,
)
    ensures
        spec_translate(
            platform,
            expect_crash,
            Ok(TerminationView::Signaled { description, core_dumped }),
        ) == (VerdictView {
            diagnostic: Some(error_line_text(fault_text(description, core_dumped))),
            exit_code: if expect_crash {
                0
            } else {
                1
            },
        }),
        fault_text(description, core_dumped).len() > 0,
        description.len() > 0 ==> fault_text(description, core_dumped).subrange(
            0,
            description.len() as int,
        ) == description,
{
    lemma_fault_text_nonempty(description, core_dumped);
    assert(description.len() > 0 ==> fault_text(description, core_dumped).subrange(
        0,
        description.len() as int,
    ) =~= description);
}

/// A child that could not be started counts as the crash that was expected,
/// if one was, and as a failure if none was. The reason is printed.
pub proof fn lemma_spawn_failure_follows_flag(
    platform: Platform,
    expect_crash: bool,
    reason: Seq<char>,
)
    ensures
        spec_translate(platform, expect_crash, Err(reason)) == (VerdictView {
            diagnostic: Some(error_line_text(reason)),
            exit_code: if expect_crash {
                0
            } else {
                1
            },
        }),
{
}

/// The tool exits with 0 or with 1, and with nothing else.
pub proof fn lemma_exit_code_is_binary(
    platform: Platform,
    expect_crash: bool,
    launch: Result<TerminationView, Seq<char>>,
)
    ensures
        spec_translate(platform, expect_crash, launch).exit_code == 0 || spec_translate(
            platform,
            expect_crash,
            launch,
        ).exit_code == 1,
{
}

} // verus!
