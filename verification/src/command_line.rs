//! From the command line to the program that is to be run: reading the
//! arguments, and what follows once the program has been looked up.

use vstd::prelude::*;
use crate::failure::{spec_report, Failure, FailureView};
use crate::verdict::{Verdict, VerdictView, EXIT_FAILURE};

verus! {

/// The path of an executable, carried from the lookup to the spawn without
/// being read.
#[verifier::external_type_specification]
#[verifier::external_body]
pub struct ExPathBuf(std::path::PathBuf);

/// What the command line asks for.
#[derive(Clone, Debug)]
pub struct Request {
    /// The child is expected to crash.
    pub expect_crash: bool,
    /// The program's name, as it was written.
    pub program_name: String,
    /// The arguments for the program, in order.
    pub args: Vec<String>,
}

/// The mathematical value of a [`Request`].
pub struct RequestView {
    pub expect_crash: bool,
    pub program_name: Seq<char>,
    pub args: Seq<Seq<char>>,
}

/// A resolved program and the arguments it is run with. Nothing changes it
/// once it is made.
#[derive(Debug)]
pub struct Invocation {
    program: std::path::PathBuf,
    args: Vec<String>,
}

/// The mathematical value of an [`Invocation`].
pub struct InvocationView {
    pub program: std::path::PathBuf,
    pub args: Seq<Seq<char>>,
}

/// All that spawning the child takes: what to run, the environment variables
/// to set for it over those it inherits, and whether it is expected to crash.
#[derive(Debug)]
pub struct Launch {
    pub invocation: Invocation,
    pub environment: Vec<(String, String)>,
    pub expect_crash: bool,
}

/// The mathematical value of a [`Launch`].
pub struct LaunchView {
    pub invocation: InvocationView,
    pub environment: Seq<(Seq<char>, Seq<char>)>,
    pub expect_crash: bool,
}

/// The strings of a sequence, each as its characters.
pub open spec fn strings(items: Seq<String>) -> Seq<Seq<char>> {
    Seq::new(items.len(), |i: int| items[i]@)
}

/// The pairs of a sequence, each string as its characters.
pub open spec fn bindings(items: Seq<(String, String)>) -> Seq<(Seq<char>, Seq<char>)> {
    Seq::new(items.len(), |i: int| (items[i].0@, items[i].1@))
}

impl View for Request {
    type V = RequestView;

    open spec fn view(&self) -> RequestView {
        RequestView {
            expect_crash: self.expect_crash,
            program_name: self.program_name@,
            args: strings(self.args@),
        }
    }
}

impl View for Invocation {
    type V = InvocationView;

    closed spec fn view(&self) -> InvocationView {
        InvocationView { program: self.program, args: strings(self.args@) }
    }
}

impl View for Launch {
    type V = LaunchView;

    open spec fn view(&self) -> LaunchView {
        LaunchView {
            invocation: self.invocation@,
            environment: bindings(self.environment@),
            expect_crash: self.expect_crash,
        }
    }
}

/// The marker that, as the first argument, says that a crash is expected.
pub open spec fn crash_flag() -> Seq<char> {
    "--crash"@
}

/// The reading of a command line, `argv[0]` being the tool's own name. The
/// first argument is the marker or the program's name; behind the marker the
/// next argument is the program's name. Everything behind the name goes to the
/// program as it stands. `None` where no program is named.
pub open spec fn spec_parse_args(argv: Seq<Seq<char>>) -> Option<RequestView> {
    if argv.len() < 2 {
        None
    } else if argv[1] == crash_flag() {
        if argv.len() < 3 {
            None
        } else {
            Some(RequestView { expect_crash: true, program_name: argv[2], args: argv.skip(3) })
        }
    } else {
        Some(RequestView { expect_crash: false, program_name: argv[1], args: argv.skip(2) })
    }
}

/// The verdict on a command line that names no program: nothing is printed.
pub open spec fn usage_verdict() -> VerdictView {
    VerdictView { diagnostic: None, exit_code: EXIT_FAILURE }
}

/// The variables set for a child that is expected to crash. They tell it to
/// write no crash report and to leave addresses as they are, which keeps its
/// output short. Any other child gets none.
pub open spec fn spec_env_overrides(expect_crash: bool) -> Seq<(Seq<char>, Seq<char>)> {
    if expect_crash {
        seq![("LLVM_DISABLE_CRASH_REPORT"@, "1"@), ("LLVM_DISABLE_SYMBOLIZATION"@, "1"@)]
    } else {
        Seq::empty()
    }
}

/// What follows the lookup of a request's program: with the path that was
/// found, the launch; with the reason why none was, the report of that
/// failure.
pub open spec fn spec_resolve(
    request: RequestView,
    found: Result<std::path::PathBuf, Seq<char>>,
) -> Result<LaunchView, VerdictView> {
    match found {
        Ok(program) => Ok(
            LaunchView {
                invocation: InvocationView { program, args: request.args },
                environment: spec_env_overrides(request.expect_crash),
                expect_crash: request.expect_crash,
            },
        ),
        Err(reason) => Err(
            spec_report(
                request.expect_crash,
                FailureView::Resolution { name: request.program_name, reason },
            ),
        ),
    }
}

/// What a lookup gave: the path, or the reason as its characters.
pub open spec fn lookup_view(found: Result<std::path::PathBuf, String>) -> Result<
    std::path::PathBuf,
    Seq<char>,
> {
    match found {
        Ok(program) => Ok(program),
        Err(reason) => Err(reason@),
    }
}

impl Invocation {
    /// An invocation of `program` with `args`.
    pub fn new(program: std::path::PathBuf, args: Vec<String>) -> (invocation: Invocation)
        ensures
            invocation@ == (InvocationView { program, args: strings(args@) }),
    {
        Invocation { program, args }
    }

    /// The program's path.
    pub fn program(&self) -> (program: &std::path::PathBuf)
        ensures
            *program == self@.program,
    {
        &self.program
    }

    /// The arguments the program is run with.
    pub fn args(&self) -> (args: &Vec<String>)
        ensures
            strings(args@) == self@.args,
    {
        &self.args
    }
}

/// Copies the items of `argv` from index `from` on.
fn arguments_from(argv: &Vec<String>, from: usize) -> (rest: Vec<String>)
    requires
        from <= argv.len(),
    ensures
        strings(rest@) == strings(argv@).skip(from as int),
{
    let mut rest: Vec<String> = Vec::new();
    let mut i: usize = from;
    while i < argv.len()
        invariant
            from <= i <= argv.len(),
            rest.len() == i - from,
            forall|k: int| 0 <= k < rest.len() ==> rest[k]@ == argv[from + k]@,
        decreases argv.len() - i,
    {
        rest.push(argv[i].clone());
        i += 1;
    }
    assert(strings(rest@) =~= strings(argv@).skip(from as int));
    rest
}

/// Reads a command line, `argv[0]` being the tool's own name. Gives the
/// request, or the verdict where no program is named.
pub fn parse_args(argv: &Vec<String>) -> (parsed: Result<Request, Verdict>)
    ensures
        match spec_parse_args(strings(argv@)) {
            Some(request) => parsed is Ok && parsed->Ok_0@ == request,
            None => parsed is Err && parsed->Err_0@ == usage_verdict(),
        },
{
    let usage = Verdict { diagnostic: None, exit_code: EXIT_FAILURE };
    if argv.len() < 2 {
        return Err(usage);
    }
    let flag = String::from_str("--crash");
    if argv[1] == flag {
        if argv.len() < 3 {
            return Err(usage);
        }
        Ok(
            Request {
                expect_crash: true,
                program_name: argv[2].clone(),
                args: arguments_from(argv, 3),
            },
        )
    } else {
        Ok(
            Request {
                expect_crash: false,
                program_name: argv[1].clone(),
                args: arguments_from(argv, 2),
            },
        )
    }
}

/// The variables to set for the child, over those it inherits.
pub fn env_overrides(expect_crash: bool) -> (environment: Vec<(String, String)>)
    ensures
        bindings(environment@) == spec_env_overrides(expect_crash),
{
    let mut environment: Vec<(String, String)> = Vec::new();
    if expect_crash {
        environment.push((String::from_str("LLVM_DISABLE_CRASH_REPORT"), String::from_str("1")));
        environment.push((String::from_str("LLVM_DISABLE_SYMBOLIZATION"), String::from_str("1")));
    }
    assert(bindings(environment@) =~= spec_env_overrides(expect_crash));
    environment
}

impl Request {
    /// Takes what the lookup of the program gave: `Ok` with its path, or `Err`
    /// with the reason why it was not found. Gives the launch, or the verdict
    /// on a program that was not found.
    pub fn resolve(self, found: Result<std::path::PathBuf, String>) -> (next: Result<
        Launch,
        Verdict,
    >)
        ensures
            match spec_resolve(self@, lookup_view(found)) {
                Ok(launch) => next is Ok && next->Ok_0@ == launch,
                Err(verdict) => next is Err && next->Err_0@ == verdict,
            },
    {
        match found {
            Ok(program) => Ok(
                Launch {
                    invocation: Invocation::new(program, self.args),
                    environment: env_overrides(self.expect_crash),
                    expect_crash: self.expect_crash,
                },
            ),
            Err(reason) => {
                let failure = Failure::Resolution { name: self.program_name, reason };
                Err(failure.report(self.expect_crash))
            },
        }
    }
}

} // verus!
