//! The one-line diagnostics that go to the error stream.

use vstd::prelude::*;

verus! {

/// A diagnostic line: the message behind the prefix `error: `.
pub open spec fn error_line_text(message: Seq<char>) -> Seq<char> {
    "error: "@ + message
}

/// The message for a program that the search path does not hold: the name as
/// it was asked for, in quotes, then the reason the search gave.
pub open spec fn not_found_text(name: Seq<char>, reason: Seq<char>) -> Seq<char> {
    "unable to find '"@ + name + "' in PATH: "@ + reason
}

/// The description of a fault: the platform's text for it, or a stand-in where
/// the platform had none, followed by a note where memory was dumped.
pub open spec fn fault_text(description: Seq<char>, core_dumped: bool) -> Seq<char> {
    let base = if description.len() == 0 {
        "Unknown signal"@
    } else {
        description
    };
    if core_dumped {
        base + " (core dumped)"@
    } else {
        base
    }
}

/// `needle` stands somewhere in `haystack`, unbroken.
pub open spec fn occurs_in(needle: Seq<char>, haystack: Seq<char>) -> bool {
    exists|at: int|
        0 <= at && at + needle.len() <= haystack.len() && #[trigger] haystack.subrange(
            at,
            at + needle.len(),
        ) == needle
}

/// Puts the prefix `error: ` before a message.
pub fn error_line(message: &str) -> (line: String)
    ensures
        line@ == error_line_text(message@),
{
    String::from_str("error: ").concat(message)
}

/// Says that `name` was not found on the search path, and why.
pub fn not_found_error(name: &str, reason: &str) -> (message: String)
    ensures
        message@ == not_found_text(name@, reason@),
{
    let mut message = String::from_str("unable to find '");
    message.append(name);
    message.append("' in PATH: ");
    message.append(reason);
    message
}

/// Describes the fault that ended a child, from the platform's text for it and
/// from whether a memory dump was written.
pub fn signal_error(description: &str, core_dumped: bool) -> (message: String)
    ensures
        message@ == fault_text(description@, core_dumped),
{
    let mut message = if description.is_empty() {
        String::from_str("Unknown signal")
    } else {
        String::from_str(description)
    };
    if core_dumped {
        message.append(" (core dumped)");
    }
    message
}

/// A diagnostic line is never empty, and it starts with the prefix.
pub proof fn lemma_error_line_shape(message: Seq<char>)
    ensures
        error_line_text(message).len() == 7 + message.len(),
        error_line_text(message).subrange(0, 7) == "error: "@,
        error_line_text(message).subrange(7, 7 + message.len() as int) == message,
{
    reveal_strlit("error: ");
    assert(error_line_text(message).subrange(0, 7) =~= "error: "@);
    assert(error_line_text(message).subrange(7, 7 + message.len() as int) =~= message);
}

/// The description of a fault is never empty.
pub proof fn lemma_fault_text_nonempty(description: Seq<char>, core_dumped: bool)
    ensures
        fault_text(description, core_dumped).len() > 0,
{
    reveal_strlit("Unknown signal");
    reveal_strlit(" (core dumped)");
}

/// The message for a program that was not found holds the program's name.
pub proof fn lemma_not_found_names_program(name: Seq<char>, reason: Seq<char>)
    ensures
        occurs_in(name, not_found_text(name, reason)),
{
    reveal_strlit("unable to find '");
    let text = not_found_text(name, reason);
    let at: int = 16;
    assert(text.subrange(at, at + name.len()) =~= name);
}

/// What occurs in a message occurs in the diagnostic line made of it.
pub proof fn lemma_occurs_in_error_line(needle: Seq<char>, message: Seq<char>)
    requires
        occurs_in(needle, message),
    ensures
        occurs_in(needle, error_line_text(message)),
{
    let at = choose|at: int|
        0 <= at && at + needle.len() <= message.len() && #[trigger] message.subrange(
            at,
            at + needle.len(),
        ) == needle;
    let line = error_line_text(message);
    let shift = "error: "@.len() as int;
    assert(line.subrange(shift + at, shift + at + needle.len()) =~= message.subrange(
        at,
        at + needle.len(),
    ));
}

} // verus!
