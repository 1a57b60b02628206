use invert_status::command_line::parse_args;
use invert_status::outcome::{Platform, Termination};
use invert_status::policy::translate;
use invert_status::verdict::Verdict;
use std::path::PathBuf;

fn argv(words: &[&str]) -> Vec<String> {
    words.iter().map(|word| word.to_string()).collect()
}

/// Runs the tool's decisions on a command line, with what the lookup and the
/// child are said to have done.
fn session(
    platform: Platform,
    words: &[&str],
    found: Result<PathBuf, String>,
    launch: Result<Termination, String>,
) -> Verdict {
    let request = match parse_args(&argv(words)) {
        Ok(request) => request,
        Err(verdict) => return verdict,
    };
    match request.resolve(found) {
        Ok(plan) => translate(platform, plan.expect_crash, launch),
        Err(verdict) => verdict,
    }
}

#[test]
fn true_succeeds_so_the_tool_fails() {
    let verdict = session(
        Platform::Unix,
        &["tool", "true"],
        Ok(PathBuf::from("/bin/true")),
        Ok(Termination::Exited(0)),
    );
    assert_eq!(verdict.exit_code, 1);
    assert_eq!(verdict.diagnostic, None);
}

#[test]
fn false_fails_so_the_tool_succeeds() {
    let verdict = session(
        Platform::Unix,
        &["tool", "false"],
        Ok(PathBuf::from("/bin/false")),
        Ok(Termination::Exited(1)),
    );
    assert_eq!(verdict.exit_code, 0);
    assert_eq!(verdict.diagnostic, None);
}

#[test]
fn missing_program_fails_even_when_a_crash_is_expected() {
    let verdict = session(
        Platform::Unix,
        &["tool", "--crash", "does-not-exist"],
        Err("No such file or directory".to_string()),
        Ok(Termination::Exited(0)),
    );
    assert_eq!(verdict.exit_code, 1);
    let line = verdict.diagnostic.expect("a diagnostic");
    assert!(line.contains("does-not-exist"));
    assert_eq!(
        line,
        "error: unable to find 'does-not-exist' in PATH: No such file or directory"
    );
}

#[test]
fn missing_program_fails_without_the_flag_too() {
    let verdict = session(
        Platform::Unix,
        &["tool", "does-not-exist"],
        Err("not found".to_string()),
        Ok(Termination::Exited(0)),
    );
    assert_eq!(verdict.exit_code, 1);
    assert_eq!(
        verdict.diagnostic,
        Some("error: unable to find 'does-not-exist' in PATH: not found".to_string())
    );
}

#[test]
fn expected_crash_succeeds_and_names_the_fault() {
    let verdict = session(
        Platform::Unix,
        &["tool", "--crash", "crasher"],
        Ok(PathBuf::from("/usr/bin/crasher")),
        Ok(Termination::Signaled {
            description: "Segmentation fault".to_string(),
            core_dumped: false,
        }),
    );
    assert_eq!(verdict.exit_code, 0);
    let line = verdict.diagnostic.expect("a diagnostic");
    assert!(line.contains("Segmentation fault"));
    assert_eq!(line, "error: Segmentation fault");
}

#[test]
fn unexpected_crash_fails_and_names_the_fault() {
    let verdict = session(
        Platform::Unix,
        &["tool", "crasher"],
        Ok(PathBuf::from("/usr/bin/crasher")),
        Ok(Termination::Signaled {
            description: "Illegal instruction".to_string(),
            core_dumped: true,
        }),
    );
    assert_eq!(verdict.exit_code, 1);
    assert_eq!(
        verdict.diagnostic,
        Some("error: Illegal instruction (core dumped)".to_string())
    );
}

#[test]
fn no_program_named_fails_silently() {
    for words in [&[][..], &["tool"][..], &["tool", "--crash"][..]] {
        let verdict = session(
            Platform::Unix,
            words,
            Ok(PathBuf::from("/bin/true")),
            Ok(Termination::Exited(1)),
        );
        assert_eq!(verdict.exit_code, 1);
        assert_eq!(verdict.diagnostic, None);
    }
}
