use invert_status::command_line::{env_overrides, parse_args, Invocation, Request};
use invert_status::diagnostics::{error_line, not_found_error, signal_error};
use std::path::PathBuf;

fn words(items: &[&str]) -> Vec<String> {
    items.iter().map(|item| item.to_string()).collect()
}

fn parsed(items: &[&str]) -> Request {
    parse_args(&words(items)).expect("a request")
}

#[test]
fn program_name_comes_first_without_the_flag() {
    let request = parsed(&["tool", "ls", "-l", "/tmp"]);
    assert!(!request.expect_crash);
    assert_eq!(request.program_name, "ls");
    assert_eq!(request.args, words(&["-l", "/tmp"]));
}

#[test]
fn program_name_follows_the_flag() {
    let request = parsed(&["tool", "--crash", "ls", "-l", "/tmp"]);
    assert!(request.expect_crash);
    assert_eq!(request.program_name, "ls");
    assert_eq!(request.args, words(&["-l", "/tmp"]));
}

#[test]
fn program_without_arguments() {
    let request = parsed(&["tool", "true"]);
    assert!(!request.expect_crash);
    assert_eq!(request.program_name, "true");
    assert!(request.args.is_empty());
    let request = parsed(&["tool", "--crash", "true"]);
    assert!(request.expect_crash);
    assert_eq!(request.program_name, "true");
    assert!(request.args.is_empty());
}

#[test]
fn the_flag_counts_only_in_first_place() {
    let request = parsed(&["tool", "prog", "--crash", "x"]);
    assert!(!request.expect_crash);
    assert_eq!(request.program_name, "prog");
    assert_eq!(request.args, words(&["--crash", "x"]));

    let request = parsed(&["tool", "--crash", "--crash", "x"]);
    assert!(request.expect_crash);
    assert_eq!(request.program_name, "--crash");
    assert_eq!(request.args, words(&["x"]));
}

#[test]
fn the_flag_is_matched_whole() {
    for name in ["--crashes", "--cras", "-crash", "--CRASH", ""] {
        let request = parsed(&["tool", name, "x"]);
        assert!(!request.expect_crash);
        assert_eq!(request.program_name, name);
        assert_eq!(request.args, words(&["x"]));
    }
}

#[test]
fn arguments_pass_through_verbatim() {
    let request = parsed(&["tool", "echo", "", " a b ", "--", "-n", "é"]);
    assert_eq!(request.args, words(&["", " a b ", "--", "-n", "é"]));
}

#[test]
fn command_line_without_program_is_refused() {
    for items in [&[][..], &["tool"][..], &["tool", "--crash"][..]] {
        let verdict = parse_args(&words(items)).expect_err("no request");
        assert_eq!(verdict.exit_code, 1);
        assert_eq!(verdict.diagnostic, None);
    }
}

#[test]
fn crash_report_is_switched_off_only_for_an_expected_crash() {
    assert!(env_overrides(false).is_empty());
    assert_eq!(
        env_overrides(true),
        vec![
            ("LLVM_DISABLE_CRASH_REPORT".to_string(), "1".to_string()),
            ("LLVM_DISABLE_SYMBOLIZATION".to_string(), "1".to_string()),
        ]
    );
}

#[test]
fn resolve_builds_the_launch() {
    let plan = parsed(&["tool", "--crash", "prog", "a", "b"])
        .resolve(Ok(PathBuf::from("/opt/bin/prog")))
        .expect("a launch");
    assert!(plan.expect_crash);
    assert_eq!(plan.invocation.program(), &PathBuf::from("/opt/bin/prog"));
    assert_eq!(plan.invocation.args(), &words(&["a", "b"]));
    assert_eq!(plan.environment, env_overrides(true));

    let plan = parsed(&["tool", "prog"])
        .resolve(Ok(PathBuf::from("prog")))
        .expect("a launch");
    assert!(!plan.expect_crash);
    assert_eq!(plan.invocation.program(), &PathBuf::from("prog"));
    assert!(plan.invocation.args().is_empty());
    assert!(plan.environment.is_empty());
}

#[test]
fn resolve_reports_a_missing_program() {
    for items in [&["tool", "nope", "x"][..], &["tool", "--crash", "nope", "x"][..]] {
        let verdict = parsed(items)
            .resolve(Err("cannot find it".to_string()))
            .expect_err("no launch");
        assert_eq!(verdict.exit_code, 1);
        assert_eq!(
            verdict.diagnostic,
            Some("error: unable to find 'nope' in PATH: cannot find it".to_string())
        );
    }
}

#[test]
fn invocation_keeps_what_it_was_made_of() {
    let invocation = Invocation::new(PathBuf::from("/bin/sh"), words(&["-c", "exit 3"]));
    assert_eq!(invocation.program(), &PathBuf::from("/bin/sh"));
    assert_eq!(invocation.args(), &words(&["-c", "exit 3"]));
}

#[test]
fn diagnostic_texts() {
    assert_eq!(error_line("boom"), "error: boom");
    assert_eq!(error_line(""), "error: ");
    assert_eq!(not_found_error("cc", "gone"), "unable to find 'cc' in PATH: gone");
    assert_eq!(not_found_error("", ""), "unable to find '' in PATH: ");
    assert_eq!(signal_error("Segmentation fault", false), "Segmentation fault");
    assert_eq!(
        signal_error("Segmentation fault", true),
        "Segmentation fault (core dumped)"
    );
    assert_eq!(signal_error("", false), "Unknown signal");
    assert_eq!(signal_error("", true), "Unknown signal (core dumped)");
}
