use git_commit_helper::executor::{
    classify_spawn_failure, classify_stderr, exit_failure_message, failure_message, normalize,
    spawn_failure_message, CommandOutput, FailureKind, ProcessOutcome, SpawnFailure,
    EMPTY_FAILURE_MESSAGE, NOT_A_REPOSITORY_MESSAGE, TOOL_MISSING_MESSAGE,
};

fn exited(success: bool, stdout: &[u8], stderr: &[u8]) -> ProcessOutcome {
    ProcessOutcome::Exited(CommandOutput {
        success,
        stdout: stdout.to_vec(),
        stderr: stderr.to_vec(),
    })
}

fn not_started(not_found: bool, description: &str) -> ProcessOutcome {
    ProcessOutcome::NotStarted(SpawnFailure { not_found, description: description.to_string() })
}

#[test]
fn messages_are_worded_exactly() {
    assert_eq!(
        NOT_A_REPOSITORY_MESSAGE,
        "Not a git repository. Make sure you're in a git repository directory."
    );
    assert_eq!(EMPTY_FAILURE_MESSAGE, "Git command failed with no error message");
    assert_eq!(
        TOOL_MISSING_MESSAGE,
        "Git is not installed or not found in PATH. Please install git first."
    );
}

#[test]
fn success_gives_standard_output() {
    let outcome = exited(true, b"On branch main\nnothing to commit\n", b"");
    assert_eq!(normalize(outcome), Ok("On branch main\nnothing to commit\n".to_string()));
}

#[test]
fn success_with_empty_output_gives_empty_text() {
    assert_eq!(normalize(exited(true, b"", b"")), Ok(String::new()));
}

#[test]
fn success_does_not_look_at_error_output() {
    let outcome = exited(true, b"ok", b"fatal: not a git repository");
    assert_eq!(normalize(outcome), Ok("ok".to_string()));
}

#[test]
fn invalid_utf8_in_output_is_replaced() {
    let outcome = exited(true, &[b'f', 0xFF, b'o', 0xC3], b"");
    assert_eq!(normalize(outcome), Ok("f\u{FFFD}o\u{FFFD}".to_string()));
}

#[test]
fn valid_utf8_in_output_is_decoded() {
    let outcome = exited(true, "héllo \u{1F600}".as_bytes(), b"");
    assert_eq!(normalize(outcome), Ok("héllo \u{1F600}".to_string()));
}

#[test]
fn invalid_utf8_in_error_output_is_replaced() {
    let outcome = exited(false, b"", &[b'e', 0x80, b'r']);
    assert_eq!(normalize(outcome), Err("e\u{FFFD}r".to_string()));
}

#[test]
fn failure_outside_a_repository() {
    let stderr = b"fatal: not a git repository (or any of the parent directories): .git\n";
    assert_eq!(
        normalize(exited(false, b"", stderr)),
        Err("Not a git repository. Make sure you're in a git repository directory.".to_string())
    );
}

#[test]
fn repository_pattern_comes_before_the_other_rules() {
    let stderr = b"warning: something\nfatal: not a git repository\nhint: more words\n";
    assert_eq!(normalize(exited(false, b"out", stderr)), Err(NOT_A_REPOSITORY_MESSAGE.to_string()));
}

#[test]
fn failure_without_error_output() {
    assert_eq!(
        normalize(exited(false, b"", b"")),
        Err("Git command failed with no error message".to_string())
    );
}

#[test]
fn failure_with_blank_error_output() {
    assert_eq!(
        normalize(exited(false, b"some output", b" \n\t\r\n")),
        Err("Git command failed with no error message".to_string())
    );
}

#[test]
fn other_failure_is_passed_on_as_it_is() {
    let stderr = b"fatal: ambiguous argument 'HEAD': unknown revision or path not in the working tree.\n";
    assert_eq!(
        normalize(exited(false, b"", stderr)),
        Err("fatal: ambiguous argument 'HEAD': unknown revision or path not in the working tree.\n"
            .to_string())
    );
}

#[test]
fn other_failure_keeps_its_surrounding_space() {
    assert_eq!(normalize(exited(false, b"", b"  error: x  \n")), Err("  error: x  \n".to_string()));
}

#[test]
fn git_not_found() {
    assert_eq!(
        normalize(not_started(true, "No such file or directory (os error 2)")),
        Err("Git is not installed or not found in PATH. Please install git first.".to_string())
    );
}

#[test]
fn git_not_started_for_another_reason() {
    assert_eq!(
        normalize(not_started(false, "Permission denied (os error 13)")),
        Err("Failed to execute git command: Permission denied (os error 13)".to_string())
    );
}

#[test]
fn git_not_started_without_a_description() {
    assert_eq!(
        normalize(not_started(false, "")),
        Err("Failed to execute git command: ".to_string())
    );
}

#[test]
fn kinds_of_failed_exit() {
    assert_eq!(classify_stderr("fatal: not a git repository"), FailureKind::NotARepository);
    assert_eq!(classify_stderr(""), FailureKind::EmptyFailure);
    assert_eq!(classify_stderr("\n"), FailureKind::EmptyFailure);
    assert_eq!(classify_stderr("error: pathspec"), FailureKind::Verbatim);
    assert_eq!(classify_stderr("Not a git repository"), FailureKind::Verbatim);
}

#[test]
fn kinds_of_failed_start() {
    let missing = SpawnFailure { not_found: true, description: "x".to_string() };
    let other = SpawnFailure { not_found: false, description: "x".to_string() };
    assert_eq!(classify_spawn_failure(&missing), FailureKind::ToolMissing);
    assert_eq!(classify_spawn_failure(&other), FailureKind::SpawnFailed);
}

#[test]
fn message_of_each_kind() {
    let detail = || "the detail".to_string();
    assert_eq!(failure_message(FailureKind::NotARepository, detail()), NOT_A_REPOSITORY_MESSAGE);
    assert_eq!(failure_message(FailureKind::EmptyFailure, detail()), EMPTY_FAILURE_MESSAGE);
    assert_eq!(failure_message(FailureKind::ToolMissing, detail()), TOOL_MISSING_MESSAGE);
    assert_eq!(
        failure_message(FailureKind::SpawnFailed, detail()),
        "Failed to execute git command: the detail"
    );
    assert_eq!(failure_message(FailureKind::Verbatim, detail()), "the detail");
}

#[test]
fn message_of_a_failed_exit() {
    assert_eq!(exit_failure_message("x: not a git repository".to_string()), NOT_A_REPOSITORY_MESSAGE);
    assert_eq!(exit_failure_message("  ".to_string()), EMPTY_FAILURE_MESSAGE);
    assert_eq!(exit_failure_message("boom\n".to_string()), "boom\n");
}

#[test]
fn message_of_a_failed_start() {
    let missing = SpawnFailure { not_found: true, description: "gone".to_string() };
    let other = SpawnFailure { not_found: false, description: "busy".to_string() };
    assert_eq!(spawn_failure_message(missing), TOOL_MISSING_MESSAGE);
    assert_eq!(spawn_failure_message(other), "Failed to execute git command: busy");
}

#[test]
fn no_failure_has_a_blank_message() {
    let outcomes = vec![
        exited(false, b"", b""),
        exited(false, b"", b"\n"),
        exited(false, b"", b"x"),
        exited(false, b"", b"not a git repository"),
        not_started(true, ""),
        not_started(false, ""),
        not_started(false, "  "),
    ];
    for outcome in outcomes {
        match normalize(outcome) {
            Err(message) => assert!(!message.trim().is_empty()),
            Ok(text) => panic!("unexpected success: {:?}", text),
        }
    }
}
