//! What one run of git came to: the outcome of the process as plain
//! values, and the text or error message it is normalized to.

use crate::text::{contains, is_blank, str_contains, str_is_blank};
use vstd::prelude::*;
use vstd::string::*;
use vstd::utf8::{decode_utf8, valid_utf8};

verus! {

/// What stands in git's error output when the directory is no repository.
pub const NOT_A_REPOSITORY_PATTERN: &'static str = "not a git repository";

/// Message for a directory that is no repository.
pub const NOT_A_REPOSITORY_MESSAGE: &'static str =
    "Not a git repository. Make sure you're in a git repository directory.";

/// Message for a failure that came with no error output.
pub const EMPTY_FAILURE_MESSAGE: &'static str = "Git command failed with no error message";

/// Message for a git executable that could not be found.
pub const TOOL_MISSING_MESSAGE: &'static str =
    "Git is not installed or not found in PATH. Please install git first.";

/// What precedes the system's own words when git could not be started for
/// another reason.
pub const SPAWN_FAILURE_PREFIX: &'static str = "Failed to execute git command: ";

/// A git process that ran to its end.
#[derive(Clone, Debug, PartialEq, Eq)]
pub struct CommandOutput {
    /// Whether the process exited with status zero.
    pub success: bool,
    /// The bytes written to standard output.
    pub stdout: Vec<u8>,
    /// The bytes written to standard error.
    pub stderr: Vec<u8>,
}

/// A git process that could not be started.
#[derive(Clone, Debug, PartialEq, Eq)]
pub struct SpawnFailure {
    /// Whether the system reported that the executable or the working
    /// directory was not found.
    pub not_found: bool,
    /// The system's description of the error.
    pub description: String,
}

/// The outcome of one git invocation.
#[derive(Clone, Debug, PartialEq, Eq)]
pub enum ProcessOutcome {
    /// The process ran and exited.
    Exited(CommandOutput),
    /// The process never started.
    NotStarted(SpawnFailure),
}

/// The kinds of failure, by what the caller is told.
#[derive(Clone, Copy, Debug, PartialEq, Eq, Structural)]
pub enum FailureKind {
    /// The working directory is not inside a repository.
    NotARepository,
    /// Git failed and wrote nothing but white space to standard error.
    EmptyFailure,
    /// The git executable could not be found.
    ToolMissing,
    /// Git could not be started for another reason.
    SpawnFailed,
    /// Git failed with a message of its own, which is passed on as it is.
    Verbatim,
}

/// Mathematical model of [`CommandOutput`].
pub struct CommandOutputView {
    pub success: bool,
    pub stdout: Seq<u8>,
    pub stderr: Seq<u8>,
}

/// Mathematical model of [`SpawnFailure`].
pub struct SpawnFailureView {
    pub not_found: bool,
    pub description: Seq<char>,
}

/// Mathematical model of [`ProcessOutcome`].
pub enum ProcessOutcomeView {
    Exited(CommandOutputView),
    NotStarted(SpawnFailureView),
}

impl View for CommandOutput {
    type V = CommandOutputView;

    open spec fn view(&self) -> CommandOutputView {
        CommandOutputView { success: self.success, stdout: self.stdout@, stderr: self.stderr@ }
    }
}

impl View for SpawnFailure {
    type V = SpawnFailureView;

    open spec fn view(&self) -> SpawnFailureView {
        SpawnFailureView { not_found: self.not_found, description: self.description@ }
    }
}

impl View for ProcessOutcome {
    type V = ProcessOutcomeView;

    open spec fn view(&self) -> ProcessOutcomeView {
        match self {
            ProcessOutcome::Exited(output) => ProcessOutcomeView::Exited(output@),
            ProcessOutcome::NotStarted(failure) => ProcessOutcomeView::NotStarted(failure@),
        }
    }
}

/// A result as text: the success payload or the error message.
pub type TextResult = Result<Seq<char>, Seq<char>>;

/// The text that a result holds on either side.
pub open spec fn result_text(result: Result<String, String>) -> TextResult {
    match result {
        Ok(text) => Ok(text@),
        Err(message) => Err(message@),
    }
}

/// The kind of a failed exit, by git's error output. The rules apply in
/// this order: the repository pattern first, then blank output, and
/// whatever matches neither is passed on.
pub open spec fn stderr_kind(stderr: Seq<char>) -> FailureKind {
    if contains(stderr, NOT_A_REPOSITORY_PATTERN@) {
        FailureKind::NotARepository
    } else if is_blank(stderr) {
        FailureKind::EmptyFailure
    } else {
        FailureKind::Verbatim
    }
}

/// The kind of a failed start.
pub open spec fn spawn_kind(failure: SpawnFailureView) -> FailureKind {
    if failure.not_found {
        FailureKind::ToolMissing
    } else {
        FailureKind::SpawnFailed
    }
}

/// The message for a failure of the given kind, where `detail` is git's
/// error output or the system's description of the error.
pub open spec fn failure_text(kind: FailureKind, detail: Seq<char>) -> Seq<char> {
    match kind {
        FailureKind::NotARepository => NOT_A_REPOSITORY_MESSAGE@,
        FailureKind::EmptyFailure => EMPTY_FAILURE_MESSAGE@,
        FailureKind::ToolMissing => TOOL_MISSING_MESSAGE@,
        FailureKind::SpawnFailed => SPAWN_FAILURE_PREFIX@ + detail,
        FailureKind::Verbatim => detail,
    }
}

/// The message for a failed exit with the given error output.
pub open spec fn exit_failure_text(stderr: Seq<char>) -> Seq<char> {
    failure_text(stderr_kind(stderr), stderr)
}

/// The message for a process that could not be started.
pub open spec fn spawn_failure_text(failure: SpawnFailureView) -> Seq<char> {
    failure_text(spawn_kind(failure), failure.description)
}

/// The text that `String::from_utf8_lossy` makes of `bytes`: the decoded
/// characters, with U+FFFD in place of each invalid sequence.
pub uninterp spec fn lossy_utf8(bytes: Seq<u8>) -> Seq<char>;

/// The text that output bytes are read as: bytes that are valid UTF-8
/// decode to the characters they encode; of other bytes the text is the
/// lossy one, in which U+FFFD stands for what could not be decoded.
pub open spec fn decoded(bytes: Seq<u8>) -> Seq<char> {
    if valid_utf8(bytes) {
        decode_utf8(bytes)
    } else {
        lossy_utf8(bytes)
    }
}

/// What an outcome is normalized to: the output text of a successful run,
/// or the message for the failure.
pub open spec fn normalized(outcome: ProcessOutcomeView) -> TextResult {
    match outcome {
        ProcessOutcomeView::Exited(output) => if output.success {
            Ok(decoded(output.stdout))
        } else {
            Err(exit_failure_text(decoded(output.stderr)))
        },
        ProcessOutcomeView::NotStarted(failure) => Err(spawn_failure_text(failure)),
    }
}

/// Calls `String::from_utf8_lossy` and takes the result as an owned
/// string. Trusted, on two counts. The text returned is a function of the
/// bytes alone, named [`lossy_utf8`]. And as the standard library
/// documents, bytes that are valid UTF-8 come back as the string they
/// encode, with nothing replaced.
#[verifier::external_body]
fn decode_lossy(bytes: &Vec<u8>) -> (text: String)
    ensures
        text@ == lossy_utf8(bytes@),
        valid_utf8(bytes@) ==> text@ == decode_utf8(bytes@),
{
    String::from_utf8_lossy(bytes).into_owned()
}

/// Finds the kind of a failed exit from git's error output.
pub fn classify_stderr(stderr: &str) -> (kind: FailureKind)
    ensures
        kind == stderr_kind(stderr@),
{
    if str_contains(stderr, NOT_A_REPOSITORY_PATTERN) {
        FailureKind::NotARepository
    } else if str_is_blank(stderr) {
        FailureKind::EmptyFailure
    } else {
        FailureKind::Verbatim
    }
}

/// Finds the kind of a failed start.
pub fn classify_spawn_failure(failure: &SpawnFailure) -> (kind: FailureKind)
    ensures
        kind == spawn_kind(failure@),
{
    if failure.not_found {
        FailureKind::ToolMissing
    } else {
        FailureKind::SpawnFailed
    }
}

/// Writes the message for a failure of the given kind.
pub fn failure_message(kind: FailureKind, detail: String) -> (message: String)
    ensures
        message@ == failure_text(kind, detail@),
{
    match kind {
        FailureKind::NotARepository => String::from_str(NOT_A_REPOSITORY_MESSAGE),
        FailureKind::EmptyFailure => String::from_str(EMPTY_FAILURE_MESSAGE),
        FailureKind::ToolMissing => String::from_str(TOOL_MISSING_MESSAGE),
        FailureKind::SpawnFailed => String::from_str(SPAWN_FAILURE_PREFIX).concat(
            detail.as_str(),
        ),
        FailureKind::Verbatim => detail,
    }
}

/// Writes the message for a failed exit with the given error output.
pub fn exit_failure_message(stderr: String) -> (message: String)
    ensures
        message@ == exit_failure_text(stderr@),
{
    let kind = classify_stderr(stderr.as_str());
    failure_message(kind, stderr)
}

/// Writes the message for a process that could not be started.
pub fn spawn_failure_message(failure: SpawnFailure) -> (message: String)
    ensures
        message@ == spawn_failure_text(failure@),
{
    let kind = classify_spawn_failure(&failure);
    failure_message(kind, failure.description)
}

/// Normalizes the outcome of one git invocation: a successful run gives
/// its standard output as text, every failure gives its message. Output
/// is decoded as UTF-8, invalid sequences replaced.
pub fn normalize(outcome: ProcessOutcome) -> (result: Result<String, String>)
    ensures
        result_text(result) == normalized(outcome@),
{
    match outcome {
        ProcessOutcome::Exited(output) => {
            if output.success {
                Ok(decode_lossy(&output.stdout))
            } else {
                Err(exit_failure_message(decode_lossy(&output.stderr)))
            }
        },
        ProcessOutcome::NotStarted(failure) => Err(spawn_failure_message(failure)),
    }
}

} // verus!
