//! One call of an operation, as a short exchange with whoever runs git:
//! the library names the command to run, the caller runs it and hands back
//! what came of it, until the library gives the reply.

use crate::executor::{
    normalize, normalized, result_text, ProcessOutcome, ProcessOutcomeView, TextResult,
};
use crate::params::{
    effective_limit, effective_limit_spec, wants_untracked, wants_untracked_spec,
    GitDiffAllParams, GitDiffStagedParams, GitLogParams, GitStatusParams, Operation, Request,
    RequestView,
};
use crate::text::{append_decimal, decimal, is_blank, str_is_blank};
use vstd::prelude::*;
use vstd::string::*;

verus! {

/// Reply of a staged-diff request when nothing is staged.
pub const NO_STAGED_CHANGES_MESSAGE: &'static str =
    "No staged changes found. Use 'git add' to stage changes first.";

/// Reply of a full-diff request when nothing has changed.
pub const NO_CHANGES_MESSAGE: &'static str = "No changes found in the repository.";

/// Reply of a log request when there are no commits.
pub const NO_COMMITS_MESSAGE: &'static str = "No commits found in this repository.";

/// The line that announces the untracked files.
pub const UNTRACKED_MARKER: &'static str = "--- Untracked files ---";

/// What stands between the diff and the list of untracked files: an empty
/// line and the marker on a line of its own.
pub const UNTRACKED_SEPARATOR: &'static str = "\n\n--- Untracked files ---\n";

/// The format in which a log request has each commit printed: short hash,
/// author, relative time and subject.
pub const LOG_FORMAT: &'static str = "--pretty=format:%h - %an, %ar : %s";

/// A command for git: its arguments, and the directory to run it in if it
/// is not the current one.
#[derive(Clone, Debug, PartialEq, Eq)]
pub struct Invocation {
    pub args: Vec<String>,
    pub working_directory: Option<String>,
}

/// What the command that is running was issued for.
#[derive(Clone, Debug, PartialEq, Eq)]
pub enum Stage {
    /// The status command of a status request.
    Status,
    /// The diff of a staged-diff request.
    DiffStaged,
    /// The diff of a full-diff request, which may be followed by a listing
    /// of the untracked files.
    DiffAll { include_untracked: bool },
    /// The listing of untracked files of a full-diff request, whose diff
    /// came out as `diff`.
    Untracked { diff: String },
    /// The log command of a log request.
    Log,
}

/// A call that waits for the outcome of a command.
#[derive(Clone, Debug, PartialEq, Eq)]
pub struct Session {
    pub repo_path: Option<String>,
    pub stage: Stage,
}

/// What the caller does next.
#[derive(Debug, PartialEq, Eq)]
pub enum Step {
    /// Run `command` and hand its outcome back together with `session`.
    Run { command: Invocation, session: Session },
    /// The call is over: `reply` is the text for the caller, or the error
    /// message.
    Done { reply: Result<String, String> },
}

/// Mathematical model of [`Invocation`].
pub struct InvocationView {
    pub args: Seq<Seq<char>>,
    pub working_directory: Option<Seq<char>>,
}

/// Mathematical model of [`Stage`].
pub enum StageView {
    Status,
    DiffStaged,
    DiffAll { include_untracked: bool },
    Untracked { diff: Seq<char> },
    Log,
}

/// Mathematical model of [`Session`].
pub struct SessionView {
    pub repo_path: Option<Seq<char>>,
    pub stage: StageView,
}

/// Mathematical model of [`Step`].
pub enum StepView {
    Run { command: InvocationView, session: SessionView },
    Done { reply: TextResult },
}

impl View for Invocation {
    type V = InvocationView;

    open spec fn view(&self) -> InvocationView {
        InvocationView {
            args: self.args.deep_view(),
            working_directory: self.working_directory.deep_view(),
        }
    }
}

impl View for Stage {
    type V = StageView;

    open spec fn view(&self) -> StageView {
        match self {
            Stage::Status => StageView::Status,
            Stage::DiffStaged => StageView::DiffStaged,
            Stage::DiffAll { include_untracked } => StageView::DiffAll {
                include_untracked: *include_untracked,
            },
            Stage::Untracked { diff } => StageView::Untracked { diff: diff@ },
            Stage::Log => StageView::Log,
        }
    }
}

impl View for Session {
    type V = SessionView;

    open spec fn view(&self) -> SessionView {
        SessionView { repo_path: self.repo_path.deep_view(), stage: self.stage@ }
    }
}

impl View for Step {
    type V = StepView;

    open spec fn view(&self) -> StepView {
        match self {
            Step::Run { command, session } => StepView::Run {
                command: command@,
                session: session@,
            },
            Step::Done { reply } => StepView::Done { reply: result_text(*reply) },
        }
    }
}

/// Arguments of the status command.
pub open spec fn status_args() -> Seq<Seq<char>> {
    seq!["status"@]
}

/// Arguments of the command that shows what is staged.
pub open spec fn diff_staged_args() -> Seq<Seq<char>> {
    seq!["diff"@, "--cached"@]
}

/// Arguments of the command that shows all changes against the last
/// commit.
pub open spec fn diff_all_args() -> Seq<Seq<char>> {
    seq!["diff"@, "HEAD"@]
}

/// Arguments of the command that lists the untracked files that are not
/// ignored.
pub open spec fn untracked_args() -> Seq<Seq<char>> {
    seq!["ls-files"@, "--others"@, "--exclude-standard"@]
}

/// Arguments of the log command that shows at most `count` commits: the
/// flag is a hyphen and the number.
pub open spec fn log_args_for(count: int) -> Seq<Seq<char>> {
    seq!["log"@, "-"@ + decimal(count as nat), LOG_FORMAT@]
}

/// Arguments of the log command for a request with the given limit: those
/// for the limit the request runs with.
pub open spec fn log_args(limit: Option<i32>) -> Seq<Seq<char>> {
    log_args_for(effective_limit_spec(limit))
}

/// The commands that only look at a repository and change nothing in it:
/// the status, the two diffs, the listing of untracked files, and the log
/// of at most 1 to 50 commits.
pub open spec fn is_inspection(args: Seq<Seq<char>>) -> bool {
    ||| args == status_args()
    ||| args == diff_staged_args()
    ||| args == diff_all_args()
    ||| args == untracked_args()
    ||| exists|count: int| 1 <= count <= 50 && args == #[trigger] log_args_for(count)
}

/// Arguments of the command that an operation starts with.
pub open spec fn first_args(operation: Operation) -> Seq<Seq<char>> {
    match operation {
        Operation::Status => status_args(),
        Operation::DiffStaged => diff_staged_args(),
        Operation::DiffAll { .. } => diff_all_args(),
        Operation::Log { limit } => log_args(limit),
    }
}

/// The stage in which an operation starts.
pub open spec fn first_stage(operation: Operation) -> StageView {
    match operation {
        Operation::Status => StageView::Status,
        Operation::DiffStaged => StageView::DiffStaged,
        Operation::DiffAll { include_untracked } => StageView::DiffAll {
            include_untracked: wants_untracked_spec(include_untracked),
        },
        Operation::Log { .. } => StageView::Log,
    }
}

/// The first command of a request, run in the request's repository.
pub open spec fn first_command(request: RequestView) -> InvocationView {
    InvocationView { args: first_args(request.operation), working_directory: request.repo_path }
}

/// The session that waits for the first command of a request.
pub open spec fn first_session(request: RequestView) -> SessionView {
    SessionView { repo_path: request.repo_path, stage: first_stage(request.operation) }
}

/// The first step of a request: to run its first command.
pub open spec fn first_step(request: RequestView) -> StepView {
    run(first_command(request), first_session(request))
}

/// `text`, or `placeholder` in its place where `text` is blank.
pub open spec fn or_placeholder(text: Seq<char>, placeholder: Seq<char>) -> Seq<char> {
    if is_blank(text) {
        placeholder
    } else {
        text
    }
}

/// A result whose success text is never blank: `placeholder` stands in for
/// blank output, an error stays as it is.
pub open spec fn with_placeholder(result: TextResult, placeholder: Seq<char>) -> TextResult {
    match result {
        Ok(text) => Ok(or_placeholder(text, placeholder)),
        Err(message) => Err(message),
    }
}

/// The diff followed by the separator and the listing of untracked files,
/// or the diff alone where the listing is blank.
pub open spec fn with_untracked(diff: Seq<char>, untracked: Seq<char>) -> Seq<char> {
    if is_blank(untracked) {
        diff
    } else {
        diff + UNTRACKED_SEPARATOR@ + untracked
    }
}

/// The reply of a full-diff request whose diff came out as `diff` and
/// whose listing of untracked files came to `untracked`. A listing that
/// failed is left out.
pub open spec fn untracked_reply(diff: Seq<char>, untracked: TextResult) -> TextResult {
    let merged = match untracked {
        Ok(listing) => with_untracked(diff, listing),
        Err(_) => diff,
    };
    Ok(or_placeholder(merged, NO_CHANGES_MESSAGE@))
}

/// The command that lists the untracked files of the repository at
/// `repo_path`.
pub open spec fn untracked_command(repo_path: Option<Seq<char>>) -> InvocationView {
    InvocationView { args: untracked_args(), working_directory: repo_path }
}

/// The session that waits for the listing of untracked files, after a
/// diff that came out as `diff`.
pub open spec fn untracked_session(repo_path: Option<Seq<char>>, diff: Seq<char>) -> SessionView {
    SessionView { repo_path, stage: StageView::Untracked { diff } }
}

/// The step that ends a call with `reply`.
pub open spec fn done(reply: TextResult) -> StepView {
    StepView::Done { reply }
}

/// The step that has `command` run and waits for it as `session`.
pub open spec fn run(command: InvocationView, session: SessionView) -> StepView {
    StepView::Run { command, session }
}

/// The result of a command that succeeded with output `text`.
pub open spec fn succeeded(text: Seq<char>) -> TextResult {
    Ok(text)
}

/// The result of a command that failed with `message`.
pub open spec fn failed(message: Seq<char>) -> TextResult {
    Err(message)
}

/// The step that follows when the command of `session` came to `result`.
pub open spec fn next_step(session: SessionView, result: TextResult) -> StepView {
    match session.stage {
        StageView::Status => done(result),
        StageView::DiffStaged => done(with_placeholder(result, NO_STAGED_CHANGES_MESSAGE@)),
        StageView::Log => done(with_placeholder(result, NO_COMMITS_MESSAGE@)),
        StageView::DiffAll { include_untracked } => match result {
            Ok(diff) if include_untracked => run(
                untracked_command(session.repo_path),
                untracked_session(session.repo_path, diff),
            ),
            _ => done(with_placeholder(result, NO_CHANGES_MESSAGE@)),
        },
        StageView::Untracked { diff } => done(untracked_reply(diff, result)),
    }
}

/// The step that follows when the command of `session` had `outcome`.
pub open spec fn step_after(session: SessionView, outcome: ProcessOutcomeView) -> StepView {
    next_step(session, normalized(outcome))
}

/// The reply of a whole call, by what its commands came to: `first` for
/// the first command and `second` for the one after it, if the call runs
/// one.
pub open spec fn call_reply(
    request: RequestView,
    first: TextResult,
    second: TextResult,
) -> TextResult {
    match next_step(first_session(request), first) {
        StepView::Done { reply } => reply,
        StepView::Run { session, .. } => match next_step(session, second) {
            StepView::Done { reply } => reply,
            StepView::Run { .. } => second,
        },
    }
}

/// The reply of each operation, stated at once: status output goes
/// through as it is; a staged diff, a full diff and a log have a sentence
/// of their own in the place of blank output; a full diff that asks for
/// them carries the untracked files after the diff; an error of the first
/// command is the reply whatever the operation.
pub open spec fn operation_reply(
    operation: Operation,
    first: TextResult,
    second: TextResult,
) -> TextResult {
    match operation {
        Operation::Status => first,
        Operation::DiffStaged => with_placeholder(first, NO_STAGED_CHANGES_MESSAGE@),
        Operation::Log { .. } => with_placeholder(first, NO_COMMITS_MESSAGE@),
        Operation::DiffAll { include_untracked } => match first {
            Ok(diff) if wants_untracked_spec(include_untracked) => untracked_reply(diff, second),
            _ => with_placeholder(first, NO_CHANGES_MESSAGE@),
        },
    }
}

fn clone_path(path: &Option<String>) -> (copy: Option<String>)
    ensures
        copy.deep_view() == path.deep_view(),
{
    match path {
        Some(p) => Some(p.clone()),
        None => None,
    }
}

/// Builds the arguments of the status command.
pub fn build_status_args() -> (args: Vec<String>)
    ensures
        args.deep_view() == status_args(),
{
    let mut args: Vec<String> = Vec::new();
    args.push(String::from_str("status"));
    assert(args.deep_view() =~= status_args());
    args
}

/// Builds the arguments of the command that shows what is staged.
pub fn build_diff_staged_args() -> (args: Vec<String>)
    ensures
        args.deep_view() == diff_staged_args(),
{
    let mut args: Vec<String> = Vec::new();
    args.push(String::from_str("diff"));
    args.push(String::from_str("--cached"));
    assert(args.deep_view() =~= diff_staged_args());
    args
}

/// Builds the arguments of the command that shows all changes against the
/// last commit.
pub fn build_diff_all_args() -> (args: Vec<String>)
    ensures
        args.deep_view() == diff_all_args(),
{
    let mut args: Vec<String> = Vec::new();
    args.push(String::from_str("diff"));
    args.push(String::from_str("HEAD"));
    assert(args.deep_view() =~= diff_all_args());
    args
}

/// Builds the arguments of the command that lists the untracked files.
pub fn build_untracked_args() -> (args: Vec<String>)
    ensures
        args.deep_view() == untracked_args(),
{
    let mut args: Vec<String> = Vec::new();
    args.push(String::from_str("ls-files"));
    args.push(String::from_str("--others"));
    args.push(String::from_str("--exclude-standard"));
    assert(args.deep_view() =~= untracked_args());
    args
}

/// Builds the arguments of the log command: the limit is brought into
/// range and written into the flag.
pub fn build_log_args(limit: Option<i32>) -> (args: Vec<String>)
    ensures
        args.deep_view() == log_args(limit),
{
    let count = effective_limit(limit);
    let mut flag = String::from_str("-");
    append_decimal(&mut flag, count as u32);
    let mut args: Vec<String> = Vec::new();
    args.push(String::from_str("log"));
    args.push(flag);
    args.push(String::from_str(LOG_FORMAT));
    assert(args.deep_view() =~= log_args(limit));
    args
}

/// Builds the arguments of the command that an operation starts with.
pub fn build_first_args(operation: Operation) -> (args: Vec<String>)
    ensures
        args.deep_view() == first_args(operation),
{
    match operation {
        Operation::Status => build_status_args(),
        Operation::DiffStaged => build_diff_staged_args(),
        Operation::DiffAll { .. } => build_diff_all_args(),
        Operation::Log { limit } => build_log_args(limit),
    }
}

/// Starts a call: names the first command of the request.
pub fn begin(request: Request) -> (step: Step)
    ensures
        step@ == first_step(request@),
{
    let Request { operation, repo_path } = request;
    let stage = match operation {
        Operation::Status => Stage::Status,
        Operation::DiffStaged => Stage::DiffStaged,
        Operation::DiffAll { include_untracked } => Stage::DiffAll {
            include_untracked: wants_untracked(include_untracked),
        },
        Operation::Log { .. } => Stage::Log,
    };
    Step::Run {
        command: Invocation {
            args: build_first_args(operation),
            working_directory: clone_path(&repo_path),
        },
        session: Session { repo_path, stage },
    }
}

/// Starts a status request.
pub fn git_status(params: GitStatusParams) -> (step: Step)
    ensures
        step@ == first_step(params.request()),
{
    begin(params.into_request())
}

/// Starts a staged-diff request.
pub fn git_diff_staged(params: GitDiffStagedParams) -> (step: Step)
    ensures
        step@ == first_step(params.request()),
{
    begin(params.into_request())
}

/// Starts a full-diff request.
pub fn git_diff_all(params: GitDiffAllParams) -> (step: Step)
    ensures
        step@ == first_step(params.request()),
{
    begin(params.into_request())
}

/// Starts a log request.
pub fn git_log(params: GitLogParams) -> (step: Step)
    ensures
        step@ == first_step(params.request()),
{
    begin(params.into_request())
}

/// Gives `text` back, or `placeholder` in its place where `text` is blank.
pub fn replace_blank(text: String, placeholder: &str) -> (shown: String)
    ensures
        shown@ == or_placeholder(text@, placeholder@),
{
    if str_is_blank(text.as_str()) {
        String::from_str(placeholder)
    } else {
        text
    }
}

/// Puts `placeholder` in the place of blank output; an error stays as it
/// is.
pub fn replace_blank_output(
    result: Result<String, String>,
    placeholder: &str,
) -> (shown: Result<String, String>)
    ensures
        result_text(shown) == with_placeholder(result_text(result), placeholder@),
{
    match result {
        Ok(text) => Ok(replace_blank(text, placeholder)),
        Err(message) => Err(message),
    }
}

/// Appends the listing of untracked files to the diff, after the
/// separator. A blank listing leaves the diff as it is.
pub fn append_untracked(diff: String, untracked: &str) -> (merged: String)
    ensures
        merged@ == with_untracked(diff@, untracked@),
{
    if str_is_blank(untracked) {
        diff
    } else {
        let mut merged = diff;
        merged.append(UNTRACKED_SEPARATOR);
        merged.append(untracked);
        merged
    }
}

/// Takes the call one step on, given what the command of `session` came
/// to: either the reply, or the next command to run.
pub fn advance(session: Session, result: Result<String, String>) -> (step: Step)
    ensures
        step@ == next_step(session@, result_text(result)),
{
    let Session { repo_path, stage } = session;
    match stage {
        Stage::Status => Step::Done { reply: result },
        Stage::DiffStaged => Step::Done {
            reply: replace_blank_output(result, NO_STAGED_CHANGES_MESSAGE),
        },
        Stage::Log => Step::Done { reply: replace_blank_output(result, NO_COMMITS_MESSAGE) },
        Stage::DiffAll { include_untracked } => match result {
            Ok(diff) if include_untracked => Step::Run {
                command: Invocation {
                    args: build_untracked_args(),
                    working_directory: clone_path(&repo_path),
                },
                session: Session { repo_path, stage: Stage::Untracked { diff } },
            },
            other => Step::Done { reply: replace_blank_output(other, NO_CHANGES_MESSAGE) },
        },
        Stage::Untracked { diff } => {
            let merged = match result {
                Ok(listing) => append_untracked(diff, listing.as_str()),
                Err(_) => diff,
            };
            Step::Done { reply: Ok(replace_blank(merged, NO_CHANGES_MESSAGE)) }
        },
    }
}

/// Takes the call one step on, given the outcome of the command of
/// `session`.
pub fn resume(session: Session, outcome: ProcessOutcome) -> (step: Step)
    ensures
        step@ == step_after(session@, outcome@),
{
    advance(session, normalize(outcome))
}

} // verus!
