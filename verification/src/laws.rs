//! What holds of every call, proved from the definitions of the steps.

use crate::executor::{
    decoded, exit_failure_text, normalized, CommandOutputView, ProcessOutcomeView, TextResult,
    EMPTY_FAILURE_MESSAGE, NOT_A_REPOSITORY_MESSAGE, NOT_A_REPOSITORY_PATTERN,
    SPAWN_FAILURE_PREFIX, TOOL_MISSING_MESSAGE,
};
use crate::params::{
    diff_all_request, diff_staged_request, effective_limit_spec, log_request, status_request,
    wants_untracked_spec, Operation, RequestView,
};
use crate::session::{
    call_reply, done, failed, first_command, first_session, first_step, is_inspection,
    log_args_for, next_step, operation_reply, or_placeholder, step_after, succeeded,
    untracked_command, with_placeholder,
    NO_CHANGES_MESSAGE, NO_COMMITS_MESSAGE, NO_STAGED_CHANGES_MESSAGE, UNTRACKED_MARKER,
    UNTRACKED_SEPARATOR,
};
use crate::text::{contains, is_blank, is_whitespace, occurs_at};
use vstd::prelude::*;
use vstd::utf8::decode_utf8;

verus! {

/// A text that holds a character that is not white space is not blank.
pub proof fn lemma_not_blank(text: Seq<char>, at: int)
    requires
        0 <= at < text.len(),
        !is_whitespace(text[at]),
    ensures
        !is_blank(text),
{
}

/// A text is blank exactly when each of the two parts it is made of is
/// blank.
pub proof fn lemma_blank_concat(left: Seq<char>, right: Seq<char>)
    ensures
        is_blank(left + right) <==> is_blank(left) && is_blank(right),
{
    if is_blank(left + right) {
        assert forall|i: int| 0 <= i < left.len() implies is_whitespace(#[trigger] left[i]) by {
            assert((left + right)[i] == left[i]);
        }
        assert forall|i: int| 0 <= i < right.len() implies is_whitespace(#[trigger] right[i]) by {
            assert((left + right)[left.len() + i] == right[i]);
        }
    }
}

/// None of the sentences that stand in for blank output is blank itself.
pub proof fn lemma_placeholders_are_not_blank()
    ensures
        !is_blank(NO_STAGED_CHANGES_MESSAGE@),
        !is_blank(NO_CHANGES_MESSAGE@),
        !is_blank(NO_COMMITS_MESSAGE@),
{
    reveal_strlit("No staged changes found. Use 'git add' to stage changes first.");
    reveal_strlit("No changes found in the repository.");
    reveal_strlit("No commits found in this repository.");
    lemma_not_blank(NO_STAGED_CHANGES_MESSAGE@, 0);
    lemma_not_blank(NO_CHANGES_MESSAGE@, 0);
    lemma_not_blank(NO_COMMITS_MESSAGE@, 0);
}

/// The rules for a failed exit apply in their order: error output that
/// holds the repository pattern gives the not-a-repository message
/// whatever else it holds; blank error output gives the message for a
/// failure without words; any other error output is the message itself.
pub proof fn lemma_failed_exit_rules(stderr: Seq<char>)
    ensures
        contains(stderr, NOT_A_REPOSITORY_PATTERN@) ==> exit_failure_text(stderr)
            == NOT_A_REPOSITORY_MESSAGE@,
        !contains(stderr, NOT_A_REPOSITORY_PATTERN@) && is_blank(stderr) ==> exit_failure_text(
            stderr,
        ) == EMPTY_FAILURE_MESSAGE@,
        !contains(stderr, NOT_A_REPOSITORY_PATTERN@) && !is_blank(stderr) ==> exit_failure_text(
            stderr,
        ) == stderr,
{
}

/// No failure is reported with a blank message.
pub proof fn lemma_failure_message_is_not_blank(outcome: ProcessOutcomeView)
    ensures
        normalized(outcome) is Err ==> !is_blank(normalized(outcome)->Err_0),
{
    reveal_strlit("Not a git repository. Make sure you're in a git repository directory.");
    reveal_strlit("Git command failed with no error message");
    reveal_strlit("Git is not installed or not found in PATH. Please install git first.");
    reveal_strlit("Failed to execute git command: ");
    lemma_not_blank(NOT_A_REPOSITORY_MESSAGE@, 0);
    lemma_not_blank(EMPTY_FAILURE_MESSAGE@, 0);
    lemma_not_blank(TOOL_MISSING_MESSAGE@, 0);
    lemma_not_blank(SPAWN_FAILURE_PREFIX@, 0);
    match outcome {
        ProcessOutcomeView::Exited(output) => {},
        ProcessOutcomeView::NotStarted(failure) => {
            lemma_blank_concat(SPAWN_FAILURE_PREFIX@, failure.description);
        },
    }
}

/// A call ends after one command or after two. A second command is run
/// only by a full diff that asked for the untracked files and whose diff
/// succeeded; it lists the untracked files of the same repository, and
/// whatever it comes to ends the call.
pub proof fn lemma_call_ends_within_two_commands(
    request: RequestView,
    first: TextResult,
    second: TextResult,
)
    ensures
        next_step(first_session(request), first) is Done ==> next_step(
            first_session(request),
            first,
        ) == done(call_reply(request, first, second)),
        next_step(first_session(request), first) is Run ==> {
            &&& request.operation is DiffAll
            &&& wants_untracked_spec(request.operation->include_untracked)
            &&& first is Ok
            &&& next_step(first_session(request), first)->command == untracked_command(
                request.repo_path,
            )
            &&& next_step(next_step(first_session(request), first)->session, second) == done(
                call_reply(request, first, second),
            )
        },
{
}

/// Every command that a call runs only looks at the repository, and runs
/// in the repository that the request names.
pub proof fn lemma_every_command_inspects(request: RequestView, first: TextResult)
    ensures
        is_inspection(first_command(request).args),
        first_command(request).working_directory == request.repo_path,
        next_step(first_session(request), first) is Run ==> {
            &&& is_inspection(next_step(first_session(request), first)->command.args)
            &&& next_step(first_session(request), first)->command.working_directory
                == request.repo_path
        },
{
    if request.operation is Log {
        let count = effective_limit_spec(request.operation->limit);
        assert(first_command(request).args == log_args_for(count));
    }
}

/// The steps of a call come to the reply that is stated for its operation.
pub proof fn lemma_call_reply_is_operation_reply(
    request: RequestView,
    first: TextResult,
    second: TextResult,
)
    ensures
        call_reply(request, first, second) == operation_reply(request.operation, first, second),
{
}

/// A command that succeeds without printing anything comes to the empty
/// text.
pub proof fn lemma_silent_success(output: CommandOutputView)
    requires
        output.success,
        output.stdout.len() == 0,
    ensures
        normalized(ProcessOutcomeView::Exited(output)) == succeeded(Seq::empty()),
{
    assert(decode_utf8(output.stdout) =~= Seq::empty());
}

/// Where git succeeds without printing anything, a status request is
/// answered with the empty text, and each other request with its own
/// sentence: that nothing is staged, that nothing has changed, that there
/// are no commits.
pub proof fn lemma_silence_gets_the_sentence(
    output: CommandOutputView,
    repo_path: Option<Seq<char>>,
    include_untracked: Option<bool>,
    limit: Option<i32>,
)
    requires
        output.success,
        output.stdout.len() == 0,
    ensures
        step_after(first_session(status_request(repo_path)), ProcessOutcomeView::Exited(output))
            == done(succeeded(Seq::empty())),
        step_after(
            first_session(diff_staged_request(repo_path)),
            ProcessOutcomeView::Exited(output),
        ) == done(succeeded(NO_STAGED_CHANGES_MESSAGE@)),
        include_untracked != Some(true) ==> step_after(
            first_session(diff_all_request(include_untracked, repo_path)),
            ProcessOutcomeView::Exited(output),
        ) == done(succeeded(NO_CHANGES_MESSAGE@)),
        step_after(
            first_session(log_request(limit, repo_path)),
            ProcessOutcomeView::Exited(output),
        ) == done(succeeded(NO_COMMITS_MESSAGE@)),
{
    lemma_silent_success(output);
}

/// An error of the first command is the reply of the call, whatever the
/// operation, and no second command is run.
pub proof fn lemma_first_error_is_the_reply(
    request: RequestView,
    message: Seq<char>,
    second: TextResult,
)
    ensures
        next_step(first_session(request), failed(message)) == done(failed(message)),
        call_reply(request, failed(message), second) == failed(message),
{
}

/// Whatever the operation, a first command that exits with a failure and
/// with the repository pattern in its error output ends the call with the
/// not-a-repository message.
pub proof fn lemma_not_a_repository_whatever_the_operation(
    request: RequestView,
    output: CommandOutputView,
)
    ensures
        !output.success && contains(decoded(output.stderr), NOT_A_REPOSITORY_PATTERN@)
            ==> step_after(first_session(request), ProcessOutcomeView::Exited(output)) == done(
            failed(NOT_A_REPOSITORY_MESSAGE@),
        ),
{
}

/// Status output is passed on as it is, blank or not.
pub proof fn lemma_status_is_passed_on(
    repo_path: Option<Seq<char>>,
    first: TextResult,
    second: TextResult,
)
    ensures
        call_reply(status_request(repo_path), first, second) == first,
{
}

/// A log request without a limit runs as one with limit 10, one with a
/// limit of zero or less as one with limit 1, one with a limit of 50 or
/// more as one with limit 50; in general a request runs as the one whose
/// limit is its effective limit.
pub proof fn lemma_log_limit_defaults_and_clamps(limit: Option<i32>, repo_path: Option<Seq<char>>)
    ensures
        1 <= effective_limit_spec(limit) <= 50,
        limit is None ==> effective_limit_spec(limit) == 10,
        limit is Some && limit->0 <= 0 ==> effective_limit_spec(limit) == 1,
        limit is Some && limit->0 >= 50 ==> effective_limit_spec(limit) == 50,
        limit is Some && 1 <= limit->0 <= 50 ==> effective_limit_spec(limit) == limit->0,
        first_step(log_request(limit, repo_path)) == first_step(
            log_request(Some(effective_limit_spec(limit) as i32), repo_path),
        ),
{
}

/// The limit of a log request has no part in what is made of git's
/// output.
pub proof fn lemma_log_reply_ignores_limit(
    limit: Option<i32>,
    other: Option<i32>,
    repo_path: Option<Seq<char>>,
    first: TextResult,
    second: TextResult,
)
    ensures
        call_reply(log_request(limit, repo_path), first, second) == call_reply(
            log_request(other, repo_path),
            first,
            second,
        ),
{
}

/// A staged diff that comes out blank is answered with the sentence that
/// nothing is staged, and with nothing else; one that does not is answered
/// with the diff as it is.
pub proof fn lemma_nothing_staged(
    repo_path: Option<Seq<char>>,
    output: Seq<char>,
    second: TextResult,
)
    ensures
        is_blank(output) ==> call_reply(
            diff_staged_request(repo_path),
            succeeded(output),
            second,
        ) == succeeded(NO_STAGED_CHANGES_MESSAGE@),
        !is_blank(output) ==> call_reply(
            diff_staged_request(repo_path),
            succeeded(output),
            second,
        ) == succeeded(output),
{
}

/// A log that comes out blank is answered with the sentence that there
/// are no commits; one that does not is answered with the lines as they
/// are.
pub proof fn lemma_no_commits(
    limit: Option<i32>,
    repo_path: Option<Seq<char>>,
    output: Seq<char>,
    second: TextResult,
)
    ensures
        is_blank(output) ==> call_reply(
            log_request(limit, repo_path),
            succeeded(output),
            second,
        ) == succeeded(NO_COMMITS_MESSAGE@),
        !is_blank(output) ==> call_reply(
            log_request(limit, repo_path),
            succeeded(output),
            second,
        ) == succeeded(output),
{
}

/// The sentence for an unchanged repository does not hold the marker of
/// the untracked files.
pub proof fn lemma_no_changes_message_has_no_marker()
    ensures
        !contains(NO_CHANGES_MESSAGE@, UNTRACKED_MARKER@),
{
    reveal_strlit("No changes found in the repository.");
    reveal_strlit("--- Untracked files ---");
    assert forall|at: int| !occurs_at(NO_CHANGES_MESSAGE@, UNTRACKED_MARKER@, at) by {
        if occurs_at(NO_CHANGES_MESSAGE@, UNTRACKED_MARKER@, at) {
            let part = NO_CHANGES_MESSAGE@.subrange(at, at + UNTRACKED_MARKER@.len());
            assert(part[0] == UNTRACKED_MARKER@[0]);
            assert(NO_CHANGES_MESSAGE@[at] == '-');
        }
    }
}

/// A full diff that does not ask for the untracked files runs no second
/// command, and its reply is made of the diff alone: what a listing of
/// untracked files would have come to has no part in it. The marker of the
/// untracked files stands in the reply only where git's own diff output
/// holds it.
pub proof fn lemma_no_untracked_section_unless_asked(
    include_untracked: Option<bool>,
    repo_path: Option<Seq<char>>,
    first: TextResult,
    second: TextResult,
)
    requires
        include_untracked != Some(true),
    ensures
        next_step(first_session(diff_all_request(include_untracked, repo_path)), first) is Done,
        call_reply(diff_all_request(include_untracked, repo_path), first, second)
            == with_placeholder(first, NO_CHANGES_MESSAGE@),
        first is Ok && !contains(first->Ok_0, UNTRACKED_MARKER@) ==> !contains(
            call_reply(diff_all_request(include_untracked, repo_path), first, second)->Ok_0,
            UNTRACKED_MARKER@,
        ),
{
    lemma_no_changes_message_has_no_marker();
}

/// A full diff that asks for the untracked files, in a repository that
/// has some, is answered with the diff, then the separator with the
/// marker in it, then the listing of the files.
pub proof fn lemma_untracked_files_follow_the_diff(
    repo_path: Option<Seq<char>>,
    diff: Seq<char>,
    listing: Seq<char>,
)
    requires
        !is_blank(listing),
    ensures
        call_reply(
            diff_all_request(Some(true), repo_path),
            succeeded(diff),
            succeeded(listing),
        ) == succeeded(diff + UNTRACKED_SEPARATOR@ + listing),
        occurs_at(diff + UNTRACKED_SEPARATOR@ + listing, diff, 0),
        occurs_at(
            diff + UNTRACKED_SEPARATOR@ + listing,
            UNTRACKED_MARKER@,
            (diff.len() + 2) as int,
        ),
        occurs_at(
            diff + UNTRACKED_SEPARATOR@ + listing,
            listing,
            (diff.len() + UNTRACKED_SEPARATOR@.len()) as int,
        ),
{
    reveal_strlit("\n\n--- Untracked files ---\n");
    reveal_strlit("--- Untracked files ---");
    let text = diff + UNTRACKED_SEPARATOR@ + listing;
    lemma_blank_concat(diff + UNTRACKED_SEPARATOR@, listing);
    let marker_at = (diff.len() + 2) as int;
    let listing_at = (diff.len() + UNTRACKED_SEPARATOR@.len()) as int;
    assert(text.subrange(0, diff.len() as int) =~= diff);
    assert(text.subrange(marker_at, marker_at + UNTRACKED_MARKER@.len()) =~= UNTRACKED_MARKER@);
    assert(text.subrange(listing_at, listing_at + listing.len()) =~= listing);
}

/// A full diff that comes out blank, and that either does not ask for
/// the untracked files, or finds none, or fails to list them, is answered
/// with the sentence that nothing has changed.
pub proof fn lemma_no_changes(
    include_untracked: Option<bool>,
    repo_path: Option<Seq<char>>,
    diff: Seq<char>,
    second: TextResult,
)
    requires
        is_blank(diff),
        include_untracked != Some(true) || second is Err || is_blank(second->Ok_0),
    ensures
        call_reply(diff_all_request(include_untracked, repo_path), succeeded(diff), second)
            == succeeded(NO_CHANGES_MESSAGE@),
{
}

/// A listing of untracked files that fails is left out without a word:
/// the reply is the one of a repository without untracked files.
pub proof fn lemma_failed_listing_is_left_out(
    repo_path: Option<Seq<char>>,
    diff: Seq<char>,
    message: Seq<char>,
)
    ensures
        call_reply(diff_all_request(Some(true), repo_path), succeeded(diff), failed(message))
            == succeeded(or_placeholder(diff, NO_CHANGES_MESSAGE@)),
{
}

/// But for a status request, whose output is passed on as it is, no call
/// is answered with a blank text.
pub proof fn lemma_reply_is_not_blank(request: RequestView, first: TextResult, second: TextResult)
    requires
        request.operation != Operation::Status,
    ensures
        call_reply(request, first, second) is Ok ==> !is_blank(
            call_reply(request, first, second)->Ok_0,
        ),
{
    lemma_placeholders_are_not_blank();
}

/// The reply of a call depends on nothing but the request and on what its
/// commands came to: calls that agree in these agree in every step and in
/// the reply.
pub proof fn lemma_same_call_same_reply(
    request_a: RequestView,
    first_a: ProcessOutcomeView,
    second_a: ProcessOutcomeView,
    request_b: RequestView,
    first_b: ProcessOutcomeView,
    second_b: ProcessOutcomeView,
)
    requires
        request_a == request_b,
        first_a == first_b,
        second_a == second_b,
    ensures
        first_step(request_a) == first_step(request_b),
        step_after(first_session(request_a), first_a) == step_after(
            first_session(request_b),
            first_b,
        ),
        call_reply(request_a, normalized(first_a), normalized(second_a)) == call_reply(
            request_b,
            normalized(first_b),
            normalized(second_b),
        ),
{
}

} // verus!
