//! The requests: the four operations, their parameters as a caller gives
//! them, and the defaults and limits that apply before git is run.

use vstd::prelude::*;

verus! {

/// Number of commits shown when a log request names no limit.
pub const DEFAULT_LOG_LIMIT: i32 = 10;

/// Smallest number of commits a log request can ask for.
pub const MIN_LOG_LIMIT: i32 = 1;

/// Largest number of commits a log request can ask for.
pub const MAX_LOG_LIMIT: i32 = 50;

/// One of the four read-only operations, with its options as given.
#[derive(Clone, Copy, Debug, PartialEq, Eq)]
pub enum Operation {
    /// The state of the working tree.
    Status,
    /// The changes staged for the next commit.
    DiffStaged,
    /// All changes against the last commit, staged or not, and on request
    /// the untracked files.
    DiffAll { include_untracked: Option<bool> },
    /// The most recent commits, one line each.
    Log { limit: Option<i32> },
}

/// An operation and the repository it is asked of. Without a path the
/// operation runs in the caller's current directory.
#[derive(Clone, Debug, PartialEq, Eq)]
pub struct Request {
    pub operation: Operation,
    pub repo_path: Option<String>,
}

/// Mathematical model of [`Request`].
pub struct RequestView {
    pub operation: Operation,
    pub repo_path: Option<Seq<char>>,
}

impl View for Request {
    type V = RequestView;

    open spec fn view(&self) -> RequestView {
        RequestView { operation: self.operation, repo_path: self.repo_path.deep_view() }
    }
}

/// Parameters of a status request.
#[derive(Clone, Debug, PartialEq, Eq)]
pub struct GitStatusParams {
    /// Path to the git repository.
    pub repo_path: Option<String>,
}

/// Parameters of a staged-diff request.
#[derive(Clone, Debug, PartialEq, Eq)]
pub struct GitDiffStagedParams {
    /// Path to the git repository.
    pub repo_path: Option<String>,
}

/// Parameters of a full-diff request.
#[derive(Clone, Debug, PartialEq, Eq)]
pub struct GitDiffAllParams {
    /// Path to the git repository.
    pub repo_path: Option<String>,
    /// Whether to list the untracked files after the diff.
    pub include_untracked: Option<bool>,
}

/// Parameters of a log request.
#[derive(Clone, Debug, PartialEq, Eq)]
pub struct GitLogParams {
    /// Path to the git repository.
    pub repo_path: Option<String>,
    /// Largest number of commits to show.
    pub limit: Option<i32>,
}

/// A status request of the repository at `repo_path`.
pub open spec fn status_request(repo_path: Option<Seq<char>>) -> RequestView {
    RequestView { operation: Operation::Status, repo_path }
}

/// A staged-diff request of the repository at `repo_path`.
pub open spec fn diff_staged_request(repo_path: Option<Seq<char>>) -> RequestView {
    RequestView { operation: Operation::DiffStaged, repo_path }
}

/// A full-diff request of the repository at `repo_path`.
pub open spec fn diff_all_request(
    include_untracked: Option<bool>,
    repo_path: Option<Seq<char>>,
) -> RequestView {
    RequestView { operation: Operation::DiffAll { include_untracked }, repo_path }
}

/// A log request of the repository at `repo_path`.
pub open spec fn log_request(limit: Option<i32>, repo_path: Option<Seq<char>>) -> RequestView {
    RequestView { operation: Operation::Log { limit }, repo_path }
}

/// The limit a log request runs with: the default when none is given,
/// otherwise the given one brought into the allowed range.
pub open spec fn effective_limit_spec(limit: Option<i32>) -> int {
    match limit {
        None => DEFAULT_LOG_LIMIT as int,
        Some(n) => if n < MIN_LOG_LIMIT {
            MIN_LOG_LIMIT as int
        } else if n > MAX_LOG_LIMIT {
            MAX_LOG_LIMIT as int
        } else {
            n as int
        },
    }
}

/// Whether a full-diff request lists the untracked files: only when it
/// says so.
pub open spec fn wants_untracked_spec(include_untracked: Option<bool>) -> bool {
    include_untracked == Some(true)
}

/// Computes the limit a log request runs with.
pub fn effective_limit(limit: Option<i32>) -> (n: i32)
    ensures
        n == effective_limit_spec(limit),
        MIN_LOG_LIMIT <= n <= MAX_LOG_LIMIT,
{
    match limit {
        None => DEFAULT_LOG_LIMIT,
        Some(n) => if n < MIN_LOG_LIMIT {
            MIN_LOG_LIMIT
        } else if n > MAX_LOG_LIMIT {
            MAX_LOG_LIMIT
        } else {
            n
        },
    }
}

/// Tells whether a full-diff request lists the untracked files.
pub fn wants_untracked(include_untracked: Option<bool>) -> (wanted: bool)
    ensures
        wanted == wants_untracked_spec(include_untracked),
{
    match include_untracked {
        Some(flag) => flag,
        None => false,
    }
}

impl GitStatusParams {
    /// The request these parameters stand for.
    pub open spec fn request(&self) -> RequestView {
        status_request(self.repo_path.deep_view())
    }

    /// Turns the parameters into the request they stand for.
    pub fn into_request(self) -> (request: Request)
        ensures
            request@ == self.request(),
    {
        Request { operation: Operation::Status, repo_path: self.repo_path }
    }
}

impl GitDiffStagedParams {
    /// The request these parameters stand for.
    pub open spec fn request(&self) -> RequestView {
        diff_staged_request(self.repo_path.deep_view())
    }

    /// Turns the parameters into the request they stand for.
    pub fn into_request(self) -> (request: Request)
        ensures
            request@ == self.request(),
    {
        Request { operation: Operation::DiffStaged, repo_path: self.repo_path }
    }
}

impl GitDiffAllParams {
    /// The request these parameters stand for.
    pub open spec fn request(&self) -> RequestView {
        diff_all_request(self.include_untracked, self.repo_path.deep_view())
    }

    /// Turns the parameters into the request they stand for.
    pub fn into_request(self) -> (request: Request)
        ensures
            request@ == self.request(),
    {
        Request {
            operation: Operation::DiffAll { include_untracked: self.include_untracked },
            repo_path: self.repo_path,
        }
    }
}

impl GitLogParams {
    /// The request these parameters stand for.
    pub open spec fn request(&self) -> RequestView {
        log_request(self.limit, self.repo_path.deep_view())
    }

    /// Turns the parameters into the request they stand for.
    pub fn into_request(self) -> (request: Request)
        ensures
            request@ == self.request(),
    {
        Request { operation: Operation::Log { limit: self.limit }, repo_path: self.repo_path }
    }
}

} // verus!
