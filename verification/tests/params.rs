use git_commit_helper::params::{
    effective_limit, wants_untracked, GitDiffAllParams, GitDiffStagedParams, GitLogParams,
    GitStatusParams, Operation, Request, DEFAULT_LOG_LIMIT, MAX_LOG_LIMIT, MIN_LOG_LIMIT,
};

#[test]
fn limits_have_their_values() {
    assert_eq!(DEFAULT_LOG_LIMIT, 10);
    assert_eq!(MIN_LOG_LIMIT, 1);
    assert_eq!(MAX_LOG_LIMIT, 50);
}

#[test]
fn limit_defaults_to_ten() {
    assert_eq!(effective_limit(None), 10);
    assert_eq!(effective_limit(None), effective_limit(Some(10)));
}

#[test]
fn limit_of_zero_or_less_becomes_one() {
    assert_eq!(effective_limit(Some(0)), 1);
    assert_eq!(effective_limit(Some(-1)), 1);
    assert_eq!(effective_limit(Some(i32::MIN)), 1);
}

#[test]
fn limit_above_fifty_becomes_fifty() {
    assert_eq!(effective_limit(Some(51)), 50);
    assert_eq!(effective_limit(Some(1000)), 50);
    assert_eq!(effective_limit(Some(i32::MAX)), 50);
}

#[test]
fn limit_in_range_stays() {
    for n in 1..=50 {
        assert_eq!(effective_limit(Some(n)), n);
    }
}

#[test]
fn limit_agrees_with_clamp() {
    for n in -100..=200 {
        assert_eq!(effective_limit(Some(n)), n.clamp(1, 50));
    }
}

#[test]
fn untracked_files_only_when_asked_for() {
    assert!(!wants_untracked(None));
    assert!(!wants_untracked(Some(false)));
    assert!(wants_untracked(Some(true)));
}

#[test]
fn status_parameters_as_request() {
    let params = GitStatusParams { repo_path: Some("/repo".to_string()) };
    assert_eq!(
        params.into_request(),
        Request { operation: Operation::Status, repo_path: Some("/repo".to_string()) }
    );
}

#[test]
fn staged_diff_parameters_as_request() {
    let params = GitDiffStagedParams { repo_path: None };
    assert_eq!(params.into_request(), Request { operation: Operation::DiffStaged, repo_path: None });
}

#[test]
fn full_diff_parameters_as_request() {
    let params = GitDiffAllParams { repo_path: None, include_untracked: Some(true) };
    assert_eq!(
        params.into_request(),
        Request { operation: Operation::DiffAll { include_untracked: Some(true) }, repo_path: None }
    );
}

#[test]
fn log_parameters_as_request() {
    let params = GitLogParams { repo_path: Some("r".to_string()), limit: Some(1000) };
    assert_eq!(
        params.into_request(),
        Request { operation: Operation::Log { limit: Some(1000) }, repo_path: Some("r".to_string()) }
    );
}
