use workmux::pr::{
    detect_remote_branch, parse_fork_branch_spec, parse_remote_branch_spec, pr_is_fork,
    pr_warnings, resolve_fork_branch, resolve_pr_ref, ForkBranchSpec, PrDetails, PrError,
    RemoteBranchPlan,
};

fn remotes() -> Vec<String> {
    vec!["origin".to_string(), "upstream".to_string()]
}

fn pr(head: &str, state: &str, draft: bool, head_owner: &str) -> PrDetails {
    PrDetails {
        title: "A change".to_string(),
        author: "someone".to_string(),
        head_ref_name: head.to_string(),
        state: state.to_string(),
        is_draft: draft,
        head_repository_owner: head_owner.to_string(),
    }
}

#[test]
fn detect_fork_syntax() {
    let plan = detect_remote_branch("someuser:feature-a", false, &remotes()).unwrap();
    match plan {
        RemoteBranchPlan::Fork { owner, branch } => {
            assert_eq!(owner, "someuser");
            assert_eq!(branch, "feature-a");
        }
        _ => panic!("expected fork plan"),
    }
}

#[test]
fn detect_fork_rejects_base() {
    // The fork branch is itself the base; an explicit base is ambiguous
    // and rejected, not silently overridden.
    let err = detect_remote_branch("someuser:feature-a", true, &remotes()).unwrap_err();
    assert!(matches!(err, PrError::BaseWithFork { .. }));
    assert_eq!(
        err.message(),
        "Cannot use --base with 'owner:branch' syntax. \
         The branch 'feature-a' from 'someuser' will be used as the base."
    );
}

#[test]
fn detect_known_remote() {
    let plan = detect_remote_branch("origin/feature", false, &remotes()).unwrap();
    match plan {
        RemoteBranchPlan::Remote { remote_ref, base_name } => {
            assert_eq!(remote_ref, "origin/feature");
            assert_eq!(base_name, "feature");
        }
        _ => panic!("expected remote plan"),
    }
}

#[test]
fn detect_remote_rejects_base() {
    let err = detect_remote_branch("origin/feature", true, &remotes()).unwrap_err();
    assert!(matches!(err, PrError::BaseWithRemote { .. }));
    assert_eq!(
        err.message(),
        "Cannot use --base with a remote branch reference. \
         The remote branch 'origin/feature' will be used as the base."
    );
}

#[test]
fn detect_plain_local_branch() {
    let plan = detect_remote_branch("feature/nested", false, &remotes()).unwrap();
    match plan {
        RemoteBranchPlan::Local { base_name } => assert_eq!(base_name, "feature/nested"),
        _ => panic!("a slash without a known remote stays a local branch name"),
    }
}

#[test]
fn detect_mismatched_remote() {
    // A remote whose own name contains a slash matches as a prefix but
    // does not survive the split check.
    let odd = vec!["a/b".to_string()];
    let err = detect_remote_branch("a/b/c", false, &odd).unwrap_err();
    assert!(matches!(err, PrError::MismatchedRemote));
    assert_eq!(err.message(), "Mismatched remote detection");
}

#[test]
fn parse_fork_and_remote_specs() {
    let f = parse_fork_branch_spec("owner:branch").unwrap();
    assert_eq!(f.owner, "owner");
    assert_eq!(f.branch, "branch");
    assert!(parse_fork_branch_spec("nobranch:").is_none());
    assert!(parse_fork_branch_spec(":noowner").is_none());
    assert!(parse_fork_branch_spec("plain").is_none());

    let r = parse_remote_branch_spec("origin/feat/x").unwrap();
    assert_eq!(r.remote, "origin");
    assert_eq!(r.branch, "feat/x");
    assert!(parse_remote_branch_spec("trailing/").is_none());
    assert!(parse_remote_branch_spec("plain").is_none());
}

#[test]
fn fork_branch_resolution_builds_remote_ref() {
    let spec = ForkBranchSpec {
        owner: "someuser".to_string(),
        branch: "feature-a".to_string(),
    };
    let r = resolve_fork_branch("fork-someuser", &spec);
    assert_eq!(r.remote_ref, "fork-someuser/feature-a");
    assert_eq!(r.template_base_name, "feature-a");
}

#[test]
fn pr_resolution_uses_head_or_override() {
    let details = pr("pr-head", "OPEN", false, "us");
    let r = resolve_pr_ref(&details, None, "origin");
    assert_eq!(r.local_branch, "pr-head");
    assert_eq!(r.remote_branch, "origin/pr-head");

    let r2 = resolve_pr_ref(&details, Some("my-name"), "fork-them");
    assert_eq!(r2.local_branch, "my-name");
    assert_eq!(r2.remote_branch, "fork-them/pr-head");
}

#[test]
fn pr_fork_and_warning_detection() {
    let same = pr("h", "OPEN", false, "us");
    assert!(!pr_is_fork(&same, "us"));
    let fork = pr("h", "MERGED", true, "them");
    assert!(pr_is_fork(&fork, "us"));

    assert_eq!(pr_warnings(&same), (false, false));
    assert_eq!(pr_warnings(&fork), (true, true));
}
