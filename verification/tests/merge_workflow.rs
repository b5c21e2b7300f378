use workmux::merge::{
    merge_actions, merge_success, on_action_failure, plan_merge, Compensation, MergeAction,
    MergeError, MergeStrategy,
};
use workmux::units::{TargetLocation, WorkflowContext, WorktreeSnapshot};

fn ctx() -> WorkflowContext {
    WorkflowContext {
        main_branch: "main".to_string(),
        main_worktree_root: "/repo".to_string(),
        prefix: "wm/".to_string(),
    }
}

fn clean(path: &str, branch: &str) -> WorktreeSnapshot {
    WorktreeSnapshot {
        path: path.to_string(),
        branch: branch.to_string(),
        has_unstaged: false,
        has_untracked: false,
        has_staged: false,
        has_tracked_changes: false,
        exists: true,
        has_uncommitted: false,
    }
}

fn listing() -> Vec<WorktreeSnapshot> {
    vec![
        clean("/repo", "main"),
        clean("/repo__worktrees/feature-x", "feature-x"),
        clean("/repo__worktrees/release", "release"),
    ]
}

#[test]
fn merge_plan_default_target_is_main() {
    let plan = plan_merge("feature-x", None, false, false, false, false, &ctx(), &listing())
        .unwrap();
    assert_eq!(plan.branch_to_merge, "feature-x");
    assert_eq!(plan.handle, "feature-x");
    assert_eq!(plan.target_branch, "main");
    assert_eq!(plan.target_path, "/repo");
    assert_eq!(plan.target_window, "main");
    assert_eq!(plan.target_location, TargetLocation::MainWorktree);
    assert_eq!(plan.strategy, MergeStrategy::Standard);
}

#[test]
fn merge_self_merge_rejected() {
    // The source branch equals the resolved target branch: an error, with
    // no plan and hence zero side effects, whether the target is explicit
    // or defaulted.
    let err = plan_merge(
        "feature-x",
        Some("feature-x"),
        false,
        false,
        false,
        false,
        &ctx(),
        &listing(),
    )
    .unwrap_err();
    match &err {
        MergeError::SelfMerge { branch } => assert_eq!(branch, "feature-x"),
        other => panic!("expected SelfMerge, got {}", other.message()),
    }
    assert_eq!(err.message(), "Cannot merge branch 'feature-x' into itself.");

    let main_ctx = ctx();
    let err2 = plan_merge("main", None, false, false, false, false, &main_ctx, &listing())
        .unwrap_err();
    assert!(matches!(err2, MergeError::SelfMerge { .. }));
}

#[test]
fn merge_dirty_target_rejected_for_all_strategies() {
    // Uncommitted tracked changes in the target worktree stop the merge
    // before any strategy step, for all three strategies.
    let mut wts = listing();
    wts[0].has_tracked_changes = true;
    for (rebase, squash) in [(false, false), (true, false), (false, true)] {
        let err = plan_merge(
            "feature-x",
            None,
            false,
            rebase,
            squash,
            false,
            &ctx(),
            &wts,
        )
        .unwrap_err();
        match &err {
            MergeError::TargetDirty { path } => assert_eq!(path, "/repo"),
            other => panic!("expected TargetDirty, got {}", other.message()),
        }
        assert_eq!(
            err.message(),
            "Target worktree (/repo) has uncommitted changes. Please commit or stash them before merging."
        );
    }
}

#[test]
fn merge_dirty_source_rejected_and_named() {
    let mut wts = listing();
    wts[1].has_unstaged = true;
    wts[1].has_untracked = true;
    let err = plan_merge("feature-x", None, false, false, false, false, &ctx(), &wts)
        .unwrap_err();
    assert_eq!(
        err.message(),
        "Worktree for 'feature-x' has unstaged changes and untracked files (will be lost). \
         Please stage or stash them, or use --ignore-uncommitted."
    );

    let mut wts2 = listing();
    wts2[1].has_untracked = true;
    let err2 = plan_merge("feature-x", None, false, false, false, false, &ctx(), &wts2)
        .unwrap_err();
    assert_eq!(
        err2.message(),
        "Worktree for 'feature-x' has untracked files (will be lost). \
         Please stage or stash them, or use --ignore-uncommitted."
    );

    // The override admits the dirty source.
    assert!(plan_merge("feature-x", None, true, false, false, false, &ctx(), &wts).is_ok());
}

#[test]
fn merge_no_worktree_rejected() {
    let err = plan_merge("nope", None, false, false, false, false, &ctx(), &listing())
        .unwrap_err();
    assert_eq!(err.message(), "No worktree found with name 'nope'");
}

#[test]
fn merge_staged_changes_commit_first() {
    let mut wts = listing();
    wts[1].has_staged = true;
    let plan = plan_merge("feature-x", None, false, false, false, false, &ctx(), &wts).unwrap();
    assert!(plan.commit_staged_first);
    assert!(plan.had_staged_changes);
    let actions = merge_actions(&plan);
    assert!(matches!(&actions[0], MergeAction::CommitStaged { path } if path == "/repo__worktrees/feature-x"));

    // With the override, staged changes ride along uncommitted.
    let plan2 = plan_merge("feature-x", None, true, false, false, false, &ctx(), &wts).unwrap();
    assert!(!plan2.commit_staged_first);
    assert!(plan2.had_staged_changes);
}

#[test]
fn merge_squash_conflict_resets_target_and_names_retry() {
    // A squash conflict hard-resets the target worktree and the error
    // names the exact retry command.
    let plan = plan_merge("feature-x", None, false, false, true, false, &ctx(), &listing())
        .unwrap();
    assert_eq!(plan.strategy, MergeStrategy::Squash);
    let actions = merge_actions(&plan);
    assert!(matches!(
        &actions[0],
        MergeAction::SwitchTargetBranch { path, branch } if path == "/repo" && branch == "main"
    ));
    let squash_step = &actions[1];
    assert!(matches!(squash_step, MergeAction::SquashMergeBranch { .. }));
    let (comp, err) = on_action_failure(&plan, squash_step);
    match comp {
        Some(Compensation::ResetHard { path }) => assert_eq!(path, "/repo"),
        _ => panic!("expected a hard reset of the target worktree"),
    }
    let msg = err.message();
    assert!(msg.contains("workmux merge feature-x"));
    assert!(msg.contains("Target worktree kept clean"));
    assert!(msg.ends_with("After resolving conflicts, retry: workmux merge feature-x"));
}

#[test]
fn merge_standard_conflict_aborts_merge() {
    let plan = plan_merge("feature-x", None, false, false, false, false, &ctx(), &listing())
        .unwrap();
    let actions = merge_actions(&plan);
    let merge_step = &actions[1];
    assert!(matches!(merge_step, MergeAction::MergeBranch { .. }));
    let (comp, err) = on_action_failure(&plan, merge_step);
    assert!(matches!(comp, Some(Compensation::AbortMerge { path }) if path == "/repo"));
    assert!(err.message().contains("workmux merge feature-x"));
}

#[test]
fn merge_conflict_retry_names_explicit_target() {
    let plan = plan_merge(
        "feature-x",
        Some("release"),
        false,
        false,
        true,
        false,
        &ctx(),
        &listing(),
    )
    .unwrap();
    let actions = merge_actions(&plan);
    let (_, err) = on_action_failure(&plan, &actions[1]);
    assert!(err
        .message()
        .ends_with("After resolving conflicts, retry: workmux merge feature-x --into release"));
}

#[test]
fn merge_rebase_into_release_plan() {
    // Rebase into a branch with a dedicated worktree: the rebase runs in
    // the source worktree, and the then fast-forwardable merge runs in the
    // release worktree.
    let plan = plan_merge(
        "feature-x",
        Some("release"),
        false,
        true,
        false,
        false,
        &ctx(),
        &listing(),
    )
    .unwrap();
    assert_eq!(plan.strategy, MergeStrategy::Rebase);
    assert_eq!(plan.target_location, TargetLocation::DedicatedWorktree);
    assert_eq!(plan.target_path, "/repo__worktrees/release");
    assert_eq!(plan.target_window, "release");
    let actions = merge_actions(&plan);
    assert_eq!(actions.len(), 3);
    assert!(matches!(
        &actions[0],
        MergeAction::SwitchTargetBranch { path, branch }
            if path == "/repo__worktrees/release" && branch == "release"
    ));
    assert!(matches!(
        &actions[1],
        MergeAction::RebaseOnto { path, base }
            if path == "/repo__worktrees/feature-x" && base == "release"
    ));
    assert!(matches!(
        &actions[2],
        MergeAction::MergeBranch { path, branch }
            if path == "/repo__worktrees/release" && branch == "feature-x"
    ));
    // A rebase conflict is left in the source worktree: no compensation.
    let (comp, err) = on_action_failure(&plan, &actions[1]);
    assert!(comp.is_none());
    assert!(err.message().contains("git rebase --continue"));
}

#[test]
fn merge_target_without_worktree_borrows_main() {
    // The target branch exists but has no worktree of its own: the merge
    // runs in the main worktree, which is switched to the target branch.
    let plan = plan_merge(
        "feature-x",
        Some("hotfix"),
        false,
        false,
        false,
        false,
        &ctx(),
        &listing(),
    )
    .unwrap();
    assert_eq!(plan.target_location, TargetLocation::NoWorktree);
    assert_eq!(plan.target_path, "/repo");
    assert_eq!(plan.target_window, "main");
    let actions = merge_actions(&plan);
    assert!(matches!(
        &actions[0],
        MergeAction::SwitchTargetBranch { path, branch } if path == "/repo" && branch == "hotfix"
    ));
}

#[test]
fn merge_success_cleanup_is_forced_unless_kept() {
    let plan = plan_merge("feature-x", None, false, false, false, false, &ctx(), &listing())
        .unwrap();
    let (result, cleanup) = merge_success(&plan);
    assert_eq!(result.branch_merged, "feature-x");
    assert_eq!(result.target_branch, "main");
    assert!(!result.had_staged_changes);
    let c = cleanup.expect("cleanup runs unless --keep");
    assert!(c.force);
    assert_eq!(c.branch, "feature-x");
    assert_eq!(c.handle, "feature-x");
    assert_eq!(c.worktree_path, "/repo__worktrees/feature-x");
    assert_eq!(c.target_window, "main");

    let kept = plan_merge("feature-x", None, false, false, false, true, &ctx(), &listing())
        .unwrap();
    let (_, cleanup2) = merge_success(&kept);
    assert!(cleanup2.is_none());
}

#[test]
fn merge_invalid_source_handle() {
    // A source worktree whose path has no final component cannot name a
    // window.
    let wts = vec![clean("/repo", "main"), clean("/w/x/", "feature-x")];
    let err = plan_merge("feature-x", None, false, false, false, false, &ctx(), &wts)
        .unwrap_err();
    assert!(matches!(err, MergeError::InvalidSourceHandle { .. }));
    assert_eq!(
        err.message(),
        "Could not derive handle from worktree path: /w/x/"
    );
}

#[test]
fn merge_invalid_target_handle() {
    let wts = vec![
        clean("/repo", "main"),
        clean("/w/feature-x", "feature-x"),
        clean("/w/release/", "release"),
    ];
    let err = plan_merge(
        "feature-x",
        Some("release"),
        false,
        false,
        false,
        false,
        &ctx(),
        &wts,
    )
    .unwrap_err();
    assert!(matches!(err, MergeError::InvalidTargetHandle));
    assert_eq!(err.message(), "Invalid worktree path for target branch");
}
