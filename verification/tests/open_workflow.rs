use workmux::open::{open, OpenError};
use workmux::units::{WorkflowContext, WorktreeSnapshot};

fn ctx() -> WorkflowContext {
    WorkflowContext {
        main_branch: "main".to_string(),
        main_worktree_root: "/repo".to_string(),
        prefix: "wm/".to_string(),
    }
}

fn wt(path: &str, branch: &str) -> WorktreeSnapshot {
    WorktreeSnapshot {
        path: path.to_string(),
        branch: branch.to_string(),
        has_unstaged: false,
        has_untracked: false,
        has_staged: false,
        has_tracked_changes: false,
        exists: true,
        has_uncommitted: false,
    }
}

#[test]
fn open_existing_worktree() {
    let wts = vec![wt("/repo", "main"), wt("/repo__worktrees/feature-x", "feature-x")];
    let windows: Vec<String> = vec!["wm/other".to_string()];
    let plan = open("feature-x", &ctx(), &wts, &windows).unwrap();
    assert_eq!(plan.branch_name, "feature-x");
    assert_eq!(plan.worktree_path, "/repo__worktrees/feature-x");
    assert_eq!(plan.handle, "feature-x");
    assert_eq!(plan.window, "wm/feature-x");
}

#[test]
fn open_requires_existing_worktree() {
    let wts = vec![wt("/repo", "main")];
    let windows: Vec<String> = Vec::new();
    let err = open("feature-x", &ctx(), &wts, &windows).unwrap_err();
    assert!(matches!(err, OpenError::NoWorktree { .. }));
    assert_eq!(
        err.message(),
        "No worktree found for branch 'feature-x'. Use 'workmux add feature-x' to create it."
    );
}

#[test]
fn open_refuses_duplicate_window() {
    // An existing window for the unit is an error, never a silent
    // re-attach.
    let wts = vec![wt("/repo", "main"), wt("/repo__worktrees/feature-x", "feature-x")];
    let windows = vec!["wm/feature-x".to_string()];
    let err = open("feature-x", &ctx(), &wts, &windows).unwrap_err();
    match &err {
        OpenError::WindowExists { window } => assert_eq!(window, "wm/feature-x"),
        other => panic!("expected WindowExists, got {}", other.message()),
    }
    assert_eq!(
        err.message(),
        "A tmux window named 'wm/feature-x' already exists. \
         To switch to it, run: tmux select-window -t 'wm/feature-x'"
    );
}

#[test]
fn open_handle_comes_from_directory_name() {
    // The handle is the worktree's directory name, not the branch name, so
    // a configuration change after creation does not break reopening.
    let wts = vec![wt("/repo", "main"), wt("/repo__worktrees/legacy-dir", "feature-x")];
    let windows: Vec<String> = Vec::new();
    let plan = open("feature-x", &ctx(), &wts, &windows).unwrap();
    assert_eq!(plan.handle, "legacy-dir");
    assert_eq!(plan.window, "wm/legacy-dir");
}

#[test]
fn open_invalid_handle() {
    let wts = vec![wt("/w/x/", "feature-x")];
    let windows: Vec<String> = Vec::new();
    let err = open("feature-x", &ctx(), &wts, &windows).unwrap_err();
    assert!(matches!(err, OpenError::InvalidHandle { .. }));
    assert_eq!(err.message(), "Invalid worktree path: no directory name");
}
