use workmux::remove::{
    apply_confirmation, confirmation_prompt, parse_confirmation, resolve_unit,
    select_gone_candidates, validate_removal_safety, RemoveError, SafetyDecision, UnmergedFacts,
};
use workmux::units::WorktreeSnapshot;

fn facts(unmerged: bool) -> UnmergedFacts {
    UnmergedFacts {
        base: "main".to_string(),
        merge_base: Some("main".to_string()),
        fallback_merge_base: None,
        has_unmerged: unmerged,
    }
}

fn wt(path: &str, branch: &str, exists: bool, uncommitted: bool) -> WorktreeSnapshot {
    WorktreeSnapshot {
        path: path.to_string(),
        branch: branch.to_string(),
        has_unstaged: false,
        has_untracked: false,
        has_staged: false,
        has_tracked_changes: false,
        exists,
        has_uncommitted: uncommitted,
    }
}

#[test]
fn remove_force_never_prompts() {
    // Force bypasses both checks for every combination of unmerged and
    // uncommitted state: the decision is always to proceed, never to ask.
    for uncommitted in [false, true] {
        for unmerged in [false, true] {
            for keep_branch in [false, true] {
                let (decision, used_fallback) = validate_removal_safety(
                    "feature-x",
                    "feature-x",
                    true,
                    keep_branch,
                    true,
                    uncommitted,
                    &facts(unmerged),
                )
                .unwrap();
                assert!(matches!(decision, SafetyDecision::Proceed { force: true }));
                assert!(!used_fallback);
                assert!(confirmation_prompt(&decision).is_none());
            }
        }
    }
}

#[test]
fn remove_uncommitted_changes_block() {
    // Uncommitted tracked changes block removal outright, before any
    // unmerged-commits prompt, and nothing is deleted.
    let err = validate_removal_safety(
        "feature-x",
        "feature-x",
        false,
        false,
        true,
        true,
        &facts(true),
    )
    .unwrap_err();
    assert!(matches!(err, RemoveError::UncommittedChanges));
    assert!(err.message().contains("uncommitted changes"));
    assert_eq!(
        err.message(),
        "Worktree has uncommitted changes. Use --force to delete anyway."
    );
}

#[test]
fn remove_missing_worktree_dir_skips_uncommitted_check() {
    // A worktree directory that is gone from disk cannot hold uncommitted
    // changes; the check is skipped rather than failed.
    let (decision, _) = validate_removal_safety(
        "feature-x",
        "feature-x",
        false,
        false,
        false,
        true,
        &facts(false),
    )
    .unwrap();
    assert!(matches!(decision, SafetyDecision::Proceed { force: false }));
}

#[test]
fn remove_unmerged_commits_need_confirmation() {
    let (decision, used_fallback) = validate_removal_safety(
        "feature-x",
        "feature-x",
        false,
        false,
        true,
        false,
        &facts(true),
    )
    .unwrap();
    assert!(!used_fallback);
    let prompt = confirmation_prompt(&decision).expect("unmerged commits prompt");
    assert!(prompt.contains("This will delete the worktree 'feature-x'"));
    assert!(prompt.contains("not merged into 'main' (base: 'main')"));
    assert!(prompt.contains("cannot be undone"));

    assert_eq!(apply_confirmation(true), Some(true));
    assert_eq!(apply_confirmation(false), None);
}

#[test]
fn remove_keep_branch_skips_unmerged_check() {
    let (decision, _) = validate_removal_safety(
        "feature-x",
        "feature-x",
        false,
        true,
        true,
        false,
        &facts(true),
    )
    .unwrap();
    assert!(matches!(decision, SafetyDecision::Proceed { force: false }));
}

#[test]
fn remove_base_fallback_and_failure() {
    // The recorded base no longer resolves: the default branch's merge
    // base is used, with a warning flagged to the driver.
    let f = UnmergedFacts {
        base: "old-base".to_string(),
        merge_base: None,
        fallback_merge_base: Some("main".to_string()),
        has_unmerged: true,
    };
    let (decision, used_fallback) =
        validate_removal_safety("h", "b", false, false, true, false, &f).unwrap();
    assert!(used_fallback);
    let prompt = confirmation_prompt(&decision).unwrap();
    assert!(prompt.contains("not merged into 'main' (base: 'old-base')"));

    // Neither base resolves: the removal is rejected.
    let f2 = UnmergedFacts {
        base: "old-base".to_string(),
        merge_base: None,
        fallback_merge_base: None,
        has_unmerged: false,
    };
    let err = validate_removal_safety("h", "b", false, false, true, false, &f2).unwrap_err();
    assert!(matches!(err, RemoveError::NoMergeBase { .. }));
    assert_eq!(err.message(), "Failed to get merge base for 'old-base'");
}

#[test]
fn gone_selection_excludes_protected_units() {
    // The candidate set excludes the main branch, the main worktree, any
    // detached-HEAD unit, and branches whose upstream still exists.
    let wts = vec![
        wt("/repo", "main", true, false),
        wt("/repo__worktrees/feature-a", "feature-a", true, false),
        wt("/repo__worktrees/feature-b", "feature-b", true, false),
        wt("/repo__worktrees/det", "(detached)", true, false),
        wt("/repo__worktrees/main-twin", "main", true, false),
    ];
    let gone = vec![
        "feature-a".to_string(),
        "main".to_string(),
        "(detached)".to_string(),
    ];
    let (to_remove, skipped) = select_gone_candidates(&wts, "main", "/repo", &gone, false);
    assert!(skipped.is_empty());
    assert_eq!(to_remove.len(), 1);
    assert_eq!(to_remove[0].branch, "feature-a");
    assert_eq!(to_remove[0].path, "/repo__worktrees/feature-a");
    assert_eq!(to_remove[0].handle, "feature-a");
}

#[test]
fn gone_selection_skips_dirty_unless_forced() {
    let wts = vec![
        wt("/repo", "main", true, false),
        wt("/repo__worktrees/feature-a", "feature-a", true, true),
        wt("/repo__worktrees/feature-b", "feature-b", true, false),
    ];
    let gone = vec!["feature-a".to_string(), "feature-b".to_string()];
    let (to_remove, skipped) = select_gone_candidates(&wts, "main", "/repo", &gone, false);
    assert_eq!(skipped, vec!["feature-a".to_string()]);
    assert_eq!(to_remove.len(), 1);
    assert_eq!(to_remove[0].branch, "feature-b");

    let (forced, skipped_forced) = select_gone_candidates(&wts, "main", "/repo", &gone, true);
    assert!(skipped_forced.is_empty());
    assert_eq!(forced.len(), 2);
    assert_eq!(forced[0].branch, "feature-a");
    assert_eq!(forced[1].branch, "feature-b");
}

#[test]
fn remove_no_worktree_message() {
    let err = RemoveError::NoWorktree {
        name: "ghost".to_string(),
    };
    assert_eq!(err.message(), "No worktree found with name 'ghost'");
}

#[test]
fn remove_resolve_unit_by_handle_or_branch() {
    let wts = vec![
        wt("/repo", "main", true, false),
        wt("/w/feature-x", "some-branch", true, false),
    ];
    let (i, handle) = resolve_unit("feature-x", &wts).unwrap();
    assert_eq!(i, 1);
    assert_eq!(handle, "feature-x");
    let (j, handle2) = resolve_unit("some-branch", &wts).unwrap();
    assert_eq!(j, 1);
    assert_eq!(handle2, "feature-x");

    let err = resolve_unit("ghost", &wts).unwrap_err();
    assert!(matches!(err, RemoveError::NoWorktree { .. }));
    assert_eq!(err.message(), "No worktree found with name 'ghost'");

    let bad = vec![wt("/w/x/", "feature-y", true, false)];
    let err2 = resolve_unit("feature-y", &bad).unwrap_err();
    assert!(matches!(err2, RemoveError::InvalidHandle));
    assert_eq!(err2.message(), "Could not derive handle from worktree path");
}

#[test]
fn confirmation_answers() {
    assert!(parse_confirmation("y"));
    assert!(parse_confirmation("Y"));
    assert!(parse_confirmation("  y\n"));
    assert!(parse_confirmation("\tY \n"));
    assert!(!parse_confirmation(""));
    assert!(!parse_confirmation("   \n"));
    assert!(!parse_confirmation("n"));
    assert!(!parse_confirmation("yes"));
    assert!(!parse_confirmation("y n"));
}
