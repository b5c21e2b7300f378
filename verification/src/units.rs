//! The data every workflow consumes: the per-invocation context, a snapshot
//! of the version-control side (the worktree listing with the dirtiness of
//! each worktree), and the resolution of a user-supplied name to a unit.
//!
//! There is no persisted registry of units: a unit is reconstructed on each
//! invocation from the live listings, so every operation must tolerate the
//! git side and the session side being independently partially present.

use vstd::prelude::*;

use crate::strutil::{concat_str, path_basename, spec_basename, str_eq};

verus! {

/// Process-wide resolved configuration, built once per invocation and
/// read-only thereafter: the main branch name, the root of the main
/// worktree, and the prefix applied to every non-main window name.
#[derive(Debug)]
pub struct WorkflowContext {
    pub main_branch: String,
    pub main_worktree_root: String,
    pub prefix: String,
}

/// The view of a [`WorkflowContext`].
pub struct ContextModel {
    pub main_branch: Seq<char>,
    pub main_worktree_root: Seq<char>,
    pub prefix: Seq<char>,
}

impl View for WorkflowContext {
    type V = ContextModel;

    open spec fn view(&self) -> ContextModel {
        ContextModel {
            main_branch: self.main_branch@,
            main_worktree_root: self.main_worktree_root@,
            prefix: self.prefix@,
        }
    }
}

/// One worktree as the version-control tool reports it, together with the
/// status facts the workflows guard on. A detached-HEAD worktree is listed
/// with `(detached)` as its branch.
#[derive(Debug)]
pub struct WorktreeSnapshot {
    /// Absolute path of the worktree directory.
    pub path: String,
    /// The branch checked out in it.
    pub branch: String,
    /// Unstaged modifications to tracked files are present.
    pub has_unstaged: bool,
    /// Untracked files are present.
    pub has_untracked: bool,
    /// Staged, uncommitted changes are present.
    pub has_staged: bool,
    /// Uncommitted changes to tracked files (staged or not) are present.
    pub has_tracked_changes: bool,
    /// The worktree directory is present on disk.
    pub exists: bool,
    /// Any uncommitted changes at all are present (meaningful only when
    /// the directory exists).
    pub has_uncommitted: bool,
}

/// The view of a [`WorktreeSnapshot`].
pub struct WorktreeModel {
    pub path: Seq<char>,
    pub branch: Seq<char>,
    pub has_unstaged: bool,
    pub has_untracked: bool,
    pub has_staged: bool,
    pub has_tracked_changes: bool,
    pub exists: bool,
    pub has_uncommitted: bool,
}

impl View for WorktreeSnapshot {
    type V = WorktreeModel;

    open spec fn view(&self) -> WorktreeModel {
        WorktreeModel {
            path: self.path@,
            branch: self.branch@,
            has_unstaged: self.has_unstaged,
            has_untracked: self.has_untracked,
            has_staged: self.has_staged,
            has_tracked_changes: self.has_tracked_changes,
            exists: self.exists,
            has_uncommitted: self.has_uncommitted,
        }
    }
}

impl DeepView for WorktreeSnapshot {
    type V = WorktreeModel;

    open spec fn deep_view(&self) -> WorktreeModel {
        self.view()
    }
}

/// The first listed worktree, from `i` on, whose directory name equals
/// `name`.
pub open spec fn first_handle_match(s: Seq<WorktreeModel>, name: Seq<char>, i: int) -> Option<int>
    decreases s.len() - i,
{
    if i < 0 || i >= s.len() {
        None
    } else if spec_basename(s[i].path) == name {
        Some(i)
    } else {
        first_handle_match(s, name, i + 1)
    }
}

/// The first listed worktree, from `i` on, whose branch equals `name`.
pub open spec fn first_branch_match(s: Seq<WorktreeModel>, name: Seq<char>, i: int) -> Option<int>
    decreases s.len() - i,
{
    if i < 0 || i >= s.len() {
        None
    } else if s[i].branch == name {
        Some(i)
    } else {
        first_branch_match(s, name, i + 1)
    }
}

/// Name resolution tries the handle (the worktree directory name) first and
/// the branch name second, so a handle always wins over a branch that
/// happens to share its spelling.
pub open spec fn find_worktree_model(s: Seq<WorktreeModel>, name: Seq<char>) -> Option<int> {
    match first_handle_match(s, name, 0) {
        Some(i) => Some(i),
        None => first_branch_match(s, name, 0),
    }
}

/// Locates the worktree `name` refers to: first as a handle, then as a
/// branch name. Returns its index in the listing.
#[verifier::loop_isolation(false)]
pub fn find_worktree(worktrees: &Vec<WorktreeSnapshot>, name: &str) -> (r: Option<usize>)
    ensures
        match r {
            Some(i) => i < worktrees@.len() && find_worktree_model(worktrees.deep_view(), name@)
                == Some(i as int),
            None => find_worktree_model(worktrees.deep_view(), name@) is None,
        },
{
    let ghost s = worktrees.deep_view();
    let n = worktrees.len();
    let mut i: usize = 0;
    while i < n
        invariant
            0 <= i <= n,
            first_handle_match(s, name@, 0) == first_handle_match(s, name@, i as int),
        decreases n - i,
    {
        let base = path_basename(worktrees[i].path.as_str());
        if str_eq(base.as_str(), name) {
            return Some(i);
        }
        i = i + 1;
    }
    let mut k: usize = 0;
    while k < n
        invariant
            0 <= k <= n,
            first_branch_match(s, name@, 0) == first_branch_match(s, name@, k as int),
        decreases n - k,
    {
        if str_eq(worktrees[k].branch.as_str(), name) {
            return Some(k);
        }
        k = k + 1;
    }
    None
}

/// The first listed worktree, from `i` on, whose path equals `path`.
pub open spec fn first_path_match(s: Seq<WorktreeModel>, path: Seq<char>, i: int) -> Option<int>
    decreases s.len() - i,
{
    if i < 0 || i >= s.len() {
        None
    } else if s[i].path == path {
        Some(i)
    } else {
        first_path_match(s, path, i + 1)
    }
}

/// Finds the listing entry for a worktree path.
#[verifier::loop_isolation(false)]
pub fn find_by_path(worktrees: &Vec<WorktreeSnapshot>, path: &str) -> (r: Option<usize>)
    ensures
        match r {
            Some(i) => i < worktrees@.len() && first_path_match(worktrees.deep_view(), path@, 0)
                == Some(i as int),
            None => first_path_match(worktrees.deep_view(), path@, 0) is None,
        },
{
    let ghost s = worktrees.deep_view();
    let n = worktrees.len();
    let mut i: usize = 0;
    while i < n
        invariant
            0 <= i <= n,
            first_path_match(s, path@, 0) == first_path_match(s, path@, i as int),
        decreases n - i,
    {
        if str_eq(worktrees[i].path.as_str(), path) {
            return Some(i);
        }
        i = i + 1;
    }
    None
}

/// The full session window name for a unit's window base. The window
/// prefix is applied to every non-main window name, never to the main
/// window, which is named by the main branch alone.
pub fn session_window_name(context: &WorkflowContext, window: &str) -> (r: String)
    ensures
        window@ == context.main_branch@ ==> r@ == window@,
        window@ != context.main_branch@ ==> r@ == context@.prefix + window@,
{
    if str_eq(window, context.main_branch.as_str()) {
        window.to_owned()
    } else {
        concat_str(context.prefix.as_str(), window)
    }
}

/// Where the target branch of a merge lives: in the main worktree, in a
/// dedicated worktree of its own, or in no worktree at all (in which case
/// the main worktree is borrowed and switched to it).
#[derive(Debug, Clone, Copy, PartialEq, Eq, Structural)]
pub enum TargetLocation {
    MainWorktree,
    DedicatedWorktree,
    NoWorktree,
}

/// The resolved target of a merge: where the merge will run and which
/// window the session lands in afterwards.
#[derive(Debug)]
pub struct ResolvedTarget {
    pub location: TargetLocation,
    pub path: String,
    pub window: String,
}

/// The view of a [`ResolvedTarget`].
pub struct ResolvedTargetModel {
    pub location: TargetLocation,
    pub path: Seq<char>,
    pub window: Seq<char>,
}

impl View for ResolvedTarget {
    type V = ResolvedTargetModel;

    open spec fn view(&self) -> ResolvedTargetModel {
        ResolvedTargetModel {
            location: self.location,
            path: self.path@,
            window: self.window@,
        }
    }
}

/// The three-way fallback for a merge target: the main branch uses the main
/// worktree under the main window; a branch with a dedicated worktree uses
/// that worktree under its directory-name window, unless that worktree is
/// the main one; a branch with no worktree borrows the main worktree. The
/// result is `None` exactly when a dedicated worktree's directory name is
/// empty, which cannot name a window.
pub open spec fn resolve_target_model(
    target_branch: Seq<char>,
    ctx: ContextModel,
    s: Seq<WorktreeModel>,
) -> Option<ResolvedTargetModel> {
    if target_branch == ctx.main_branch {
        Some(
            ResolvedTargetModel {
                location: TargetLocation::MainWorktree,
                path: ctx.main_worktree_root,
                window: ctx.main_branch,
            },
        )
    } else {
        match first_branch_match(s, target_branch, 0) {
            Some(i) => {
                if s[i].path == ctx.main_worktree_root {
                    Some(
                        ResolvedTargetModel {
                            location: TargetLocation::MainWorktree,
                            path: ctx.main_worktree_root,
                            window: ctx.main_branch,
                        },
                    )
                } else if spec_basename(s[i].path).len() > 0 {
                    Some(
                        ResolvedTargetModel {
                            location: TargetLocation::DedicatedWorktree,
                            path: s[i].path,
                            window: spec_basename(s[i].path),
                        },
                    )
                } else {
                    None
                }
            },
            None => Some(
                ResolvedTargetModel {
                    location: TargetLocation::NoWorktree,
                    path: ctx.main_worktree_root,
                    window: ctx.main_branch,
                },
            ),
        }
    }
}

/// Resolves the worktree path and window name for a merge target, with the
/// three-way fallback described at [`resolve_target_model`].
#[verifier::loop_isolation(false)]
pub fn resolve_target(
    target_branch: &str,
    context: &WorkflowContext,
    worktrees: &Vec<WorktreeSnapshot>,
) -> (r: Option<ResolvedTarget>)
    ensures
        match r {
            Some(t) => resolve_target_model(target_branch@, context@, worktrees.deep_view())
                == Some(t@),
            None => resolve_target_model(target_branch@, context@, worktrees.deep_view()) is None,
        },
{
    let ghost s = worktrees.deep_view();
    if str_eq(target_branch, context.main_branch.as_str()) {
        return Some(
            ResolvedTarget {
                location: TargetLocation::MainWorktree,
                path: context.main_worktree_root.clone(),
                window: context.main_branch.clone(),
            },
        );
    }
    let n = worktrees.len();
    let mut i: usize = 0;
    while i < n
        invariant
            0 <= i <= n,
            first_branch_match(s, target_branch@, 0) == first_branch_match(
                s,
                target_branch@,
                i as int,
            ),
        decreases n - i,
    {
        if str_eq(worktrees[i].branch.as_str(), target_branch) {
            if str_eq(worktrees[i].path.as_str(), context.main_worktree_root.as_str()) {
                return Some(
                    ResolvedTarget {
                        location: TargetLocation::MainWorktree,
                        path: context.main_worktree_root.clone(),
                        window: context.main_branch.clone(),
                    },
                );
            }
            let base = path_basename(worktrees[i].path.as_str());
            if base.as_str().unicode_len() == 0 {
                return None;
            }
            return Some(
                ResolvedTarget {
                    location: TargetLocation::DedicatedWorktree,
                    path: worktrees[i].path.clone(),
                    window: base,
                },
            );
        }
        i = i + 1;
    }
    Some(
        ResolvedTarget {
            location: TargetLocation::NoWorktree,
            path: context.main_worktree_root.clone(),
            window: context.main_branch.clone(),
        },
    )
}

} // verus!
