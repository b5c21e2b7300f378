//! The merge workflow: a linear sequence of guarded steps that merges a
//! unit's branch into a target branch with one of three strategies, keeps
//! the target worktree clean on conflict, and decides the teardown that
//! follows success.
//!
//! Planning is pure: [`plan_merge`] consumes the context and a snapshot of
//! the worktree listing and either rejects the invocation (with no side
//! effect implied) or produces a [`MergePlan`]. The driver then performs
//! the ordered [`merge_actions`]; if one fails it asks
//! [`on_action_failure`] for the compensating action and the error to
//! surface, and on success [`merge_success`] yields the result and the
//! cleanup directive.

use vstd::prelude::*;

use crate::strutil::{concat_str, path_basename, spec_basename, str_eq};
use crate::units::{
    find_by_path, find_worktree, find_worktree_model, first_path_match, resolve_target,
    resolve_target_model, ContextModel, TargetLocation, WorkflowContext, WorktreeModel,
    WorktreeSnapshot,
};

verus! {

broadcast use vstd::string::group_string_axioms;

/// The three merge strategies. They are mutually exclusive; the rebase
/// flag takes precedence over the squash flag.
#[derive(Debug, Clone, Copy, PartialEq, Eq, Structural)]
pub enum MergeStrategy {
    /// Rebase the source branch onto the target inside the source worktree,
    /// then fast-forward the target.
    Rebase,
    /// Squash-merge into the target worktree, then commit.
    Squash,
    /// An ordinary merge commit in the target worktree.
    Standard,
}

/// Which strategy a pair of command-line flags selects.
pub open spec fn strategy_model(rebase: bool, squash: bool) -> MergeStrategy {
    if rebase {
        MergeStrategy::Rebase
    } else if squash {
        MergeStrategy::Squash
    } else {
        MergeStrategy::Standard
    }
}

/// Everything the driver needs to perform a merge whose guards all passed.
#[derive(Debug)]
pub struct MergePlan {
    /// Path of the source unit's worktree.
    pub source_path: String,
    /// The branch being merged.
    pub branch_to_merge: String,
    /// The source unit's handle: the directory name of its worktree, never
    /// the user's input, so a misleading alias cannot corrupt the window
    /// lookup.
    pub handle: String,
    /// The branch being merged into.
    pub target_branch: String,
    /// Where the target branch lives.
    pub target_location: TargetLocation,
    /// The worktree the merge runs in.
    pub target_path: String,
    /// The window the session lands in after cleanup.
    pub target_window: String,
    /// The selected strategy.
    pub strategy: MergeStrategy,
    /// Staged changes in the source are committed (with the user's editor)
    /// before the merge.
    pub commit_staged_first: bool,
    /// The source had staged changes when the plan was made.
    pub had_staged_changes: bool,
    /// Skip teardown after a successful merge.
    pub keep: bool,
    /// An explicit target was requested, which changes the retry command
    /// shown on conflict.
    pub into_given: bool,
}

/// The view of a [`MergePlan`].
pub struct MergePlanModel {
    pub source_path: Seq<char>,
    pub branch_to_merge: Seq<char>,
    pub handle: Seq<char>,
    pub target_branch: Seq<char>,
    pub target_location: TargetLocation,
    pub target_path: Seq<char>,
    pub target_window: Seq<char>,
    pub strategy: MergeStrategy,
    pub commit_staged_first: bool,
    pub had_staged_changes: bool,
    pub keep: bool,
    pub into_given: bool,
}

impl View for MergePlan {
    type V = MergePlanModel;

    open spec fn view(&self) -> MergePlanModel {
        MergePlanModel {
            source_path: self.source_path@,
            branch_to_merge: self.branch_to_merge@,
            handle: self.handle@,
            target_branch: self.target_branch@,
            target_location: self.target_location,
            target_path: self.target_path@,
            target_window: self.target_window@,
            strategy: self.strategy,
            commit_staged_first: self.commit_staged_first,
            had_staged_changes: self.had_staged_changes,
            keep: self.keep,
            into_given: self.into_given,
        }
    }
}

/// Why a merge invocation was rejected, or that a strategy step conflicted.
#[derive(Debug)]
pub enum MergeError {
    /// No worktree matches the given name.
    NoWorktree { name: String },
    /// The source worktree's directory name is empty and cannot serve as a
    /// handle.
    InvalidSourceHandle { path: String },
    /// The target branch's dedicated worktree has an empty directory name.
    InvalidTargetHandle,
    /// The branch to merge equals the resolved target branch.
    SelfMerge { branch: String },
    /// The source worktree has unstaged changes or untracked files and the
    /// override was not given.
    SourceDirty { branch: String, unstaged: bool, untracked: bool },
    /// The target worktree has uncommitted tracked changes.
    TargetDirty { path: String },
    /// A step of the planned merge failed; the message says what happened,
    /// where to resolve it, and what to run next.
    StepFailed { message: String },
}

/// The issues a dirty source worktree is reported with: untracked files
/// are named distinctly because later cleanup would silently discard them.
pub open spec fn dirty_issues_model(unstaged: bool, untracked: bool) -> Seq<char> {
    if unstaged && untracked {
        "unstaged changes and untracked files (will be lost)"@
    } else if unstaged {
        "unstaged changes"@
    } else if untracked {
        "untracked files (will be lost)"@
    } else {
        Seq::empty()
    }
}

impl MergeError {
    /// The human-readable message for this rejection, always naming the
    /// affected path or branch and the remedy.
    pub fn message(&self) -> (r: String)
        ensures
            *self matches MergeError::NoWorktree { name } ==> r@ == "No worktree found with name '"@
                + name@ + "'"@,
            *self matches MergeError::InvalidSourceHandle { path } ==> r@
                == "Could not derive handle from worktree path: "@ + path@,
            *self is InvalidTargetHandle ==> r@ == "Invalid worktree path for target branch"@,
            *self matches MergeError::SelfMerge { branch } ==> r@ == "Cannot merge branch '"@
                + branch@ + "' into itself."@,
            *self matches MergeError::SourceDirty { branch, unstaged, untracked } ==> r@
                == "Worktree for '"@ + branch@ + "' has "@ + dirty_issues_model(
                unstaged,
                untracked,
            ) + ". Please stage or stash them, or use --ignore-uncommitted."@,
            *self matches MergeError::TargetDirty { path } ==> r@ == "Target worktree ("@ + path@
                + ") has uncommitted changes. Please commit or stash them before merging."@,
            *self matches MergeError::StepFailed { message } ==> r@ == message@,
    {
        match self {
            MergeError::NoWorktree { name } => {
                let mut m = concat_str("No worktree found with name '", name.as_str());
                m.append("'");
                proof {
                    assert(m@ =~= "No worktree found with name '"@ + name@ + "'"@);
                }
                m
            },
            MergeError::InvalidSourceHandle { path } => concat_str(
                "Could not derive handle from worktree path: ",
                path.as_str(),
            ),
            MergeError::InvalidTargetHandle => "Invalid worktree path for target branch".to_owned(),
            MergeError::SelfMerge { branch } => {
                let mut m = concat_str("Cannot merge branch '", branch.as_str());
                m.append("' into itself.");
                proof {
                    assert(m@ =~= "Cannot merge branch '"@ + branch@ + "' into itself."@);
                }
                m
            },
            MergeError::SourceDirty { branch, unstaged, untracked } => {
                let issues: &str = if *unstaged && *untracked {
                    "unstaged changes and untracked files (will be lost)"
                } else if *unstaged {
                    "unstaged changes"
                } else if *untracked {
                    "untracked files (will be lost)"
                } else {
                    ""
                };
                let mut m = concat_str("Worktree for '", branch.as_str());
                m.append("' has ");
                m.append(issues);
                m.append(". Please stage or stash them, or use --ignore-uncommitted.");
                proof {
                    if !*unstaged && !*untracked {
                        assert(""@ =~= Seq::<char>::empty()) by {
                            reveal_strlit("");
                        }
                    }
                    assert(m@ =~= "Worktree for '"@ + branch@ + "' has "@ + dirty_issues_model(
                        *unstaged,
                        *untracked,
                    ) + ". Please stage or stash them, or use --ignore-uncommitted."@);
                }
                m
            },
            MergeError::TargetDirty { path } => {
                let mut m = concat_str("Target worktree (", path.as_str());
                m.append(") has uncommitted changes. Please commit or stash them before merging.");
                proof {
                    assert(m@ =~= "Target worktree ("@ + path@
                        + ") has uncommitted changes. Please commit or stash them before merging."@);
                }
                m
            },
            MergeError::StepFailed { message } => message.clone(),
        }
    }
}

/// The outcome of planning a merge, over the views of the inputs.
pub enum MergeDecision {
    NoSource,
    BadSourceHandle { path: Seq<char> },
    BadTargetHandle,
    SelfMerge { branch: Seq<char> },
    DirtySource { branch: Seq<char>, unstaged: bool, untracked: bool },
    DirtyTarget { path: Seq<char> },
    Go(MergePlanModel),
}

/// The branch a merge targets: the explicit request, or the main branch.
pub open spec fn spec_target_branch(into: Option<Seq<char>>, ctx: ContextModel) -> Seq<char> {
    match into {
        Some(b) => b,
        None => ctx.main_branch,
    }
}

/// Whether the worktree at `path` has uncommitted tracked changes,
/// according to the listing.
pub open spec fn spec_target_dirty(s: Seq<WorktreeModel>, path: Seq<char>) -> bool {
    match first_path_match(s, path, 0) {
        Some(j) => s[j].has_tracked_changes,
        None => false,
    }
}

/// The merge workflow's guarded planning sequence: resolve the source unit,
/// resolve the target, reject a self-merge, reject a dirty source (unless
/// overridden), reject a dirty target, and otherwise emit the plan. The
/// guards run in this order, so the first violated one names the error.
pub open spec fn merge_decision(
    name: Seq<char>,
    into: Option<Seq<char>>,
    ignore_uncommitted: bool,
    rebase: bool,
    squash: bool,
    keep: bool,
    ctx: ContextModel,
    s: Seq<WorktreeModel>,
) -> MergeDecision {
    let target_branch = spec_target_branch(into, ctx);
    match find_worktree_model(s, name) {
        None => MergeDecision::NoSource,
        Some(i) => {
            let src = s[i];
            let handle = spec_basename(src.path);
            if handle.len() == 0 {
                MergeDecision::BadSourceHandle { path: src.path }
            } else {
                match resolve_target_model(target_branch, ctx, s) {
                    None => MergeDecision::BadTargetHandle,
                    Some(t) => {
                        if src.branch == target_branch {
                            MergeDecision::SelfMerge { branch: src.branch }
                        } else if (src.has_unstaged || src.has_untracked) && !ignore_uncommitted {
                            MergeDecision::DirtySource {
                                branch: src.branch,
                                unstaged: src.has_unstaged,
                                untracked: src.has_untracked,
                            }
                        } else if spec_target_dirty(s, t.path) {
                            MergeDecision::DirtyTarget { path: t.path }
                        } else {
                            MergeDecision::Go(
                                MergePlanModel {
                                    source_path: src.path,
                                    branch_to_merge: src.branch,
                                    handle: handle,
                                    target_branch: target_branch,
                                    target_location: t.location,
                                    target_path: t.path,
                                    target_window: t.window,
                                    strategy: strategy_model(rebase, squash),
                                    commit_staged_first: src.has_staged && !ignore_uncommitted,
                                    had_staged_changes: src.has_staged,
                                    keep: keep,
                                    into_given: into is Some,
                                },
                            )
                        }
                    },
                }
            }
        },
    }
}

/// Plans a merge. Planning is pure: a rejection implies no side effect of
/// any kind, and a plan determines every action the driver will perform.
///
/// The target worktree's status is read from the snapshot, so the snapshot
/// should include the main worktree; the version-control tool always lists
/// it.
pub fn plan_merge(
    name: &str,
    into_branch: Option<&str>,
    ignore_uncommitted: bool,
    rebase: bool,
    squash: bool,
    keep: bool,
    context: &WorkflowContext,
    worktrees: &Vec<WorktreeSnapshot>,
) -> (r: Result<MergePlan, MergeError>)
    ensures
        ({
            let d = merge_decision(
                name@,
                into_branch.deep_view(),
                ignore_uncommitted,
                rebase,
                squash,
                keep,
                context@,
                worktrees.deep_view(),
            );
            match r {
                Ok(plan) => d == MergeDecision::Go(plan@),
                Err(e) => match e {
                    MergeError::NoWorktree { name: n } => d is NoSource && n@ == name@,
                    MergeError::InvalidSourceHandle { path } => (d matches
                        MergeDecision::BadSourceHandle { path: p } && path@ == p),
                    MergeError::InvalidTargetHandle => d is BadTargetHandle,
                    MergeError::SelfMerge { branch } => (d matches MergeDecision::SelfMerge {
                        branch: b,
                    } && branch@ == b),
                    MergeError::SourceDirty { branch, unstaged, untracked } => (d matches
                        MergeDecision::DirtySource { branch: b, unstaged: u, untracked: t }
                        && branch@ == b && unstaged == u && untracked == t),
                    MergeError::TargetDirty { path } => (d matches MergeDecision::DirtyTarget {
                        path: p,
                    } && path@ == p),
                    MergeError::StepFailed { .. } => false,
                },
            }
        }),
{
    let ghost s = worktrees.deep_view();
    let target_branch: String = match into_branch {
        Some(b) => b.to_owned(),
        None => context.main_branch.clone(),
    };
    let i = match find_worktree(worktrees, name) {
        Some(i) => i,
        None => {
            return Err(MergeError::NoWorktree { name: name.to_owned() });
        },
    };
    let source_path = worktrees[i].path.clone();
    let branch_to_merge = worktrees[i].branch.clone();
    let handle = path_basename(source_path.as_str());
    if handle.as_str().unicode_len() == 0 {
        return Err(MergeError::InvalidSourceHandle { path: source_path });
    }
    let target = match resolve_target(target_branch.as_str(), context, worktrees) {
        Some(t) => t,
        None => {
            return Err(MergeError::InvalidTargetHandle);
        },
    };
    if str_eq(branch_to_merge.as_str(), target_branch.as_str()) {
        return Err(MergeError::SelfMerge { branch: branch_to_merge });
    }
    if (worktrees[i].has_unstaged || worktrees[i].has_untracked) && !ignore_uncommitted {
        return Err(
            MergeError::SourceDirty {
                branch: branch_to_merge,
                unstaged: worktrees[i].has_unstaged,
                untracked: worktrees[i].has_untracked,
            },
        );
    }
    let target_dirty = match find_by_path(worktrees, target.path.as_str()) {
        Some(j) => worktrees[j].has_tracked_changes,
        None => false,
    };
    if target_dirty {
        return Err(MergeError::TargetDirty { path: target.path });
    }
    let had_staged_changes = worktrees[i].has_staged;
    Ok(
        MergePlan {
            source_path,
            branch_to_merge,
            handle,
            target_branch,
            target_location: target.location,
            target_path: target.path,
            target_window: target.window,
            strategy: if rebase {
                MergeStrategy::Rebase
            } else if squash {
                MergeStrategy::Squash
            } else {
                MergeStrategy::Standard
            },
            commit_staged_first: had_staged_changes && !ignore_uncommitted,
            had_staged_changes,
            keep,
            into_given: into_branch.is_some(),
        },
    )
}

/// One step of a planned merge, for the driver to perform in order.
#[derive(Debug)]
pub enum MergeAction {
    /// Commit the source worktree's staged changes with the user's editor.
    CommitStaged { path: String },
    /// Check the target worktree out on the target branch.
    SwitchTargetBranch { path: String, branch: String },
    /// Rebase the branch checked out at `path` onto `base`.
    RebaseOnto { path: String, base: String },
    /// Merge `branch` into the worktree at `path`.
    MergeBranch { path: String, branch: String },
    /// Squash-merge `branch` into the worktree at `path`, staging but not
    /// committing.
    SquashMergeBranch { path: String, branch: String },
    /// Commit the staged squash result with the user's editor.
    CommitSquashed { path: String },
}

/// The view of a [`MergeAction`].
pub enum MergeActionModel {
    CommitStaged { path: Seq<char> },
    SwitchTargetBranch { path: Seq<char>, branch: Seq<char> },
    RebaseOnto { path: Seq<char>, base: Seq<char> },
    MergeBranch { path: Seq<char>, branch: Seq<char> },
    SquashMergeBranch { path: Seq<char>, branch: Seq<char> },
    CommitSquashed { path: Seq<char> },
}

impl View for MergeAction {
    type V = MergeActionModel;

    open spec fn view(&self) -> MergeActionModel {
        match self {
            MergeAction::CommitStaged { path } => MergeActionModel::CommitStaged { path: path@ },
            MergeAction::SwitchTargetBranch { path, branch } => MergeActionModel::SwitchTargetBranch {
                path: path@,
                branch: branch@,
            },
            MergeAction::RebaseOnto { path, base } => MergeActionModel::RebaseOnto {
                path: path@,
                base: base@,
            },
            MergeAction::MergeBranch { path, branch } => MergeActionModel::MergeBranch {
                path: path@,
                branch: branch@,
            },
            MergeAction::SquashMergeBranch { path, branch } => MergeActionModel::SquashMergeBranch {
                path: path@,
                branch: branch@,
            },
            MergeAction::CommitSquashed { path } => MergeActionModel::CommitSquashed {
                path: path@,
            },
        }
    }
}

impl DeepView for MergeAction {
    type V = MergeActionModel;

    open spec fn deep_view(&self) -> MergeActionModel {
        self.view()
    }
}

/// The ordered actions a plan prescribes: commit staged source changes if
/// so decided, switch the target worktree to the target branch, then run
/// the strategy. The rebase strategy rebases in the source worktree and
/// then merges (now fast-forward) in the target; the squash strategy
/// squash-merges and then commits in the target; the standard strategy
/// merges in the target.
pub open spec fn merge_actions_model(p: MergePlanModel) -> Seq<MergeActionModel> {
    (if p.commit_staged_first {
        seq![MergeActionModel::CommitStaged { path: p.source_path }]
    } else {
        Seq::empty()
    }) + seq![
        MergeActionModel::SwitchTargetBranch { path: p.target_path, branch: p.target_branch },
    ] + (match p.strategy {
        MergeStrategy::Rebase => seq![
            MergeActionModel::RebaseOnto { path: p.source_path, base: p.target_branch },
            MergeActionModel::MergeBranch { path: p.target_path, branch: p.branch_to_merge },
        ],
        MergeStrategy::Squash => seq![
            MergeActionModel::SquashMergeBranch {
                path: p.target_path,
                branch: p.branch_to_merge,
            },
            MergeActionModel::CommitSquashed { path: p.target_path },
        ],
        MergeStrategy::Standard => seq![
            MergeActionModel::MergeBranch { path: p.target_path, branch: p.branch_to_merge },
        ],
    })
}

/// The ordered list of actions that performs `plan`.
pub fn merge_actions(plan: &MergePlan) -> (r: Vec<MergeAction>)
    ensures
        r.deep_view() == merge_actions_model(plan@),
{
    let mut r: Vec<MergeAction> = Vec::new();
    if plan.commit_staged_first {
        r.push(MergeAction::CommitStaged { path: plan.source_path.clone() });
    }
    r.push(
        MergeAction::SwitchTargetBranch {
            path: plan.target_path.clone(),
            branch: plan.target_branch.clone(),
        },
    );
    match plan.strategy {
        MergeStrategy::Rebase => {
            r.push(
                MergeAction::RebaseOnto {
                    path: plan.source_path.clone(),
                    base: plan.target_branch.clone(),
                },
            );
            r.push(
                MergeAction::MergeBranch {
                    path: plan.target_path.clone(),
                    branch: plan.branch_to_merge.clone(),
                },
            );
        },
        MergeStrategy::Squash => {
            r.push(
                MergeAction::SquashMergeBranch {
                    path: plan.target_path.clone(),
                    branch: plan.branch_to_merge.clone(),
                },
            );
            r.push(MergeAction::CommitSquashed { path: plan.target_path.clone() });
        },
        MergeStrategy::Standard => {
            r.push(
                MergeAction::MergeBranch {
                    path: plan.target_path.clone(),
                    branch: plan.branch_to_merge.clone(),
                },
            );
        },
    }
    proof {
        assert(r.deep_view() =~= merge_actions_model(plan@));
    }
    r
}

/// The command that retries the merge after conflicts are resolved.
pub open spec fn retry_command_model(
    branch: Seq<char>,
    target_branch: Seq<char>,
    into_given: bool,
) -> Seq<char> {
    if into_given {
        "workmux merge "@ + branch + " --into "@ + target_branch
    } else {
        "workmux merge "@ + branch
    }
}

/// The uniform conflict message: what happened, that the target worktree
/// was kept clean, where to resolve, and the exact retry command.
pub open spec fn conflict_message_model(
    worktree_path: Seq<char>,
    target_branch: Seq<char>,
    retry: Seq<char>,
) -> Seq<char> {
    "Merge failed due to conflicts. Target worktree kept clean.\n\nTo resolve, update your branch in worktree at "@
        + worktree_path + ":\n  git rebase "@ + target_branch + "  (recommended)\nOr:\n  git merge "@
        + target_branch + "\n\nAfter resolving conflicts, retry: "@ + retry
}

/// The message shown when the rebase strategy conflicts: the rebase is left
/// in place in the source worktree for manual resolution.
pub open spec fn rebase_conflict_message_model(worktree_path: Seq<char>) -> Seq<char> {
    "Rebase failed, likely due to conflicts.\n\nPlease resolve them manually inside the worktree at '"@
        + worktree_path
        + "'.\nThen, run 'git rebase --continue' to proceed or 'git rebase --abort' to cancel."@
}

/// Builds the retry command for a plan.
pub fn retry_command(plan: &MergePlan) -> (r: String)
    ensures
        r@ == retry_command_model(plan@.branch_to_merge, plan@.target_branch, plan@.into_given),
{
    if plan.into_given {
        let a = concat_str("workmux merge ", plan.branch_to_merge.as_str());
        let b = concat_str(a.as_str(), " --into ");
        concat_str(b.as_str(), plan.target_branch.as_str())
    } else {
        concat_str("workmux merge ", plan.branch_to_merge.as_str())
    }
}

/// Builds the uniform conflict message for a plan.
pub fn conflict_message(plan: &MergePlan) -> (r: String)
    ensures
        r@ == conflict_message_model(
            plan@.source_path,
            plan@.target_branch,
            retry_command_model(plan@.branch_to_merge, plan@.target_branch, plan@.into_given),
        ),
{
    let retry = retry_command(plan);
    let mut m = concat_str(
        "Merge failed due to conflicts. Target worktree kept clean.\n\nTo resolve, update your branch in worktree at ",
        plan.source_path.as_str(),
    );
    m.append(":\n  git rebase ");
    m.append(plan.target_branch.as_str());
    m.append("  (recommended)\nOr:\n  git merge ");
    m.append(plan.target_branch.as_str());
    m.append("\n\nAfter resolving conflicts, retry: ");
    m.append(retry.as_str());
    proof {
        assert(m@ =~= conflict_message_model(
            plan@.source_path,
            plan@.target_branch,
            retry_command_model(plan@.branch_to_merge, plan@.target_branch, plan@.into_given),
        ));
    }
    m
}

/// The conflict message always ends with the exact retry command.
pub proof fn lemma_conflict_message_ends_with_retry(
    worktree_path: Seq<char>,
    target_branch: Seq<char>,
    retry: Seq<char>,
)
    ensures
        ({
            let m = conflict_message_model(worktree_path, target_branch, retry);
            m.len() >= retry.len() && m.subrange(m.len() - retry.len(), m.len() as int) =~= retry
        }),
{
}

/// The compensating action that restores the target worktree after a
/// failed strategy step, when one applies.
#[derive(Debug)]
pub enum Compensation {
    /// Hard-reset the worktree at `path`, undoing a partial squash.
    ResetHard { path: String },
    /// Abort the in-progress merge in the worktree at `path`.
    AbortMerge { path: String },
}

/// What the driver must do when one of the planned actions fails: the
/// compensating action to attempt (best effort; its own failure is
/// swallowed because the explanatory message takes priority), and the
/// error to surface.
///
/// Only the two strategy steps that can leave the target worktree
/// conflicted carry a compensation: a failed squash-merge hard-resets the
/// target, and a failed standard merge aborts the in-progress merge. A
/// failed rebase is deliberately left in place in the source worktree,
/// where the user resolves it with the usual rebase commands.
pub fn on_action_failure(plan: &MergePlan, failed: &MergeAction) -> (r: (
    Option<Compensation>,
    MergeError,
))
    ensures
        failed is CommitStaged ==> r.0 is None && (r.1 matches MergeError::StepFailed { message }
            && message@ == "Failed to commit staged changes"@),
        failed is SwitchTargetBranch ==> r.0 is None && (r.1 matches MergeError::StepFailed {
            message,
        } && message@ == "Failed to switch the target worktree to the target branch"@),
        failed is RebaseOnto ==> r.0 is None && (r.1 matches MergeError::StepFailed { message }
            && message@ == rebase_conflict_message_model(plan@.source_path)),
        failed is MergeBranch && plan.strategy is Rebase ==> r.0 is None && (r.1 matches
            MergeError::StepFailed { message } && message@
            == "Failed to merge rebased branch. This should have been a fast-forward."@),
        failed is MergeBranch && !(plan.strategy is Rebase) ==> (r.0 matches Some(
            Compensation::AbortMerge { path },
        ) && path@ == plan@.target_path) && (r.1 matches MergeError::StepFailed { message }
            && message@ == conflict_message_model(
            plan@.source_path,
            plan@.target_branch,
            retry_command_model(plan@.branch_to_merge, plan@.target_branch, plan@.into_given),
        )),
        failed is SquashMergeBranch ==> (r.0 matches Some(Compensation::ResetHard { path })
            && path@ == plan@.target_path) && (r.1 matches MergeError::StepFailed { message }
            && message@ == conflict_message_model(
            plan@.source_path,
            plan@.target_branch,
            retry_command_model(plan@.branch_to_merge, plan@.target_branch, plan@.into_given),
        )),
        failed is CommitSquashed ==> r.0 is None && (r.1 matches MergeError::StepFailed { message }
            && message@
            == "Failed to commit squashed changes. You may need to commit them manually."@),
{
    match failed {
        MergeAction::CommitStaged { .. } => (
            None,
            MergeError::StepFailed { message: "Failed to commit staged changes".to_owned() },
        ),
        MergeAction::SwitchTargetBranch { .. } => (
            None,
            MergeError::StepFailed {
                message: "Failed to switch the target worktree to the target branch".to_owned(),
            },
        ),
        MergeAction::RebaseOnto { .. } => {
            let mut m = concat_str(
                "Rebase failed, likely due to conflicts.\n\nPlease resolve them manually inside the worktree at '",
                plan.source_path.as_str(),
            );
            m.append(
                "'.\nThen, run 'git rebase --continue' to proceed or 'git rebase --abort' to cancel.",
            );
            proof {
                assert(m@ =~= rebase_conflict_message_model(plan@.source_path));
            }
            (None, MergeError::StepFailed { message: m })
        },
        MergeAction::MergeBranch { .. } => {
            match plan.strategy {
                MergeStrategy::Rebase => (
                    None,
                    MergeError::StepFailed {
                        message:
                            "Failed to merge rebased branch. This should have been a fast-forward.".to_owned(),
                    },
                ),
                _ => (
                    Some(Compensation::AbortMerge { path: plan.target_path.clone() }),
                    MergeError::StepFailed { message: conflict_message(plan) },
                ),
            }
        },
        MergeAction::SquashMergeBranch { .. } => (
            Some(Compensation::ResetHard { path: plan.target_path.clone() }),
            MergeError::StepFailed { message: conflict_message(plan) },
        ),
        MergeAction::CommitSquashed { .. } => (
            None,
            MergeError::StepFailed {
                message:
                    "Failed to commit squashed changes. You may need to commit them manually.".to_owned(),
            },
        ),
    }
}

/// What a successful merge invocation reports.
#[derive(Debug)]
pub struct MergeResult {
    /// The branch that was merged.
    pub branch_merged: String,
    /// The branch it was merged into.
    pub target_branch: String,
    /// Staged changes were found (and committed) in the source beforehand.
    pub had_staged_changes: bool,
}

/// The teardown a successful merge prescribes: delete the unit's worktree,
/// window, and branch, then land the session in the target's window.
#[derive(Debug)]
pub struct CleanupDirective {
    /// The merged branch, which is always deleted: merging fulfils it.
    pub branch: String,
    /// The unit's handle, addressing its window.
    pub handle: String,
    /// The worktree to delete.
    pub worktree_path: String,
    /// Deletion proceeds without further safety checks: the merge itself
    /// was the safety gate.
    pub force: bool,
    /// The window the session switches to after the unit's window closes.
    pub target_window: String,
}

/// The result of a merge whose actions all succeeded, and the cleanup to
/// run. Cleanup is skipped exactly when the plan says to keep the unit;
/// otherwise it is unconditional, forced, and deletes the branch.
pub fn merge_success(plan: &MergePlan) -> (r: (MergeResult, Option<CleanupDirective>))
    ensures
        r.0.branch_merged@ == plan@.branch_to_merge,
        r.0.target_branch@ == plan@.target_branch,
        r.0.had_staged_changes == plan@.had_staged_changes,
        plan.keep <==> r.1 is None,
        r.1 matches Some(c) ==> c.branch@ == plan@.branch_to_merge && c.handle@ == plan@.handle
            && c.worktree_path@ == plan@.source_path && c.force == true && c.target_window@
            == plan@.target_window,
{
    let result = MergeResult {
        branch_merged: plan.branch_to_merge.clone(),
        target_branch: plan.target_branch.clone(),
        had_staged_changes: plan.had_staged_changes,
    };
    if plan.keep {
        (result, None)
    } else {
        (
            result,
            Some(
                CleanupDirective {
                    branch: plan.branch_to_merge.clone(),
                    handle: plan.handle.clone(),
                    worktree_path: plan.source_path.clone(),
                    force: true,
                    target_window: plan.target_window.clone(),
                },
            ),
        )
    }
}

/// A merge is never attempted between a branch and itself: whenever the
/// source unit resolves and its branch equals the resolved target branch,
/// planning stops at the self-merge guard, for any combination of explicit
/// and default target and any strategy flags. Planning is pure, so the
/// rejection implies no side effect.
pub proof fn lemma_self_merge_rejected(
    name: Seq<char>,
    into: Option<Seq<char>>,
    ignore_uncommitted: bool,
    rebase: bool,
    squash: bool,
    keep: bool,
    ctx: ContextModel,
    s: Seq<WorktreeModel>,
)
    requires
        find_worktree_model(s, name) matches Some(i) && s[i].branch == spec_target_branch(
            into,
            ctx,
        ) && spec_basename(s[i].path).len() > 0,
        resolve_target_model(spec_target_branch(into, ctx), ctx, s) is Some,
    ensures
        merge_decision(name, into, ignore_uncommitted, rebase, squash, keep, ctx, s)
            == (MergeDecision::SelfMerge {
            branch: s[find_worktree_model(s, name)->Some_0].branch,
        }),
{
}

/// A dirty target stops the merge before any strategy step, for all three
/// strategies alike: when the guards ahead of it pass and the target
/// worktree has uncommitted tracked changes, planning yields the dirty-
/// target rejection no matter which strategy flags were given.
pub proof fn lemma_dirty_target_rejected(
    name: Seq<char>,
    into: Option<Seq<char>>,
    ignore_uncommitted: bool,
    keep: bool,
    ctx: ContextModel,
    s: Seq<WorktreeModel>,
)
    requires
        find_worktree_model(s, name) matches Some(i) && spec_basename(s[i].path).len() > 0
            && s[i].branch != spec_target_branch(into, ctx) && !((s[i].has_unstaged
            || s[i].has_untracked) && !ignore_uncommitted),
        resolve_target_model(spec_target_branch(into, ctx), ctx, s) matches Some(t)
            && spec_target_dirty(s, t.path),
    ensures
        forall|rebase: bool, squash: bool|
            merge_decision(name, into, ignore_uncommitted, rebase, squash, keep, ctx, s)
                == (MergeDecision::DirtyTarget {
                path: resolve_target_model(spec_target_branch(into, ctx), ctx, s)->Some_0.path,
            }),
{
}

} // verus!
