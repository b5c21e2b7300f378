//! The open workflow: reattach a session window to an already-existing
//! worktree. It never creates a worktree, and it never silently re-attaches
//! to a window that already exists.

use vstd::prelude::*;

use crate::strutil::{concat_str, path_basename, spec_basename, vec_contains_str};
use crate::units::{
    first_branch_match, ContextModel, WorkflowContext, WorktreeModel, WorktreeSnapshot,
};

verus! {

broadcast use vstd::string::group_string_axioms;

/// Why an open invocation was rejected.
#[derive(Debug)]
pub enum OpenError {
    /// No worktree exists for the branch; creating one is another
    /// workflow's job.
    NoWorktree { branch: String },
    /// The worktree's directory name is empty and cannot serve as a handle.
    InvalidHandle { path: String },
    /// A session window for the unit already exists.
    WindowExists { window: String },
}

impl OpenError {
    /// The human-readable message for this rejection, naming the remedy.
    pub fn message(&self) -> (r: String)
        ensures
            *self matches OpenError::NoWorktree { branch } ==> r@
                == "No worktree found for branch '"@ + branch@ + "'. Use 'workmux add "@ + branch@
                + "' to create it."@,
            *self matches OpenError::InvalidHandle { path } ==> r@
                == "Invalid worktree path: no directory name"@,
            *self matches OpenError::WindowExists { window } ==> r@
                == "A tmux window named '"@ + window@
                + "' already exists. To switch to it, run: tmux select-window -t '"@ + window@
                + "'"@,
    {
        match self {
            OpenError::NoWorktree { branch } => {
                let mut m = concat_str("No worktree found for branch '", branch.as_str());
                m.append("'. Use 'workmux add ");
                m.append(branch.as_str());
                m.append("' to create it.");
                proof {
                    assert(m@ =~= "No worktree found for branch '"@ + branch@
                        + "'. Use 'workmux add "@ + branch@ + "' to create it."@);
                }
                m
            },
            OpenError::InvalidHandle { .. } => {
                "Invalid worktree path: no directory name".to_owned()
            },
            OpenError::WindowExists { window } => {
                let mut m = concat_str("A tmux window named '", window.as_str());
                m.append("' already exists. To switch to it, run: tmux select-window -t '");
                m.append(window.as_str());
                m.append("'");
                proof {
                    assert(m@ =~= "A tmux window named '"@ + window@
                        + "' already exists. To switch to it, run: tmux select-window -t '"@
                        + window@ + "'"@);
                }
                m
            },
        }
    }
}

/// What the driver needs to reattach a unit: the worktree, the handle
/// derived from its directory name (robust to configuration changes made
/// after creation), and the window to create.
#[derive(Debug)]
pub struct OpenPlan {
    pub branch_name: String,
    pub worktree_path: String,
    pub handle: String,
    pub window: String,
}

/// The view of an [`OpenPlan`].
pub struct OpenPlanModel {
    pub branch_name: Seq<char>,
    pub worktree_path: Seq<char>,
    pub handle: Seq<char>,
    pub window: Seq<char>,
}

impl View for OpenPlan {
    type V = OpenPlanModel;

    open spec fn view(&self) -> OpenPlanModel {
        OpenPlanModel {
            branch_name: self.branch_name@,
            worktree_path: self.worktree_path@,
            handle: self.handle@,
            window: self.window@,
        }
    }
}

/// The outcome the open workflow decides, over the views of the inputs.
pub enum OpenDecision {
    NoWorktree,
    BadHandle { path: Seq<char> },
    WindowExists { window: Seq<char> },
    Go(OpenPlanModel),
}

/// The open workflow's decision: the worktree for the branch must already
/// exist; the handle is its directory name; the prefixed window must not
/// already exist among the session's windows.
pub open spec fn open_decision(
    branch: Seq<char>,
    ctx: ContextModel,
    s: Seq<WorktreeModel>,
    windows: Seq<Seq<char>>,
) -> OpenDecision {
    match first_branch_match(s, branch, 0) {
        None => OpenDecision::NoWorktree,
        Some(i) => {
            let path = s[i].path;
            let handle = spec_basename(path);
            if handle.len() == 0 {
                OpenDecision::BadHandle { path }
            } else {
                let window = ctx.prefix + handle;
                if windows.contains(window) {
                    OpenDecision::WindowExists { window }
                } else {
                    OpenDecision::Go(
                        OpenPlanModel {
                            branch_name: branch,
                            worktree_path: path,
                            handle,
                            window,
                        },
                    )
                }
            }
        },
    }
}

/// Opens a session window for an existing worktree: resolves the worktree
/// by branch, derives the handle from its directory name, and fails if the
/// prefixed window already exists among `windows`, the session's current
/// window names. Environment setup is the driver's to perform from the
/// returned plan.
pub fn open(
    branch_name: &str,
    context: &WorkflowContext,
    worktrees: &Vec<WorktreeSnapshot>,
    windows: &Vec<String>,
) -> (r: Result<OpenPlan, OpenError>)
    ensures
        ({
            let d = open_decision(branch_name@, context@, worktrees.deep_view(), windows.deep_view());
            match r {
                Ok(plan) => d == OpenDecision::Go(plan@),
                Err(e) => match e {
                    OpenError::NoWorktree { branch } => d is NoWorktree && branch@ == branch_name@,
                    OpenError::InvalidHandle { path } => (d matches OpenDecision::BadHandle {
                        path: p,
                    } && path@ == p),
                    OpenError::WindowExists { window } => (d matches OpenDecision::WindowExists {
                        window: w,
                    } && window@ == w),
                },
            }
        }),
{
    let ghost s = worktrees.deep_view();
    let n = worktrees.len();
    let mut i: usize = 0;
    let idx: usize;
    loop
        invariant_except_break
            0 <= i <= n,
            n == worktrees@.len(),
            s == worktrees.deep_view(),
            first_branch_match(s, branch_name@, 0) == first_branch_match(s, branch_name@, i as int),
        ensures
            first_branch_match(s, branch_name@, 0) == Some(idx as int) && idx < n,
        decreases n - i,
    {
        if i >= n {
            return Err(OpenError::NoWorktree { branch: branch_name.to_owned() });
        }
        if crate::strutil::str_eq(worktrees[i].branch.as_str(), branch_name) {
            idx = i;
            break;
        }
        i = i + 1;
    }
    let worktree_path = worktrees[idx].path.clone();
    let handle = path_basename(worktree_path.as_str());
    if handle.as_str().unicode_len() == 0 {
        return Err(OpenError::InvalidHandle { path: worktree_path });
    }
    let window = concat_str(context.prefix.as_str(), handle.as_str());
    if vec_contains_str(windows, window.as_str()) {
        return Err(OpenError::WindowExists { window });
    }
    Ok(
        OpenPlan {
            branch_name: branch_name.to_owned(),
            worktree_path,
            handle,
            window,
        },
    )
}

} // verus!
