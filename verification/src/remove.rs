//! The removal workflow: safe teardown of a unit (worktree, window, and
//! optionally branch) behind a two-stage safety check, and the batch mode
//! that removes every unit whose upstream branch is gone.
//!
//! The single-unit safety check is the state machine
//! `Start -> CheckUncommitted -> { Abort | CheckUnmerged } ->
//! { NotNeeded -> Proceed | PromptUser -> { Confirmed -> Proceed | Aborted
//! -> NoOp } }`: uncommitted changes are an unconditional blocker checked
//! first; unmerged commits merely require the user's confirmation. The
//! force flag bypasses both checks.

use vstd::prelude::*;

use crate::strutil::{concat_str, spec_basename, str_eq, vec_contains_str};
use crate::units::WorktreeModel;
use crate::units::WorktreeSnapshot;

verus! {

broadcast use vstd::string::group_string_axioms;

/// Why a removal was rejected.
#[derive(Debug)]
pub enum RemoveError {
    /// No worktree matches the given name.
    NoWorktree { name: String },
    /// The worktree's directory name is empty and cannot serve as a handle.
    InvalidHandle,
    /// The worktree has uncommitted changes and the force flag was not
    /// given.
    UncommittedChanges,
    /// Neither the recorded base nor the default branch yielded a merge
    /// base for the unmerged-commits check.
    NoMergeBase { base: String },
}

impl RemoveError {
    /// The human-readable message for this rejection.
    pub fn message(&self) -> (r: String)
        ensures
            *self matches RemoveError::NoWorktree { name } ==> r@
                == "No worktree found with name '"@ + name@ + "'"@,
            *self is InvalidHandle ==> r@ == "Could not derive handle from worktree path"@,
            *self is UncommittedChanges ==> r@
                == "Worktree has uncommitted changes. Use --force to delete anyway."@,
            *self matches RemoveError::NoMergeBase { base } ==> r@
                == "Failed to get merge base for '"@ + base@ + "'"@,
    {
        match self {
            RemoveError::NoWorktree { name } => {
                let mut m = concat_str("No worktree found with name '", name.as_str());
                m.append("'");
                proof {
                    assert(m@ =~= "No worktree found with name '"@ + name@ + "'"@);
                }
                m
            },
            RemoveError::InvalidHandle => "Could not derive handle from worktree path".to_owned(),
            RemoveError::UncommittedChanges => {
                "Worktree has uncommitted changes. Use --force to delete anyway.".to_owned()
            },
            RemoveError::NoMergeBase { base } => {
                let mut m = concat_str("Failed to get merge base for '", base.as_str());
                m.append("'");
                proof {
                    assert(m@ =~= "Failed to get merge base for '"@ + base@ + "'"@);
                }
                m
            },
        }
    }
}

/// Resolves the unit a removal names: the worktree found by handle or
/// branch, and the handle taken from its directory name (never from the
/// user's input). This is the entry stage of the single-unit removal.
pub fn resolve_unit(input_name: &str, worktrees: &Vec<WorktreeSnapshot>) -> (r: Result<
    (usize, String),
    RemoveError,
>)
    ensures
        ({
            let found = crate::units::find_worktree_model(worktrees.deep_view(), input_name@);
            match r {
                Ok((i, handle)) => found == Some(i as int) && i < worktrees@.len() && handle@
                    == spec_basename(worktrees.deep_view()[i as int].path) && handle@.len() > 0,
                Err(RemoveError::NoWorktree { name }) => found is None && name@ == input_name@,
                Err(RemoveError::InvalidHandle) => (found matches Some(i) && spec_basename(
                    worktrees.deep_view()[i].path,
                ).len() == 0),
                Err(_) => false,
            }
        }),
{
    let i = match crate::units::find_worktree(worktrees, input_name) {
        Some(i) => i,
        None => {
            return Err(RemoveError::NoWorktree { name: input_name.to_owned() });
        },
    };
    let handle = crate::strutil::path_basename(worktrees[i].path.as_str());
    if handle.as_str().unicode_len() == 0 {
        return Err(RemoveError::InvalidHandle);
    }
    Ok((i, handle))
}

/// The terminal decision of the removal safety check.
#[derive(Debug)]
pub enum SafetyDecision {
    /// Deletion may proceed, with the given force flag handed to the
    /// deletion step.
    Proceed { force: bool },
    /// The branch has commits not merged into the resolved base; the user
    /// must confirm. The fields name exactly what the prompt must say.
    NeedsConfirmation { handle: String, branch: String, base_branch: String, base: String },
}

/// The facts the unmerged-commits stage consumes, gathered by the driver
/// after the unit is resolved: the merge base of the recorded base branch
/// (when it resolved), the merge base of the default branch as a fallback,
/// and whether the unit's branch has commits unmerged relative to the
/// resolved base.
#[derive(Debug)]
pub struct UnmergedFacts {
    /// The base recorded for the branch at unit creation, or the default
    /// branch when none was recorded. Named in the prompt.
    pub base: String,
    /// The merge base computed from `base`, when that resolved.
    pub merge_base: Option<String>,
    /// The merge base computed from the default branch, the fallback when
    /// `base` no longer resolves.
    pub fallback_merge_base: Option<String>,
    /// The unit's branch is among the branches not merged into the
    /// resolved merge base.
    pub has_unmerged: bool,
}

/// Validates whether it is safe to remove a unit's worktree and branch.
///
/// The force flag bypasses both checks and never asks for confirmation.
/// Otherwise uncommitted changes block unconditionally; then, only when
/// the branch is to be deleted, unmerged commits require confirmation,
/// computed against the recorded base with a fallback to the default
/// branch. `used_fallback` in the result tells the driver to warn that the
/// recorded base no longer resolves.
pub fn validate_removal_safety(
    handle: &str,
    branch_name: &str,
    force: bool,
    keep_branch: bool,
    worktree_exists: bool,
    has_uncommitted: bool,
    facts: &UnmergedFacts,
) -> (r: Result<(SafetyDecision, bool), RemoveError>)
    ensures
        force ==> (r matches Ok((SafetyDecision::Proceed { force: f }, used)) && f == true
            && used == false),
        !(r matches Ok((SafetyDecision::NeedsConfirmation { .. }, _))) || !force,
        !force && worktree_exists && has_uncommitted ==> (r matches Err(
            RemoveError::UncommittedChanges,
        )),
        !force && !(worktree_exists && has_uncommitted) && keep_branch ==> (r matches Ok(
            (SafetyDecision::Proceed { force: f }, used),
        ) && f == false && used == false),
        !force && !(worktree_exists && has_uncommitted) && !keep_branch ==> ({
            match (facts.merge_base, facts.fallback_merge_base) {
                (Some(mb), _) => ({
                    if facts.has_unmerged {
                        r matches Ok((SafetyDecision::NeedsConfirmation {
                            handle: h,
                            branch: b,
                            base_branch: bb,
                            base: ba,
                        }, used)) && h@ == handle@ && b@ == branch_name@ && bb@ == mb@ && ba@
                            == facts.base@ && used == false
                    } else {
                        r matches Ok((SafetyDecision::Proceed { force: f }, used)) && f == false
                            && used == false
                    }
                }),
                (None, Some(fb)) => ({
                    if facts.has_unmerged {
                        r matches Ok((SafetyDecision::NeedsConfirmation {
                            handle: h,
                            branch: b,
                            base_branch: bb,
                            base: ba,
                        }, used)) && h@ == handle@ && b@ == branch_name@ && bb@ == fb@ && ba@
                            == facts.base@ && used == true
                    } else {
                        r matches Ok((SafetyDecision::Proceed { force: f }, used)) && f == false
                            && used == true
                    }
                }),
                (None, None) => (r matches Err(RemoveError::NoMergeBase { base }) && base@
                    == facts.base@),
            }
        }),
{
    if force {
        return Ok((SafetyDecision::Proceed { force: true }, false));
    }
    if worktree_exists && has_uncommitted {
        return Err(RemoveError::UncommittedChanges);
    }
    if keep_branch {
        return Ok((SafetyDecision::Proceed { force: false }, false));
    }
    let (base_branch, used_fallback): (String, bool) = match (&facts.merge_base) {
        Some(mb) => (mb.clone(), false),
        None => {
            match (&facts.fallback_merge_base) {
                Some(fb) => (fb.clone(), true),
                None => {
                    return Err(RemoveError::NoMergeBase { base: facts.base.clone() });
                },
            }
        },
    };
    if facts.has_unmerged {
        Ok(
            (
                SafetyDecision::NeedsConfirmation {
                    handle: handle.to_owned(),
                    branch: branch_name.to_owned(),
                    base_branch,
                    base: facts.base.clone(),
                },
                used_fallback,
            ),
        )
    } else {
        Ok((SafetyDecision::Proceed { force: false }, used_fallback))
    }
}

/// The confirmation prompt for deleting a branch with unmerged commits: it
/// names the worktree, the branch, the resolved base, and the recorded
/// base, and states that the action cannot be undone.
pub open spec fn confirmation_prompt_model(
    handle: Seq<char>,
    branch: Seq<char>,
    base_branch: Seq<char>,
    base: Seq<char>,
) -> Seq<char> {
    "This will delete the worktree '"@ + handle + "', tmux window, and local branch '"@ + branch
        + "'.\nWarning: Branch '"@ + branch + "' has commits that are not merged into '"@
        + base_branch + "' (base: '"@ + base
        + "').\nThis action cannot be undone.\nAre you sure you want to continue? [y/N] "@
}

/// Builds the confirmation prompt for a decision that needs one. For a
/// decision that may proceed, there is nothing to ask.
pub fn confirmation_prompt(decision: &SafetyDecision) -> (r: Option<String>)
    ensures
        decision matches SafetyDecision::NeedsConfirmation { handle, branch, base_branch, base }
            ==> r matches Some(p) && p@ == confirmation_prompt_model(
            handle@,
            branch@,
            base_branch@,
            base@,
        ),
        decision is Proceed ==> r is None,
{
    match decision {
        SafetyDecision::Proceed { .. } => None,
        SafetyDecision::NeedsConfirmation { handle, branch, base_branch, base } => {
            let mut m = concat_str("This will delete the worktree '", handle.as_str());
            m.append("', tmux window, and local branch '");
            m.append(branch.as_str());
            m.append("'.\nWarning: Branch '");
            m.append(branch.as_str());
            m.append("' has commits that are not merged into '");
            m.append(base_branch.as_str());
            m.append("' (base: '");
            m.append(base.as_str());
            m.append("').\nThis action cannot be undone.\nAre you sure you want to continue? [y/N] ");
            proof {
                assert(m@ =~= confirmation_prompt_model(handle@, branch@, base_branch@, base@));
            }
            Some(m)
        },
    }
}

/// `s` with its leading whitespace removed.
pub open spec fn spec_trim_start(s: Seq<char>) -> Seq<char>
    decreases s.len(),
{
    if s.len() == 0 {
        s
    } else if crate::naming::is_unicode_space(s[0]) {
        spec_trim_start(s.drop_first())
    } else {
        s
    }
}

/// `s` with its trailing whitespace removed.
pub open spec fn spec_trim_end(s: Seq<char>) -> Seq<char>
    decreases s.len(),
{
    if s.len() == 0 {
        s
    } else if crate::naming::is_unicode_space(s[s.len() - 1]) {
        spec_trim_end(s.drop_last())
    } else {
        s
    }
}

/// `s` with whitespace removed from both ends.
pub open spec fn spec_trim(s: Seq<char>) -> Seq<char> {
    spec_trim_end(spec_trim_start(s))
}

/// When every character before `a` is whitespace and `a` is not past a
/// non-whitespace character, trimming the start keeps exactly the suffix
/// from `a`.
proof fn lemma_trim_start_at(s: Seq<char>, a: int)
    requires
        0 <= a <= s.len(),
        forall|j: int| 0 <= j < a ==> crate::naming::is_unicode_space(#[trigger] s[j]),
        a == s.len() || !crate::naming::is_unicode_space(s[a]),
    ensures
        spec_trim_start(s) =~= s.subrange(a, s.len() as int),
    decreases a,
{
    if a > 0 {
        assert(s.drop_first() =~= s.subrange(1, s.len() as int));
        lemma_trim_start_at(s.drop_first(), a - 1);
        assert(s.drop_first().subrange(a - 1, s.drop_first().len() as int) =~= s.subrange(
            a,
            s.len() as int,
        ));
    }
}

/// When every character after `b` is whitespace and `b` is not before a
/// non-whitespace character, trimming the end keeps exactly the prefix
/// through `b`.
proof fn lemma_trim_end_at(s: Seq<char>, b: int)
    requires
        -1 <= b < s.len(),
        forall|j: int| b < j < s.len() ==> crate::naming::is_unicode_space(#[trigger] s[j]),
        b == -1 || !crate::naming::is_unicode_space(s[b]),
    ensures
        spec_trim_end(s) =~= s.subrange(0, b + 1),
    decreases s.len(),
{
    if b + 1 < s.len() {
        assert(s.drop_last() =~= s.subrange(0, s.len() - 1));
        lemma_trim_end_at(s.drop_last(), b);
        assert(s.drop_last().subrange(0, b + 1) =~= s.subrange(0, b + 1));
    }
}

/// Interprets the user's answer to a confirmation prompt: affirmative
/// exactly when, with surrounding whitespace removed, it is a single `y`
/// of either case.
#[verifier::loop_isolation(false)]
pub fn parse_confirmation(answer: &str) -> (r: bool)
    ensures
        r == (spec_trim(answer@) == "y"@ || spec_trim(answer@) == "Y"@),
{
    proof {
        reveal_strlit("y");
        reveal_strlit("Y");
    }
    let n = answer.unicode_len();
    let mut a: usize = 0;
    while a < n
        invariant
            0 <= a <= n,
            forall|j: int| 0 <= j < a ==> crate::naming::is_unicode_space(#[trigger] answer@[j]),
        decreases n - a,
    {
        if !crate::naming::char_is_whitespace(answer.get_char(a)) {
            break;
        }
        a = a + 1;
    }
    proof {
        lemma_trim_start_at(answer@, a as int);
    }
    if a == n {
        // All whitespace: the trimmed answer is empty.
        proof {
            lemma_trim_end_at(answer@.subrange(a as int, n as int), -1);
        }
        return false;
    }
    let mut b: usize = n - 1;
    while b > a
        invariant
            a <= b < n,
            forall|j: int| b < j < n ==> crate::naming::is_unicode_space(#[trigger] answer@[j]),
        decreases b,
    {
        if !crate::naming::char_is_whitespace(answer.get_char(b)) {
            break;
        }
        b = b - 1;
    }
    proof {
        assert(answer@.subrange(a as int, n as int)[b - a] == answer@[b as int]);
        lemma_trim_end_at(answer@.subrange(a as int, n as int), b - a);
        assert(answer@.subrange(a as int, n as int).subrange(0, b - a + 1) =~= answer@.subrange(
            a as int,
            b + 1,
        ));
    }
    let trimmed = answer.substring_char(a, b + 1);
    str_eq(trimmed, "y") || str_eq(trimmed, "Y")
}

/// The user's answer to the confirmation prompt, mapped to the state
/// machine's outcome: an affirmative answer proceeds with the force flag
/// set (the checks were seen and overridden); anything else is a clean
/// no-op.
pub fn apply_confirmation(confirmed: bool) -> (r: Option<bool>)
    ensures
        confirmed ==> r == Some(true),
        !confirmed ==> r is None,
{
    if confirmed {
        Some(true)
    } else {
        None
    }
}

/// One unit the gone-branch batch will remove.
#[derive(Debug)]
pub struct GoneCandidate {
    pub path: String,
    pub branch: String,
    pub handle: String,
}

/// The view of a [`GoneCandidate`].
pub struct GoneCandidateModel {
    pub path: Seq<char>,
    pub branch: Seq<char>,
    pub handle: Seq<char>,
}

impl View for GoneCandidate {
    type V = GoneCandidateModel;

    open spec fn view(&self) -> GoneCandidateModel {
        GoneCandidateModel { path: self.path@, branch: self.branch@, handle: self.handle@ }
    }
}

impl DeepView for GoneCandidate {
    type V = GoneCandidateModel;

    open spec fn deep_view(&self) -> GoneCandidateModel {
        self.view()
    }
}

/// A listed worktree is a candidate for gone-branch removal when it is not
/// the main branch, not detached, not the main worktree itself, and its
/// upstream is gone.
pub open spec fn gone_eligible(
    w: WorktreeModel,
    main_branch: Seq<char>,
    main_root: Seq<char>,
    gone: Seq<Seq<char>>,
) -> bool {
    &&& w.branch != main_branch
    &&& w.branch != "(detached)"@
    &&& w.path != main_root
    &&& gone.contains(w.branch)
}

/// The handle a gone candidate is removed under: the worktree's directory
/// name, or the branch name when the directory name is empty.
pub open spec fn gone_handle(w: WorktreeModel) -> Seq<char> {
    if spec_basename(w.path).len() > 0 {
        spec_basename(w.path)
    } else {
        w.branch
    }
}

/// The gone-branch selection over a listing: the units to remove, in
/// listing order, and the branches skipped because they still hold
/// uncommitted changes (reported, never silently dropped). The force flag
/// removes even dirty units.
pub open spec fn gone_selection(
    s: Seq<WorktreeModel>,
    main_branch: Seq<char>,
    main_root: Seq<char>,
    gone: Seq<Seq<char>>,
    force: bool,
) -> (Seq<GoneCandidateModel>, Seq<Seq<char>>)
    decreases s.len(),
{
    if s.len() == 0 {
        (Seq::empty(), Seq::empty())
    } else {
        let (rest_remove, rest_skip) = gone_selection(
            s.drop_last(),
            main_branch,
            main_root,
            gone,
            force,
        );
        let w = s.last();
        if !gone_eligible(w, main_branch, main_root, gone) {
            (rest_remove, rest_skip)
        } else if !force && w.exists && w.has_uncommitted {
            (rest_remove, rest_skip.push(w.branch))
        } else {
            (
                rest_remove.push(
                    GoneCandidateModel { path: w.path, branch: w.branch, handle: gone_handle(w) },
                ),
                rest_skip,
            )
        }
    }
}

/// Selects the units whose upstream is gone: excludes the main branch, the
/// main worktree, and detached-HEAD units; skips (with a report) units
/// with uncommitted changes unless forced.
#[verifier::loop_isolation(false)]
pub fn select_gone_candidates(
    worktrees: &Vec<WorktreeSnapshot>,
    main_branch: &str,
    main_worktree_root: &str,
    gone_branches: &Vec<String>,
    force: bool,
) -> (r: (Vec<GoneCandidate>, Vec<String>))
    ensures
        (r.0.deep_view(), r.1.deep_view()) == gone_selection(
            worktrees.deep_view(),
            main_branch@,
            main_worktree_root@,
            gone_branches.deep_view(),
            force,
        ),
{
    let ghost s = worktrees.deep_view();
    let ghost gone = gone_branches.deep_view();
    let mut to_remove: Vec<GoneCandidate> = Vec::new();
    let mut skipped: Vec<String> = Vec::new();
    let n = worktrees.len();
    let mut i: usize = 0;
    while i < n
        invariant
            0 <= i <= n,
            (to_remove.deep_view(), skipped.deep_view()) == gone_selection(
                s.take(i as int),
                main_branch@,
                main_worktree_root@,
                gone,
                force,
            ),
        decreases n - i,
    {
        let w = &worktrees[i];
        proof {
            assert(s.take(i + 1).drop_last() =~= s.take(i as int));
            assert(s.take(i + 1).last() == s[i as int]);
        }
        let eligible = !str_eq(w.branch.as_str(), main_branch) && !str_eq(
            w.branch.as_str(),
            "(detached)",
        ) && !str_eq(w.path.as_str(), main_worktree_root) && vec_contains_str(
            gone_branches,
            w.branch.as_str(),
        );
        if eligible {
            if !force && w.exists && w.has_uncommitted {
                skipped.push(w.branch.clone());
            } else {
                let base = crate::strutil::path_basename(w.path.as_str());
                let handle = if base.as_str().unicode_len() > 0 {
                    base
                } else {
                    w.branch.clone()
                };
                to_remove.push(
                    GoneCandidate { path: w.path.clone(), branch: w.branch.clone(), handle },
                );
            }
        }
        i = i + 1;
    }
    proof {
        assert(s.take(n as int) =~= s);
    }
    (to_remove, skipped)
}

/// The gone-branch candidate set never includes the main branch, a
/// detached-HEAD unit, the main worktree, or a branch whose upstream is
/// not gone, for any worktree listing.
pub proof fn lemma_gone_excludes_protected(
    s: Seq<WorktreeModel>,
    main_branch: Seq<char>,
    main_root: Seq<char>,
    gone: Seq<Seq<char>>,
    force: bool,
)
    ensures
        forall|j: int|
            0 <= j < gone_selection(s, main_branch, main_root, gone, force).0.len() ==> {
                let c = #[trigger] gone_selection(s, main_branch, main_root, gone, force).0[j];
                c.branch != main_branch && c.branch != "(detached)"@ && c.path != main_root
                    && gone.contains(c.branch)
            },
    decreases s.len(),
{
    if s.len() > 0 {
        lemma_gone_excludes_protected(s.drop_last(), main_branch, main_root, gone, force);
        let rest = gone_selection(s.drop_last(), main_branch, main_root, gone, force).0;
        let cur = gone_selection(s, main_branch, main_root, gone, force).0;
        let w = s.last();
        if gone_eligible(w, main_branch, main_root, gone) && !(!force && w.exists
            && w.has_uncommitted) {
            assert(cur == rest.push(
                GoneCandidateModel { path: w.path, branch: w.branch, handle: gone_handle(w) },
            ));
            assert forall|j: int| 0 <= j < cur.len() implies {
                let c = #[trigger] cur[j];
                c.branch != main_branch && c.branch != "(detached)"@ && c.path != main_root
                    && gone.contains(c.branch)
            } by {
                if j < rest.len() {
                    assert(cur[j] == rest[j]);
                } else {
                    assert(cur[j].branch == w.branch && cur[j].path == w.path);
                }
            }
        } else {
            assert(cur == rest);
        }
    }
}

} // verus!
