//! Pull-request and fork-branch resolution: translating a user-supplied
//! token (`owner:branch` fork syntax, `remote/branch`, or a plain local
//! branch) into a concrete remote branch reference and a base name for
//! downstream naming, and deciding a pull request's checkout branches.
//!
//! No fetching happens here: fetching is deferred to the creation workflow
//! so failures surface where the user expects a network operation. Where a
//! fork remote must exist, the decision names the owner and the driver
//! ensures the remote before asking for the reference.

use vstd::prelude::*;

use crate::strutil::{
    concat_str, find_char_spec, spec_first_index, spec_starts_with, starts_with_str, str_eq,
};

verus! {

broadcast use vstd::string::group_string_axioms;

/// A branch of another owner's fork, written `owner:branch`.
#[derive(Debug)]
pub struct ForkBranchSpec {
    pub owner: String,
    pub branch: String,
}

/// A branch of a configured remote, written `remote/branch`.
#[derive(Debug)]
pub struct RemoteBranchSpec {
    pub remote: String,
    pub branch: String,
}

/// The `owner:branch` split of a token: the parts around the first colon,
/// when both are non-empty.
pub open spec fn fork_split_model(s: Seq<char>) -> Option<(Seq<char>, Seq<char>)> {
    match spec_first_index(s, ':', 0) {
        Some(i) => {
            if 0 < i && i + 1 < s.len() {
                Some((s.subrange(0, i), s.subrange(i + 1, s.len() as int)))
            } else {
                None
            }
        },
        None => None,
    }
}

/// The `remote/branch` split of a token: the parts around the first slash,
/// when both are non-empty.
pub open spec fn remote_split_model(s: Seq<char>) -> Option<(Seq<char>, Seq<char>)> {
    match spec_first_index(s, '/', 0) {
        Some(i) => {
            if 0 < i && i + 1 < s.len() {
                Some((s.subrange(0, i), s.subrange(i + 1, s.len() as int)))
            } else {
                None
            }
        },
        None => None,
    }
}

/// Parses `owner:branch` fork syntax: the first colon splits the token,
/// and both sides must be non-empty.
pub fn parse_fork_branch_spec(branch_name: &str) -> (r: Option<ForkBranchSpec>)
    ensures
        match r {
            Some(f) => fork_split_model(branch_name@) == Some((f.owner@, f.branch@)),
            None => fork_split_model(branch_name@) is None,
        },
{
    let n = branch_name.unicode_len();
    match find_char_spec(branch_name, ':') {
        Some(i) => {
            if 0 < i && i + 1 < n {
                Some(
                    ForkBranchSpec {
                        owner: branch_name.substring_char(0, i).to_owned(),
                        branch: branch_name.substring_char(i + 1, n).to_owned(),
                    },
                )
            } else {
                None
            }
        },
        None => None,
    }
}

/// Parses `remote/branch`: the first slash splits the token, and both
/// sides must be non-empty.
pub fn parse_remote_branch_spec(branch_name: &str) -> (r: Option<RemoteBranchSpec>)
    ensures
        match r {
            Some(f) => remote_split_model(branch_name@) == Some((f.remote@, f.branch@)),
            None => remote_split_model(branch_name@) is None,
        },
{
    let n = branch_name.unicode_len();
    match find_char_spec(branch_name, '/') {
        Some(i) => {
            if 0 < i && i + 1 < n {
                Some(
                    RemoteBranchSpec {
                        remote: branch_name.substring_char(0, i).to_owned(),
                        branch: branch_name.substring_char(i + 1, n).to_owned(),
                    },
                )
            } else {
                None
            }
        },
        None => None,
    }
}

/// The first configured remote, from `i` on, that prefixes `name` as
/// `remote/`.
pub open spec fn first_remote_prefix(
    remotes: Seq<Seq<char>>,
    name: Seq<char>,
    i: int,
) -> Option<int>
    decreases remotes.len() - i,
{
    if i < 0 || i >= remotes.len() {
        None
    } else if spec_starts_with(name, remotes[i] + "/"@) {
        Some(i)
    } else {
        first_remote_prefix(remotes, name, i + 1)
    }
}

/// Why a remote-branch token was rejected.
#[derive(Debug)]
pub enum PrError {
    /// `--base` conflicts with fork syntax: the fork branch is the base.
    BaseWithFork { owner: String, branch: String },
    /// `--base` conflicts with a remote branch reference.
    BaseWithRemote { branch_name: String },
    /// The token matched a remote prefix but does not split as
    /// `remote/branch`.
    InvalidRemoteFormat,
    /// The token's first component is not the remote that matched it.
    MismatchedRemote,
}

impl PrError {
    /// The human-readable message for this rejection, naming the
    /// conflicting inputs.
    pub fn message(&self) -> (r: String)
        ensures
            *self matches PrError::BaseWithFork { owner, branch } ==> r@
                == "Cannot use --base with 'owner:branch' syntax. The branch '"@ + branch@
                + "' from '"@ + owner@ + "' will be used as the base."@,
            *self matches PrError::BaseWithRemote { branch_name } ==> r@
                == "Cannot use --base with a remote branch reference. The remote branch '"@
                + branch_name@ + "' will be used as the base."@,
            *self is InvalidRemoteFormat ==> r@
                == "Invalid remote branch format. Use <remote>/<branch>"@,
            *self is MismatchedRemote ==> r@ == "Mismatched remote detection"@,
    {
        match self {
            PrError::BaseWithFork { owner, branch } => {
                let mut m = concat_str(
                    "Cannot use --base with 'owner:branch' syntax. The branch '",
                    branch.as_str(),
                );
                m.append("' from '");
                m.append(owner.as_str());
                m.append("' will be used as the base.");
                proof {
                    assert(m@ =~= "Cannot use --base with 'owner:branch' syntax. The branch '"@
                        + branch@ + "' from '"@ + owner@ + "' will be used as the base."@);
                }
                m
            },
            PrError::BaseWithRemote { branch_name } => {
                let mut m = concat_str(
                    "Cannot use --base with a remote branch reference. The remote branch '",
                    branch_name.as_str(),
                );
                m.append("' will be used as the base.");
                proof {
                    assert(m@
                        =~= "Cannot use --base with a remote branch reference. The remote branch '"@
                        + branch_name@ + "' will be used as the base."@);
                }
                m
            },
            PrError::InvalidRemoteFormat => {
                "Invalid remote branch format. Use <remote>/<branch>".to_owned()
            },
            PrError::MismatchedRemote => "Mismatched remote detection".to_owned(),
        }
    }
}

/// How a branch token is to be obtained: from a fork (the driver must
/// first ensure a remote for the owner), from a configured remote, or as a
/// plain local branch.
#[derive(Debug)]
pub enum RemoteBranchPlan {
    /// `owner:branch`: ensure a remote for `owner`, then fetch `branch`
    /// from it.
    Fork { owner: String, branch: String },
    /// `remote/branch`: the token itself is the remote reference, and
    /// `base_name` names the unit.
    Remote { remote_ref: String, base_name: String },
    /// A plain local branch name, returned unchanged.
    Local { base_name: String },
}

/// The decision [`detect_remote_branch`] makes, over views.
pub enum RemoteBranchDecision {
    Fork { owner: Seq<char>, branch: Seq<char> },
    Remote { remote_ref: Seq<char>, base_name: Seq<char> },
    Local { base_name: Seq<char> },
    RejectBaseWithFork { owner: Seq<char>, branch: Seq<char> },
    RejectBaseWithRemote,
    BadRemoteFormat,
    RemoteMismatch,
}

/// Classifies a branch token: fork syntax first, then a known remote's
/// prefix, then a plain local branch. Either remote form conflicts with an
/// explicit base: the referenced branch is itself the base, and the
/// ambiguity is an error, not a silent override.
pub open spec fn detect_remote_branch_model(
    name: Seq<char>,
    base_given: bool,
    remotes: Seq<Seq<char>>,
) -> RemoteBranchDecision {
    match fork_split_model(name) {
        Some((owner, branch)) => {
            if base_given {
                RemoteBranchDecision::RejectBaseWithFork { owner, branch }
            } else {
                RemoteBranchDecision::Fork { owner, branch }
            }
        },
        None => {
            match first_remote_prefix(remotes, name, 0) {
                Some(ri) => {
                    if base_given {
                        RemoteBranchDecision::RejectBaseWithRemote
                    } else {
                        match remote_split_model(name) {
                            Some((remote, branch)) => {
                                if remote == remotes[ri] {
                                    RemoteBranchDecision::Remote {
                                        remote_ref: name,
                                        base_name: branch,
                                    }
                                } else {
                                    RemoteBranchDecision::RemoteMismatch
                                }
                            },
                            None => RemoteBranchDecision::BadRemoteFormat,
                        }
                    }
                },
                None => RemoteBranchDecision::Local { base_name: name },
            }
        },
    }
}

/// Detects whether a branch token refers to a remote branch and extracts
/// the base name, per [`detect_remote_branch_model`].
#[verifier::loop_isolation(false)]
pub fn detect_remote_branch(branch_name: &str, base_given: bool, remotes: &Vec<String>) -> (r:
    Result<RemoteBranchPlan, PrError>)
    ensures
        ({
            let d = detect_remote_branch_model(branch_name@, base_given, remotes.deep_view());
            match r {
                Ok(plan) => match plan {
                    RemoteBranchPlan::Fork { owner, branch } => d
                        == (RemoteBranchDecision::Fork { owner: owner@, branch: branch@ }),
                    RemoteBranchPlan::Remote { remote_ref, base_name } => d
                        == (RemoteBranchDecision::Remote {
                        remote_ref: remote_ref@,
                        base_name: base_name@,
                    }),
                    RemoteBranchPlan::Local { base_name } => d == (RemoteBranchDecision::Local {
                        base_name: base_name@,
                    }),
                },
                Err(e) => match e {
                    PrError::BaseWithFork { owner, branch } => d
                        == (RemoteBranchDecision::RejectBaseWithFork {
                        owner: owner@,
                        branch: branch@,
                    }),
                    PrError::BaseWithRemote { branch_name: bn } => d
                        is RejectBaseWithRemote && bn@ == branch_name@,
                    PrError::InvalidRemoteFormat => d is BadRemoteFormat,
                    PrError::MismatchedRemote => d is RemoteMismatch,
                },
            }
        }),
{
    let ghost rs = remotes.deep_view();
    if let Some(fork) = parse_fork_branch_spec(branch_name) {
        if base_given {
            return Err(PrError::BaseWithFork { owner: fork.owner, branch: fork.branch });
        }
        return Ok(RemoteBranchPlan::Fork { owner: fork.owner, branch: fork.branch });
    }
    let n = remotes.len();
    let mut i: usize = 0;
    while i < n
        invariant
            0 <= i <= n,
            first_remote_prefix(rs, branch_name@, 0) == first_remote_prefix(
                rs,
                branch_name@,
                i as int,
            ),
        decreases n - i,
    {
        let prefix = concat_str(remotes[i].as_str(), "/");
        if starts_with_str(branch_name, prefix.as_str()) {
            if base_given {
                return Err(PrError::BaseWithRemote { branch_name: branch_name.to_owned() });
            }
            let spec = match parse_remote_branch_spec(branch_name) {
                Some(s) => s,
                None => {
                    return Err(PrError::InvalidRemoteFormat);
                },
            };
            if !str_eq(spec.remote.as_str(), remotes[i].as_str()) {
                return Err(PrError::MismatchedRemote);
            }
            return Ok(
                RemoteBranchPlan::Remote {
                    remote_ref: branch_name.to_owned(),
                    base_name: spec.branch,
                },
            );
        }
        i = i + 1;
    }
    Ok(RemoteBranchPlan::Local { base_name: branch_name.to_owned() })
}

/// Result of resolving a fork branch: the remote reference to fetch and
/// the name the unit is templated from.
#[derive(Debug)]
pub struct ForkBranchResult {
    pub remote_ref: String,
    pub template_base_name: String,
}

/// Resolves a fork branch once the driver has ensured a remote for its
/// owner: the reference is `remote/branch`, and the branch names the unit.
/// No fetch happens here; the creation workflow fetches and fails if the
/// branch is missing.
pub fn resolve_fork_branch(remote_name: &str, fork: &ForkBranchSpec) -> (r: ForkBranchResult)
    ensures
        r.remote_ref@ == remote_name@ + "/"@ + fork.branch@,
        r.template_base_name@ == fork.branch@,
{
    let mut remote_ref = remote_name.to_owned();
    remote_ref.append("/");
    remote_ref.append(fork.branch.as_str());
    ForkBranchResult { remote_ref, template_base_name: fork.branch.clone() }
}

/// What a pull request looks like to the resolver: plain facts fetched
/// from the forge by the driver.
#[derive(Debug)]
pub struct PrDetails {
    pub title: String,
    pub author: String,
    pub head_ref_name: String,
    /// The forge's state word, `OPEN` for an open pull request.
    pub state: String,
    pub is_draft: bool,
    /// The owner of the repository the head branch lives in.
    pub head_repository_owner: String,
}

/// A pull request is a fork pull request when its head repository's owner
/// differs from the current repository's owner.
pub fn pr_is_fork(details: &PrDetails, current_repo_owner: &str) -> (r: bool)
    ensures
        r == (details.head_repository_owner@ != current_repo_owner@),
{
    !str_eq(details.head_repository_owner.as_str(), current_repo_owner)
}

/// The non-fatal warnings a pull request deserves before checkout: it is
/// not open, or it is a draft.
pub fn pr_warnings(details: &PrDetails) -> (r: (bool, bool))
    ensures
        r.0 == (details.state@ != "OPEN"@),
        r.1 == details.is_draft,
{
    (!str_eq(details.state.as_str(), "OPEN"), details.is_draft)
}

/// Result of resolving a pull-request checkout: the local branch to create
/// and the remote branch to fetch it from.
#[derive(Debug)]
pub struct PrCheckoutResult {
    pub local_branch: String,
    pub remote_branch: String,
}

/// Resolves a pull request to its checkout branches once the driver has
/// fetched its details and ensured the remote (`origin`, or the fork
/// remote when [`pr_is_fork`] says so): the local branch is the explicit
/// override or the pull request's own head branch, and the remote branch
/// is `remote/head`.
pub fn resolve_pr_ref(
    details: &PrDetails,
    custom_branch_name: Option<&str>,
    remote_name: &str,
) -> (r: PrCheckoutResult)
    ensures
        r.local_branch@ == match custom_branch_name {
            Some(c) => c@,
            None => details.head_ref_name@,
        },
        r.remote_branch@ == remote_name@ + "/"@ + details.head_ref_name@,
{
    let local_branch = match custom_branch_name {
        Some(c) => c.to_owned(),
        None => details.head_ref_name.clone(),
    };
    let mut remote_branch = remote_name.to_owned();
    remote_branch.append("/");
    remote_branch.append(details.head_ref_name.as_str());
    PrCheckoutResult { local_branch, remote_branch }
}

} // verus!
