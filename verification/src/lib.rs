//! Orchestration logic for paired git worktrees and terminal-session windows.
//!
//! Each unit of in-progress work couples one worktree, the branch checked out
//! in it, and one session window named after the unit's handle. The modules
//! here derive handles, resolve units from live listings of the two external
//! subsystems, and decide the multi-step merge, open, and removal workflows.
//! All side effects (running the version-control tool, driving the session
//! manager, prompting the user) are performed by a thin driver outside this
//! library; the functions here take snapshots of the observable state and
//! return fully determined plans, compensations, and results.

pub mod naming;
pub mod strutil;
pub mod units;
pub mod merge;
pub mod remove;
pub mod open;
pub mod pr;
pub mod dashboard;
