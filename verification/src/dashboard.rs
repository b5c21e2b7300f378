//! View state for the dashboard's diff modal: the scroll position over a
//! diff of a known line count inside a viewport of a known height.

use vstd::prelude::*;

verus! {

/// State for the diff modal view.
#[derive(Debug, PartialEq)]
pub struct DiffView {
    /// The diff content.
    pub content: String,
    /// Current scroll offset.
    pub scroll: usize,
    /// Total line count, bounding the scroll.
    pub line_count: usize,
    /// Viewport height, updated during rendering, used for page scrolls.
    pub viewport_height: u16,
    /// Title for the modal.
    pub title: String,
    /// Path to the worktree the diff was taken in.
    pub worktree_path: String,
    /// The session pane the diff belongs to.
    pub pane_id: String,
}

/// The greatest scroll offset that still shows a full viewport: the line
/// count less the viewport height, floored at zero.
pub open spec fn spec_max_scroll(line_count: nat, viewport_height: nat) -> nat {
    if line_count >= viewport_height {
        (line_count - viewport_height) as nat
    } else {
        0
    }
}

impl DiffView {
    /// Scrolls one line up, stopping at the top.
    pub fn scroll_up(&mut self)
        ensures
            final(self).scroll == if old(self).scroll > 0 {
                old(self).scroll - 1
            } else {
                0
            },
            final(self).content == old(self).content,
            final(self).line_count == old(self).line_count,
            final(self).viewport_height == old(self).viewport_height,
            final(self).title == old(self).title,
            final(self).worktree_path == old(self).worktree_path,
            final(self).pane_id == old(self).pane_id,
    {
        if self.scroll > 0 {
            self.scroll = self.scroll - 1;
        }
    }

    /// Scrolls one line down, stopping once the last viewport is shown.
    pub fn scroll_down(&mut self)
        ensures
            final(self).scroll == if old(self).scroll < spec_max_scroll(
                old(self).line_count as nat,
                old(self).viewport_height as nat,
            ) {
                old(self).scroll + 1
            } else {
                old(self).scroll as int
            },
            final(self).content == old(self).content,
            final(self).line_count == old(self).line_count,
            final(self).viewport_height == old(self).viewport_height,
            final(self).title == old(self).title,
            final(self).worktree_path == old(self).worktree_path,
            final(self).pane_id == old(self).pane_id,
    {
        let max_scroll = if self.line_count >= self.viewport_height as usize {
            self.line_count - self.viewport_height as usize
        } else {
            0
        };
        if self.scroll < max_scroll {
            self.scroll = self.scroll + 1;
        }
    }

    /// Scrolls a full page up, stopping at the top.
    pub fn scroll_page_up(&mut self)
        ensures
            final(self).scroll == if old(self).scroll >= old(self).viewport_height as nat {
                old(self).scroll - old(self).viewport_height as nat
            } else {
                0
            },
            final(self).content == old(self).content,
            final(self).line_count == old(self).line_count,
            final(self).viewport_height == old(self).viewport_height,
            final(self).title == old(self).title,
            final(self).worktree_path == old(self).worktree_path,
            final(self).pane_id == old(self).pane_id,
    {
        let page = self.viewport_height as usize;
        if self.scroll >= page {
            self.scroll = self.scroll - page;
        } else {
            self.scroll = 0;
        }
    }

    /// Scrolls a full page down, stopping once the last viewport is shown.
    pub fn scroll_page_down(&mut self)
        ensures
            ({
                let max = spec_max_scroll(
                    old(self).line_count as nat,
                    old(self).viewport_height as nat,
                );
                let stepped = old(self).scroll + old(self).viewport_height as nat;
                final(self).scroll == if stepped <= max {
                    stepped
                } else {
                    max as int
                }
            }),
            final(self).content == old(self).content,
            final(self).line_count == old(self).line_count,
            final(self).viewport_height == old(self).viewport_height,
            final(self).title == old(self).title,
            final(self).worktree_path == old(self).worktree_path,
            final(self).pane_id == old(self).pane_id,
    {
        let page = self.viewport_height as usize;
        let max_scroll = if self.line_count >= self.viewport_height as usize {
            self.line_count - self.viewport_height as usize
        } else {
            0
        };
        if self.scroll <= usize::MAX - page && self.scroll + page <= max_scroll {
            self.scroll = self.scroll + page;
        } else {
            self.scroll = max_scroll;
        }
    }
}

/// Current view mode of the dashboard.
#[derive(Debug, PartialEq)]
pub enum ViewMode {
    Dashboard,
    Diff(DiffView),
}

impl Default for ViewMode {
    /// The dashboard itself is the default view.
    fn default() -> (r: Self)
        ensures
            r is Dashboard,
    {
        ViewMode::Dashboard
    }
}

} // verus!
