use workmux::dashboard::{DiffView, ViewMode};

fn diff(scroll: usize, line_count: usize, viewport_height: u16) -> DiffView {
    DiffView {
        content: "diff".to_string(),
        scroll,
        line_count,
        viewport_height,
        title: "Uncommitted Changes: fix-bug".to_string(),
        worktree_path: "/repo__worktrees/fix-bug".to_string(),
        pane_id: "%3".to_string(),
    }
}

#[test]
fn diff_scroll_line_steps() {
    let mut v = diff(0, 100, 20);
    v.scroll_up();
    assert_eq!(v.scroll, 0);
    v.scroll_down();
    assert_eq!(v.scroll, 1);
    v.scroll_up();
    assert_eq!(v.scroll, 0);
}

#[test]
fn diff_scroll_down_stops_at_last_viewport() {
    let mut v = diff(79, 100, 20);
    v.scroll_down();
    assert_eq!(v.scroll, 80);
    v.scroll_down();
    assert_eq!(v.scroll, 80);
}

#[test]
fn diff_scroll_page_steps_and_clamps() {
    let mut v = diff(30, 100, 20);
    v.scroll_page_up();
    assert_eq!(v.scroll, 10);
    v.scroll_page_up();
    assert_eq!(v.scroll, 0);
    v.scroll_page_down();
    assert_eq!(v.scroll, 20);
    v.scroll_page_down();
    assert_eq!(v.scroll, 40);
    v.scroll_page_down();
    assert_eq!(v.scroll, 60);
    v.scroll_page_down();
    assert_eq!(v.scroll, 80);
    v.scroll_page_down();
    assert_eq!(v.scroll, 80);
}

#[test]
fn diff_short_content_never_scrolls() {
    let mut v = diff(0, 5, 20);
    v.scroll_down();
    assert_eq!(v.scroll, 0);
    v.scroll_page_down();
    assert_eq!(v.scroll, 0);
}

#[test]
fn view_mode_defaults_to_dashboard() {
    assert!(matches!(ViewMode::default(), ViewMode::Dashboard));
}
