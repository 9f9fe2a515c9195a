use reef_tui::engine::Tab;
use reef_tui::layout::{compute_sidebar_width, compute_three_col_widths, compute_uses_three_col};

#[test]
fn uses_three_col_needs_graph_tab() {
    assert!(compute_uses_three_col(Tab::Graph, 200, true, false));
    assert!(!compute_uses_three_col(Tab::Git, 200, true, false));
    assert!(!compute_uses_three_col(Tab::Files, 200, true, false));
    assert!(!compute_uses_three_col(Tab::Search, 200, true, false));
}

#[test]
fn uses_three_col_needs_min_width() {
    assert!(!compute_uses_three_col(Tab::Graph, 99, true, false));
    assert!(compute_uses_three_col(Tab::Graph, 100, true, false));
}

#[test]
fn uses_three_col_needs_file_diff_or_loading() {
    assert!(!compute_uses_three_col(Tab::Graph, 200, false, false));
    assert!(compute_uses_three_col(Tab::Graph, 200, true, false));
    assert!(compute_uses_three_col(Tab::Graph, 200, false, true));
}

#[test]
fn sidebar_width_clamps_min_10() {
    assert_eq!(compute_sidebar_width(100, 5), 10);
}

#[test]
fn sidebar_width_clamps_to_leave_20_for_right() {
    assert_eq!(compute_sidebar_width(100, 95), 80);
}

#[test]
fn sidebar_width_passes_mid_range_through() {
    assert_eq!(compute_sidebar_width(200, 30), 60);
}

#[test]
fn three_col_widths_sum_to_total() {
    let (g, c, d) = compute_three_col_widths(200, 60, 60);
    assert_eq!(g + c + d, 200);
}

#[test]
fn three_col_widths_diff_floor_20() {
    let (_, _, d) = compute_three_col_widths(200, 60, 0);
    assert!(d >= 20, "diff col floored at 20, got {d}");
}

#[test]
fn three_col_widths_commit_floor_20() {
    let (_, c, _) = compute_three_col_widths(200, 60, 100);
    assert!(c >= 20, "commit col floored at 20, got {c}");
}

#[test]
fn three_col_widths_default_proportions() {
    let (g, c, d) = compute_three_col_widths(200, 60, 60);
    assert_eq!(g, 60);
    assert_eq!(d, 84);
    assert_eq!(c, 56);
}

#[test]
fn three_col_widths_at_min_terminal_width() {
    let (g, c, d) = compute_three_col_widths(100, 30, 60);
    assert_eq!(g + c + d, 100);
    assert!(c >= 20 && d >= 20, "both right cols are wide enough: c={c} d={d}");
}

#[test]
fn three_col_widths_share_sidebar_with_2col() {
    let sidebar_2 = compute_sidebar_width(150, 30);
    let (graph_3, _, _) = compute_three_col_widths(150, sidebar_2, 60);
    assert_eq!(sidebar_2, graph_3);
}

#[test]
fn three_col_widths_redistribute_when_sidebar_zero() {
    let (g, c, d) = compute_three_col_widths(200, 0, 60);
    assert_eq!(g, 0);
    assert_eq!(g + c + d, 200);
    assert_eq!(d, 120);
    assert_eq!(c, 80);
}

#[test]
fn narrow_terminals_have_no_sidebar() {
    assert_eq!(compute_sidebar_width(20, 50), 0);
    assert_eq!(compute_sidebar_width(25, 50), 5);
    assert_eq!(compute_sidebar_width(u16::MAX, 100), u16::MAX - 20);
}
