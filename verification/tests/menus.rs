use reef_tui::engine::DiffSide;
use reef_tui::preview_context_menu::{PreviewContextMenuItem, PreviewContextMenuState};
use reef_tui::selection_context_menu::{
    SelectionContextMenuItem, SelectionContextMenuState, SelectionContextTarget,
};
use reef_tui::tree_context_menu::{ContextMenuItem, ContextMenuState};

#[test]
fn default_is_closed() {
    let m = ContextMenuState::default();
    assert!(!m.active);
    assert!(m.items.is_empty());
}

#[test]
fn open_with_entry_shows_full_menu() {
    let mut m = ContextMenuState::default();
    m.open((10, 5), Some(3));
    assert!(m.active);
    assert_eq!(m.anchor, (10, 5));
    assert_eq!(m.target_entry_idx, Some(3));
    assert_eq!(m.items.len(), ContextMenuItem::ALL_FOR_ENTRY.len());
    assert_eq!(m.current(), Some(ContextMenuItem::Cut));
}

#[test]
fn open_without_entry_shows_root_menu() {
    let mut m = ContextMenuState::default();
    m.open((0, 0), None);
    assert_eq!(m.items.len(), ContextMenuItem::ALL_FOR_ROOT.len());
    assert!(!m.items.contains(&ContextMenuItem::Rename));
    assert!(!m.items.contains(&ContextMenuItem::Delete));
    assert!(!m.items.contains(&ContextMenuItem::Cut));
    assert!(!m.items.contains(&ContextMenuItem::Copy));
    assert!(!m.items.contains(&ContextMenuItem::Duplicate));
    assert!(m.items.contains(&ContextMenuItem::Paste));
}

#[test]
fn paste_disabled_when_clipboard_empty() {
    assert!(!ContextMenuItem::Paste.is_enabled(true));
    assert!(ContextMenuItem::Paste.is_enabled(false));
    assert!(ContextMenuItem::Cut.is_enabled(true));
    assert!(ContextMenuItem::CopyPath.is_enabled(true));
    assert!(ContextMenuItem::Delete.is_enabled(true));
}

#[test]
fn entry_menu_grouping_matches_vscode() {
    let entry = ContextMenuItem::ALL_FOR_ENTRY;
    assert_eq!(entry[0], ContextMenuItem::Cut);
    assert_eq!(entry[1], ContextMenuItem::Copy);
    assert_eq!(entry[2], ContextMenuItem::Paste);
    assert_eq!(entry[3], ContextMenuItem::Duplicate);
    let n = entry.len();
    assert_eq!(entry[n - 1], ContextMenuItem::RevealInFinder);
    assert_eq!(entry[n - 2], ContextMenuItem::CopyRelativePath);
    assert_eq!(entry[n - 3], ContextMenuItem::CopyPath);
}

#[test]
fn navigate_wraps_around() {
    let mut m = ContextMenuState::default();
    m.open((0, 0), Some(0));
    let last = m.items.len() - 1;
    m.navigate(-1);
    assert_eq!(m.selected, last);
    m.navigate(1);
    assert_eq!(m.selected, 0);
}

#[test]
fn close_resets_state() {
    let mut m = ContextMenuState::default();
    m.open((10, 5), Some(2));
    m.close();
    assert!(!m.active);
    assert!(m.items.is_empty());
    assert_eq!(m.selected, 0);
    assert!(m.target_entry_idx.is_none());
}

#[test]
fn open_resets_selection_and_records_anchor() {
    let mut state = PreviewContextMenuState { active: false, anchor: (0, 0), selected: 1 };
    state.open((14, 8));
    assert_eq!((state.active, state.anchor, state.selected), (true, (14, 8), 0));
}

#[test]
fn preview_context_menu_navigate_wraps_in_both_directions() {
    let mut state = PreviewContextMenuState::default();
    state.navigate(-1);
    assert_eq!(state.current(), PreviewContextMenuItem::SelectAll);
    state.navigate(1);
    assert_eq!(state.current(), PreviewContextMenuItem::Copy);
}

#[test]
fn open_records_target_anchor_and_resets_selection() {
    let mut state = SelectionContextMenuState { target: None, anchor: (0, 0), selected: 1 };
    state.open(SelectionContextTarget::Preview, (14, 8));
    assert_eq!(state.target(), Some(SelectionContextTarget::Preview));
    assert_eq!(state.anchor(), (14, 8));
    assert_eq!(state.selected(), 0);
}

#[test]
fn close_clears_target() {
    let mut state = SelectionContextMenuState::default();
    state.open(SelectionContextTarget::Diff(DiffSide::SbsRight), (14, 8));
    state.close();
    assert!(!state.is_active());
    assert_eq!(state.target(), None);
}

#[test]
fn selection_context_menu_navigate_wraps_in_both_directions() {
    let mut state = SelectionContextMenuState::default();
    state.navigate(-1);
    assert_eq!(state.current(), SelectionContextMenuItem::SelectAll);
    state.navigate(1);
    assert_eq!(state.current(), SelectionContextMenuItem::Copy);
}

#[test]
fn copying_needs_something_to_copy() {
    assert!(!PreviewContextMenuItem::Copy.is_enabled(false));
    assert!(PreviewContextMenuItem::Copy.is_enabled(true));
    assert!(PreviewContextMenuItem::SelectAll.is_enabled(false));
    assert!(!SelectionContextMenuItem::Copy.is_enabled(false));
    assert!(SelectionContextMenuItem::SelectAll.is_enabled(false));
}

#[test]
fn far_moves_go_round_the_menu() {
    let mut m = ContextMenuState::default();
    m.open((0, 0), None);
    m.navigate(9);
    assert_eq!(m.selected, 1);
    m.navigate(-9);
    assert_eq!(m.selected, 0);
    let mut closed = ContextMenuState::default();
    closed.navigate(3);
    closed.navigate(i32::MAX);
    assert_eq!(closed.selected, 0);
    assert_eq!(closed.current(), None);
}
