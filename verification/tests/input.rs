use reef_tui::app::{Theme, TuiApp};
use reef_tui::command::{AppCommand, Effect, Resume};
use reef_tui::engine::{
    ConfirmRequest, Engine, InputMode, Panel, PreviewKind, Tab, TreeDeleteConfirm, TreeEntry,
    ViewMode,
};
use reef_tui::event::{KeyCode, KeyEvent, KeyModifiers, MouseButton, MouseEvent, MouseEventKind};
use reef_tui::geometry::{point_in_rect, Rect};
use reef_tui::global_search::current_text_selection;
use reef_tui::input::dragging::MouseProbe;
use reef_tui::input::git::handle_key_git_commit;
use reef_tui::input::keys::{handle_key, target_tab};
use reef_tui::input::mouse::handle_mouse;
use reef_tui::input::overlays::{handle_key_confirm_modal, keep_both_text};
use reef_tui::input::paste::handle_paste;
use reef_tui::input::scrolling::{
    signed_step, tick_drag_autoscroll, width_or_fallback, DragView,
};
use reef_tui::input_edit::TextEditOp;
use reef_tui::keymap::{scope_for_app, InputScope};
use reef_tui::selection::{PreviewSelection, TextPick};
use reef_tui::time::Timestamp;
use reef_tui::ui::mouse::{ClickAction, HitTestRegistry};

fn app() -> TuiApp {
    let mut app = TuiApp::new(Engine::default(), Theme { is_dark: true }, false);
    app.layout.last_total_width = 120;
    app
}

fn at(ms: u64) -> Timestamp {
    Timestamp::from_millis(ms)
}

fn press(app: &mut TuiApp, code: KeyCode, modifiers: KeyModifiers) -> Vec<Effect> {
    handle_key(KeyEvent::new(code, modifiers), app, at(1000), None)
}

fn plain(app: &mut TuiApp, code: KeyCode) -> Vec<Effect> {
    press(app, code, KeyModifiers::none())
}

fn probe() -> MouseProbe {
    MouseProbe {
        terminal_width: Some(120),
        preview_pick: None,
        diff_pick: None,
        diff_drag: None,
        commit_pick: None,
        commit_drag: None,
        selected_text: String::new(),
        starts_drag: false,
        preview_identifier: None,
        diff_identifier: None,
    }
}

fn mouse(kind: MouseEventKind, column: u16, row: u16) -> MouseEvent {
    MouseEvent { kind, column, row, modifiers: KeyModifiers::none() }
}

fn entry(path: &str) -> TreeEntry {
    TreeEntry {
        path: path.to_string(),
        parent: String::new(),
        abs_path: format!("/p/{}", path),
        is_dir: false,
        is_expanded: false,
    }
}

fn question(a: &mut TuiApp) {
    a.engine.confirm = Some(ConfirmRequest {
        delete: TreeDeleteConfirm { path: "/p/x".to_string(), is_dir: false, hard: false },
        confirm_keys: vec!['y', 'Y'],
    });
}

#[test]
fn control_c_quits_at_once() {
    let mut a = app();
    assert_eq!(
        press(&mut a, KeyCode::Char('c'), KeyModifiers::control()),
        vec![Effect::Run(AppCommand::Quit)]
    );
}

#[test]
fn arrows_move_through_the_files() {
    let mut a = app();
    a.engine.tree.entries = vec![entry("a"), entry("b")];
    assert_eq!(
        plain(&mut a, KeyCode::Down),
        vec![Effect::Run(AppCommand::NavigateFileTree(1))]
    );
    a.engine.active_tab = Tab::Git;
    assert_eq!(
        plain(&mut a, KeyCode::Char('k')),
        vec![Effect::Run(AppCommand::NavigateGitFiles(-1))]
    );
}

#[test]
fn questions_own_the_keyboard() {
    let mut a = app();
    question(&mut a);
    assert_eq!(scope_for_app(&a), InputScope::ConfirmModal);
    assert!(plain(&mut a, KeyCode::Down).is_empty());
    assert_eq!(plain(&mut a, KeyCode::Char('y')).len(), 3);
    assert_eq!(
        plain(&mut a, KeyCode::Esc),
        vec![Effect::Run(AppCommand::DismissConfirm)]
    );
    let upper = handle_key_confirm_modal(
        KeyEvent::new(KeyCode::Char('Y'), KeyModifiers::shift()),
        &a,
    );
    assert_eq!(upper.len(), 3);
}

#[test]
fn typed_letters_edit_the_palette() {
    let mut a = app();
    a.engine.overlays.quick_open = true;
    a.engine.quick_open.query_is_empty = false;
    let effects = plain(&mut a, KeyCode::Char('q'));
    assert!(!effects.contains(&Effect::Run(AppCommand::Quit)));
    match &effects[0] {
        Effect::Run(AppCommand::ApplyQuickOpenPickerInput { .. }) => {}
        other => panic!("an edit was expected, not {:?}", other),
    }
}

#[test]
fn space_and_a_letter_open_the_palettes() {
    let mut a = app();
    assert!(plain(&mut a, KeyCode::Char(' ')).is_empty());
    assert!(a.space_leader_at.is_some());
    let effects = plain(&mut a, KeyCode::Char('p'));
    assert!(a.space_leader_at.is_none());
    assert!(effects.contains(&Effect::Run(AppCommand::OpenQuickOpen)));
}

#[test]
fn stale_leader_fires_nothing() {
    let mut a = app();
    a.space_leader_at = Some(at(0));
    let late = handle_key(
        KeyEvent::new(KeyCode::Char('p'), KeyModifiers::none()),
        &mut a,
        at(5000),
        None,
    );
    assert!(!late.contains(&Effect::Run(AppCommand::OpenQuickOpen)));
    assert!(a.space_leader_at.is_none());
}

#[test]
fn letters_stay_in_the_commit_message() {
    let mut a = app();
    a.engine.active_tab = Tab::Git;
    a.engine.commit_editing = true;
    a.engine.overlays.commit_editor = true;
    let effects = plain(&mut a, KeyCode::Char('q'));
    assert!(effects.contains(&Effect::Run(AppCommand::EditCommitMessage(
        TextEditOp::InsertChar('q')
    ))));
    assert!(!effects.contains(&Effect::Run(AppCommand::Quit)));
}

#[test]
fn space_types_into_the_editor_command() {
    let mut a = app();
    a.engine.view_mode = ViewMode::Settings;
    a.engine.settings.editing_editor_command = true;
    assert_eq!(
        plain(&mut a, KeyCode::Char(' ')),
        vec![Effect::Run(AppCommand::EditSettingsEditorCommand(TextEditOp::InsertChar(' ')))]
    );
    assert!(plain(&mut a, KeyCode::Enter).contains(&Effect::CommitEditorCommand));
}

#[test]
fn tabs_are_numbered() {
    assert_eq!(target_tab(Tab::Files, 2), Some(Tab::Git));
    assert_eq!(target_tab(Tab::Graph, usize::MAX), Some(Tab::Files));
    assert_eq!(target_tab(Tab::Files, 9), None);
}

#[test]
fn names_are_kept_beside_each_other() {
    assert_eq!(keep_both_text(&None), "copy");
    assert_eq!(keep_both_text(&Some("a (1)".to_string())), "a (1)");
}

#[test]
fn pastes_go_where_keys_go() {
    let mut a = app();
    a.engine.overlays.hosts_picker = true;
    a.engine.hosts_picker_mode = InputMode::Path;
    assert_eq!(
        handle_paste("host".to_string(), &a, at(0)),
        vec![Effect::Run(AppCommand::PasteHostsPicker("host".to_string()))]
    );
    a.engine.overlays.hosts_picker = false;
    question(&mut a);
    assert!(handle_paste("host".to_string(), &a, at(0)).is_empty());
}

#[test]
fn modals_swallow_pastes() {
    let mut a = app();
    a.engine.active_tab = Tab::Git;
    a.engine.commit_editing = true;
    a.engine.overlays.commit_editor = true;
    let text = "fix: typo".to_string();
    assert_eq!(
        handle_paste(text.clone(), &a, at(0)),
        vec![Effect::Run(AppCommand::PasteCommitMessage(text.clone()))]
    );
    for modal in 0..4 {
        a.engine.overlays.tree_context_menu = modal == 0;
        a.engine.overlays.paste_conflict = modal == 1;
        a.engine.overlays.place_mode = modal == 2;
        a.engine.overlays.tree_drag = modal == 3;
        assert!(handle_paste(text.clone(), &a, at(0)).is_empty());
    }
    a.engine.overlays.db_goto = true;
    assert_eq!(
        handle_paste("7".to_string(), &a, at(0)),
        vec![Effect::Run(AppCommand::PasteDbGoto("7".to_string()))]
    );
}

#[test]
fn presses_on_the_frame_of_the_list_do_nothing() {
    let mut a = app();
    a.engine.preview.kind = PreviewKind::Text;
    a.engine.preview.row_count = 50;
    a.engine.overlays.nav_candidates = true;
    a.last_preview_rect = Some(Rect::new(40, 2, 80, 30));
    a.last_preview_content_origin = Some((46, 3, 6));
    a.hit_registry.register(Rect::new(0, 0, 120, 40), ClickAction::NavCandidatesClose);
    a.hit_registry.register(Rect::new(45, 5, 20, 10), ClickAction::NavCandidatesCapture);
    let mut p = probe();
    p.preview_pick =
        Some(TextPick { row: 4, byte: 2, word_start: 0, word_end: 5, row_len: 9 });
    let frame = mouse(MouseEventKind::Down(MouseButton::Left), 50, 7);
    assert!(handle_mouse(frame, &mut a, at(0), &p).is_empty());
    assert!(a.preview_selection.is_none());
    let outside = mouse(MouseEventKind::Down(MouseButton::Left), 80, 7);
    assert_eq!(
        handle_mouse(outside, &mut a, at(0), &p),
        vec![Effect::NavCloseCandidates]
    );
}

#[test]
fn drops_enter_place_mode() {
    let file = tempfile::NamedTempFile::new().unwrap();
    let path = file.path().to_string_lossy().to_string();
    let a = app();
    assert_eq!(
        handle_paste(path.clone(), &a, at(0)),
        vec![
            Effect::Run(AppCommand::EnterPlaceMode(vec![path])),
            Effect::Then(Resume::RuntimeEvents),
        ]
    );
}

#[test]
fn clicks_land_on_the_topmost_zone() {
    let mut zones = HitTestRegistry::new();
    zones.register(Rect::new(0, 0, 10, 10), ClickAction::ToggleSidebar);
    zones.register_row(2, 3, 4, ClickAction::OpenSettings);
    match zones.hit_test(3, 3) {
        Some(ClickAction::OpenSettings) => {}
        other => panic!("{:?}", other),
    }
    match zones.hit_test(9, 9) {
        Some(ClickAction::ToggleSidebar) => {}
        other => panic!("{:?}", other),
    }
    assert!(zones.hit_test(10, 3).is_none());
    assert!(point_in_rect(Rect::new(65535, 65535, 9, 9), 65535, 65535));
}

#[test]
fn clicks_are_dispatched() {
    let mut a = app();
    a.hit_registry.register_row(0, 0, 10, ClickAction::SwitchTab(Tab::Graph));
    let effects = handle_mouse(
        mouse(MouseEventKind::Down(MouseButton::Left), 3, 0),
        &mut a,
        at(0),
        &probe(),
    );
    assert!(effects.contains(&Effect::Run(AppCommand::SetActiveTab(Tab::Graph))));
}

#[test]
fn clicks_off_the_question_answer_nothing() {
    let mut a = app();
    question(&mut a);
    a.hit_registry.register_row(0, 0, 10, ClickAction::SwitchTab(Tab::Graph));
    let effects = handle_mouse(
        mouse(MouseEventKind::Down(MouseButton::Left), 3, 0),
        &mut a,
        at(0),
        &probe(),
    );
    assert!(!effects.contains(&Effect::Run(AppCommand::SetActiveTab(Tab::Graph))));
}

#[test]
fn dragging_the_edge_resizes() {
    let mut a = app();
    a.dragging_split = true;
    let effects = handle_mouse(
        mouse(MouseEventKind::Drag(MouseButton::Left), 60, 5),
        &mut a,
        at(0),
        &probe(),
    );
    assert_eq!(effects, vec![Effect::Run(AppCommand::SetSplitPercent(50))]);
    handle_mouse(mouse(MouseEventKind::Up(MouseButton::Left), 60, 5), &mut a, at(0), &probe());
    assert!(!a.dragging_split);
}

#[test]
fn wheels_scroll_the_panel_under_the_mouse() {
    let mut a = app();
    a.engine.active_tab = Tab::Files;
    let effects = handle_mouse(mouse(MouseEventKind::ScrollDown, 100, 5), &mut a, at(0), &probe());
    assert!(effects.contains(&Effect::Run(AppCommand::PreviewScroll(3))));
    let left = handle_mouse(mouse(MouseEventKind::ScrollUp, 2, 5), &mut a, at(500), &probe());
    assert!(left.contains(&Effect::Run(AppCommand::ScrollFileTree(-3))));
}

#[test]
fn presses_on_text_begin_a_selection() {
    let mut a = app();
    a.engine.preview.kind = PreviewKind::Text;
    a.engine.preview.row_count = 50;
    a.last_preview_rect = Some(Rect::new(40, 2, 80, 30));
    a.last_preview_content_origin = Some((46, 3, 6));
    let mut p = probe();
    p.preview_pick =
        Some(TextPick { row: 4, byte: 2, word_start: 0, word_end: 5, row_len: 9 });
    handle_mouse(mouse(MouseEventKind::Down(MouseButton::Left), 50, 7), &mut a, at(0), &p);
    assert_eq!(a.preview_selection, Some(PreviewSelection::new((4, 2))));
    assert_eq!(a.engine.active_panel, Panel::Files);
}

#[test]
fn drags_below_the_text_scroll_it() {
    let mut a = app();
    a.engine.preview.kind = PreviewKind::Text;
    a.engine.preview.row_count = 500;
    a.layout.last_preview_view_h = 20;
    a.last_preview_rect = Some(Rect::new(40, 2, 80, 21));
    a.last_preview_content_origin = Some((46, 3, 6));
    a.preview_selection = Some(PreviewSelection::new((4, 2)));
    a.last_drag_mouse = Some((50, 23));
    let effects = tick_drag_autoscroll(&mut a, at(1000));
    assert_eq!(effects[0], Effect::Run(AppCommand::SetPreviewVerticalScroll(1)));
    assert!(tick_drag_autoscroll(&mut a, at(1001)).is_empty());
}

#[test]
fn drags_scroll_from_anywhere_in_the_text() {
    let view = DragView { top: 3, view_h: 20, rows: usize::MAX, scroll: usize::MAX, mouse_y: 30 };
    assert_eq!(view.next_scroll(None, at(1000)), Some(usize::MAX - 20));
    let end = DragView { top: 3, view_h: 20, rows: 40, scroll: 20, mouse_y: 30 };
    assert_eq!(end.next_scroll(None, at(1000)), None);
}

#[test]
fn ticks_without_a_drag_do_nothing() {
    let mut a = app();
    a.engine.preview.kind = PreviewKind::Text;
    a.engine.preview.row_count = 500;
    a.engine.preview.scroll = usize::MAX;
    a.engine.active_diff_scroll = Some(usize::MAX);
    a.layout.last_preview_view_h = 20;
    a.last_preview_content_origin = Some((46, 3, 6));
    assert!(a.finish_tick(at(1000)).is_empty());
    a.preview_selection = Some(PreviewSelection::new((4, 2)));
    a.last_drag_mouse = Some((50, 10));
    assert!(a.finish_tick(at(2000)).is_empty());
    assert!(a.preview_autoscroll_at.is_none());
}

#[test]
fn control_alt_enter_stays_in_the_commit_message() {
    let mut a = app();
    a.engine.active_tab = Tab::Git;
    a.engine.commit_editing = true;
    a.engine.overlays.commit_editor = true;
    let key = KeyEvent::new(KeyCode::Enter, KeyModifiers::control().with_alt());
    assert_eq!(handle_key_git_commit(key, &a), Some(Vec::new()));
    let key = KeyEvent::new(KeyCode::Enter, KeyModifiers::control().with_alt().with_shift());
    assert_eq!(handle_key_git_commit(key, &a), Some(Vec::new()));
    let key = KeyEvent::new(KeyCode::Enter, KeyModifiers::control().with_shift());
    assert_eq!(
        handle_key_git_commit(key, &a),
        Some(vec![Effect::Run(AppCommand::RunCommit)])
    );
}

#[test]
fn small_numbers_are_signed() {
    assert_eq!(signed_step(true, 3), -3);
    assert_eq!(signed_step(false, 3), 3);
    assert_eq!(width_or_fallback(None), 80);
    assert_eq!(width_or_fallback(Some(120)), 120);
}

#[test]
fn selections_seed_the_search() {
    let mut a = app();
    a.engine.preview.kind = PreviewKind::Text;
    a.preview_selection = Some(PreviewSelection {
        anchor: (0, 0),
        active: (0, 4),
        dragging: false,
    });
    assert_eq!(
        current_text_selection(&a, "  name \nnext", ""),
        Some("name".to_string())
    );
    a.preview_selection = None;
    assert_eq!(current_text_selection(&a, "", ""), None);
}
