use reef_tui::app::events::{
    FileActionNotice, ImagePlan, PreviewArrival, ReplaceSummary, RuntimeEvent, TabChangeOutcome,
};
use reef_tui::app::tick::{activity_text, Activity};
use reef_tui::app::tree::{copy_paths_command, CopiedPath};
use reef_tui::app::{tab_label, DbObjectKey, DbPreviewLayoutCache, Theme, TuiApp};
use reef_tui::command::{
    AppCommand, CopySources, Effect, FilePlace, PathSet, Resume, Toast, ToastText, TreeEditMode,
};
use reef_tui::engine::{
    ConfirmRequest, DiffLayout, DiffMode, Engine, ImageFacts, Panel, PreviewKind, SearchTarget,
    SettingItem, Tab, ThemePref, TreeDeleteConfirm, TreeEntry, ViewMode,
};
use reef_tui::event::KeyModifiers;
use reef_tui::hosts_picker::{load_recent, save_recent};
use reef_tui::prefs::{
    flag_text, graph_scope_value, load_graph_scope_pref, load_prefs, parse_graph_scope,
    persist_graph_scope, saved_prefs, shorthand_for_full_ref, GraphScope, PrefValue, SavedPref,
};
use reef_tui::quick_open::accept;
use reef_tui::rows::{DiffRowText, DiffRows, SearchRows};
use reef_tui::search::{begin, resolve_target};
use reef_tui::engine::{DiffSide, FindTarget};
use reef_tui::selection::{
    clamp_col_to_side, count_click, is_double_click, mouse_to_text_cell, remember_click,
    start_selection, ClickState, DiffHit, PreviewSelection, TextPick,
};
use reef_tui::settings::{cycle, item_description, item_label, Msg};
use reef_tui::time::Timestamp;
use reef_tui::tree_context_menu::ContextMenuItem;
use reef_tui::ui::mouse::ClickAction;

fn app() -> TuiApp {
    TuiApp::new(Engine::default(), Theme { is_dark: true }, false)
}

fn entry(path: &str, parent: &str, is_dir: bool) -> TreeEntry {
    TreeEntry {
        path: path.to_string(),
        parent: parent.to_string(),
        abs_path: format!("/p/{}", path),
        is_dir,
        is_expanded: false,
    }
}

fn at(ms: u64) -> Timestamp {
    Timestamp::from_millis(ms)
}

#[test]
fn start_reads_the_project() {
    let (app, effects) =
        TuiApp::new_with_backend(Engine::default(), Theme { is_dark: false }, true);
    assert!(app.has_image_picker && !app.has_image_protocol);
    assert!(app.hit_registry.zones.is_empty());
    assert_eq!(
        effects,
        vec![
            Effect::Run(AppCommand::RefreshStatus),
            Effect::Run(AppCommand::RefreshFileTree),
            Effect::BuildSymbolIndex,
            Effect::Run(AppCommand::RefreshLspInstalled),
        ]
    );
}

#[test]
fn prompt_tree_delete_sets_pending_confirm() {
    let effects = app().prompt_tree_delete("/p/a.txt".to_string(), false, true);
    assert_eq!(
        effects,
        vec![
            Effect::Run(AppCommand::CloseTreeContextMenu),
            Effect::Run(AppCommand::RequestTreeDeleteConfirm {
                path: "/p/a.txt".to_string(),
                is_dir: false,
                hard: true,
            }),
        ]
    );
}

#[test]
fn fire_confirm_cancel_clears_pending_request() {
    let mut a = app();
    a.engine.confirm = Some(ConfirmRequest {
        delete: TreeDeleteConfirm { path: "/p/a.txt".to_string(), is_dir: false, hard: false },
        confirm_keys: vec!['y'],
    });
    assert_eq!(a.fire_confirm_cancel(), vec![Effect::Run(AppCommand::DismissConfirm)]);
}

#[test]
fn yes_deletes_what_was_asked_about() {
    let mut a = app();
    assert_eq!(a.fire_confirm_primary(), Vec::<Effect>::new());
    let delete = TreeDeleteConfirm { path: "/p/a.txt".to_string(), is_dir: false, hard: false };
    a.engine.confirm =
        Some(ConfirmRequest { delete: delete.clone(), confirm_keys: vec!['y'] });
    assert_eq!(
        a.fire_confirm_primary(),
        vec![
            Effect::Run(AppCommand::DismissConfirm),
            Effect::Run(AppCommand::ExecuteTreeDelete(delete)),
            Effect::Then(Resume::RuntimeEvents),
        ]
    );
}

#[test]
fn settings_section_assignment_is_complete() {
    let items = [
        SettingItem::Theme,
        SettingItem::EditorCommand,
        SettingItem::DiffLayout,
        SettingItem::DiffMode,
        SettingItem::StatusTreeMode,
        SettingItem::CommitDiffLayout,
        SettingItem::CommitDiffMode,
        SettingItem::CommitFilesTreeMode,
    ];
    for item in items {
        let _ = item_label(item);
        let _ = item_description(item);
    }
}

#[test]
fn cycle_status_tree_mode_updates_app_and_prefs() {
    let mut a = app();
    assert_eq!(
        cycle(&mut a, SettingItem::StatusTreeMode),
        vec![
            Effect::Run(AppCommand::ToggleStatusTreeMode),
            Effect::SaveStatusTreeMode,
            Effect::RefreshPrefCache,
        ]
    );
    let saved = saved_prefs(&Effect::SaveStatusTreeMode);
    assert_eq!(saved, vec![SavedPref::StatusTreeMode]);
    assert_eq!(saved[0].key(), "status.tree_mode");
    a.engine.status_tree_mode = true;
    assert_eq!(saved[0].value(&a.engine), PrefValue::Flag(true));
    assert_eq!(flag_text(true), "true");
    a.engine.status_tree_mode = false;
    assert_eq!(saved[0].value(&a.engine), PrefValue::Flag(false));
    assert_eq!(flag_text(false), "false");
}

#[test]
fn preferences_have_names_of_their_own() {
    let a = app();
    let both = saved_prefs(&Effect::SaveDiffPrefs);
    assert_eq!(both, vec![SavedPref::DiffLayout, SavedPref::DiffMode]);
    assert_eq!((both[0].key(), both[1].key()), ("diff.layout", "diff.mode"));
    assert_eq!(both[0].value(&a.engine), PrefValue::Layout(a.engine.diff_layout));
    assert_eq!(both[1].value(&a.engine), PrefValue::Mode(a.engine.diff_mode));
    assert_eq!(SavedPref::CommitDiffLayout.key(), "commit.diff_layout");
    assert_eq!(SavedPref::CommitDiffMode.key(), "commit.diff_mode");
    assert_eq!(SavedPref::CommitFilesTreeMode.key(), "commit.files_tree_mode");
    assert!(saved_prefs(&Effect::SaveGraphScope).is_empty());
}

#[test]
fn cycle_theme_walks_auto_dark_light() {
    let mut a = app();
    a.theme = Theme { is_dark: false };
    assert_eq!(a.engine.settings.theme_pref, ThemePref::Auto);

    let effects = cycle(&mut a, SettingItem::Theme);
    assert!(effects.contains(&Effect::SaveThemePref(ThemePref::Dark)));
    assert!(a.theme.is_dark);
    a.engine.settings.theme_pref = ThemePref::Dark;

    let effects = cycle(&mut a, SettingItem::Theme);
    assert!(effects.contains(&Effect::SaveThemePref(ThemePref::Light)));
    assert!(!a.theme.is_dark);
    a.engine.settings.theme_pref = ThemePref::Light;

    let effects = cycle(&mut a, SettingItem::Theme);
    assert!(effects.contains(&Effect::SaveThemePref(ThemePref::Auto)));
    assert!(!a.theme.is_dark, "auto must not change live theme");
    assert!(effects.contains(&Effect::Run(AppCommand::PushToast(Toast::info(
        ToastText::AutoThemeOnNextLaunch
    )))));
}

#[test]
fn cycle_commit_diff_layout_persists_independently() {
    let mut a = app();
    let effects = cycle(&mut a, SettingItem::CommitDiffLayout);
    assert!(effects.contains(&Effect::Run(AppCommand::ToggleCommitDiffLayout)));
    assert!(effects.contains(&Effect::SaveCommitDiffLayout));
    assert!(!effects.contains(&Effect::SaveDiffPrefs));
}

#[test]
fn open_settings_idempotent_preserves_edit() {
    let mut a = app();
    assert!(a.open_settings().contains(&Effect::Run(AppCommand::CancelSettingsEditorCommandEdit)));
    a.engine.view_mode = ViewMode::Settings;
    assert!(a.open_settings().is_empty());
}

#[test]
fn toggling_a_diff_drops_its_selection() {
    let mut a = app();
    a.commit_detail_selection = Some(PreviewSelection::new((1, 2)));
    let effects = a.toggle_commit_diff_mode();
    assert!(a.commit_detail_selection.is_none());
    assert_eq!(effects.len(), 4);
    assert_eq!(effects[1], Effect::SaveCommitDiffMode);
}

#[test]
fn commands_drop_what_they_make_stale() {
    let mut a = app();
    a.g_pending_at = Some(at(5));
    a.space_leader_at = Some(at(5));
    assert_eq!(a.load_preview(), vec![Effect::Run(AppCommand::LoadSelectedPreview)]);
    assert!(a.g_pending_at.is_none() && a.space_leader_at.is_some());
    a.close_focused_preview();
    assert!(a.space_leader_at.is_none());
    a.commit_detail_selection = Some(PreviewSelection::new((1, 2)));
    a.focus_graph_commit("abc".to_string());
    assert!(a.commit_detail_selection.is_none());
}

#[test]
fn nothing_dragged_is_nothing_dropped() {
    let mut a = app();
    assert!(a.commit_tree_drag(KeyModifiers::none()).is_empty());
    a.engine.overlays.tree_drag = true;
    assert_eq!(a.commit_tree_drag(KeyModifiers::none()).len(), 2);
}

#[test]
fn copied_paths_stand_one_per_line() {
    let path = |text: &str, lossy: bool| CopiedPath { text: text.to_string(), lossy };
    assert_eq!(copy_paths_command(&vec![], true), None);
    assert_eq!(
        copy_paths_command(&vec![path("a", false), path("b", false)], true),
        Some(AppCommand::CopyToClipboard {
            text: "a\nb".to_string(),
            success: Some(Toast::info(ToastText::CopyRelativePathDone(2))),
            failure: Toast::error(ToastText::CopyPathFailed),
        })
    );
    assert_eq!(
        copy_paths_command(&vec![path("a", true)], false),
        Some(AppCommand::CopyToClipboard {
            text: "a".to_string(),
            success: Some(Toast::warn(ToastText::CopyPathLossy)),
            failure: Toast::error(ToastText::CopyPathFailed),
        })
    );
}

#[test]
fn actions_are_meant_for_the_selection() {
    let mut a = app();
    a.engine.tree.entries = vec![entry("d", "", true), entry("d/x", "d", false)];
    a.engine.tree.selected = 1;
    assert_eq!(a.effective_path_set(), PathSet::Entry(1));
    assert_eq!(a.effective_action_paths(), vec!["d/x"]);
    assert_eq!(a.paste_target_dir(), "d");
    a.engine.tree.selection = vec!["d/x".to_string(), "d".to_string()];
    assert_eq!(a.effective_path_set(), PathSet::Selection);
    a.engine.tree.selection = vec!["d".to_string()];
    assert_eq!(a.effective_path_set(), PathSet::Entry(1));
    a.engine.tree.selected = 9;
    assert_eq!(a.effective_path_set(), PathSet::Nothing);
}

#[test]
fn menu_items_act_on_the_clicked_entry() {
    let mut a = app();
    a.engine.tree.entries = vec![entry("d", "", true), entry("d/x", "d", false)];
    a.engine.tree.menu_target = Some(1);
    let effects = a.dispatch_context_menu_item(ContextMenuItem::Rename);
    assert!(effects.contains(&Effect::Run(AppCommand::BeginTreeEdit {
        mode: TreeEditMode::Rename,
        parent_dir: Some("d".to_string()),
        rename_target: Some("d/x".to_string()),
        anchor_idx: Some(1),
    })));
}

#[test]
fn clicks_do_what_they_say() {
    let mut a = app();
    assert_eq!(
        a.handle_action(ClickAction::SwitchTab(Tab::Git)),
        vec![
            Effect::Run(AppCommand::SetActiveTab(Tab::Git)),
            Effect::Then(Resume::RuntimeEvents)
        ]
    );
    a.handle_action(ClickAction::StartDragSplit);
    assert!(a.dragging_split);
}

#[test]
fn events_reach_the_terminal() {
    let mut a = app();
    a.dragging_split = true;
    let effects = a.apply_runtime_event(RuntimeEvent::SidebarToggled {
        hidden: true,
        cancel_split_drags: true,
        show_hidden_hint: true,
    });
    assert!(!a.dragging_split);
    assert_eq!(
        effects,
        vec![Effect::Run(AppCommand::PushToast(Toast::info(ToastText::SidebarHiddenHint)))]
    );
    let push = a.apply_runtime_event(RuntimeEvent::PushDone { force: true, outcome: Ok(()) });
    assert_eq!(
        push,
        vec![Effect::Run(AppCommand::PushToast(Toast::info(ToastText::ForcePushSuccess)))]
    );
    let failed = a.apply_runtime_event(RuntimeEvent::CommitDone(Err("no".to_string())));
    assert_eq!(
        failed,
        vec![Effect::Run(AppCommand::PushToast(Toast::error(ToastText::CommitFailed(
            "no".to_string()
        ))))]
    );
    let notice = a.apply_runtime_event(RuntimeEvent::FileActionNotice(
        FileActionNotice::PasteCancelled,
    ));
    assert_eq!(
        notice,
        vec![Effect::Run(AppCommand::PushToast(Toast::info(ToastText::PasteCancelled)))]
    );
    let cleared = a.apply_runtime_event(RuntimeEvent::ClearCommitGraphSearch);
    assert_eq!(
        cleared,
        vec![Effect::Run(AppCommand::ClearVimSearchIfTarget(SearchTarget::CommitGraph))]
    );
}

#[test]
fn jumps_carry_their_places() {
    let mut a = app();
    let here = FilePlace { path: "src/a.rs".to_string(), line: 3, byte: 7 };
    let there = FilePlace { path: "src/b.rs".to_string(), line: 10, byte: 0 };
    let jump = a.apply_runtime_event(RuntimeEvent::LspRefineJump {
        origin: here.clone(),
        location: there.clone(),
    });
    assert_eq!(
        jump,
        vec![Effect::NavPushBackAndJump { origin: here.clone(), location: there }]
    );
    let back = a.apply_runtime_event(RuntimeEvent::LocationJumped {
        restore_preview_cursor: Some(here.clone()),
        clear_commit_detail_selection: false,
        clear_diff_selection: false,
    });
    assert_eq!(back, vec![Effect::RestorePreviewCursor(here)]);
    let plain = a.apply_runtime_event(RuntimeEvent::LocationJumped {
        restore_preview_cursor: None,
        clear_commit_detail_selection: true,
        clear_diff_selection: true,
    });
    assert!(plain.is_empty());
}

#[test]
fn replacements_are_summed_up() {
    let mut a = app();
    let effects = a.apply_runtime_event(RuntimeEvent::ReplaceDone(Ok(ReplaceSummary {
        lines_replaced: 4,
        files_changed: 2,
        skipped_stale: 1,
        skipped_too_large: 0,
        error_count: 3,
    })));
    assert_eq!(
        effects,
        vec![Effect::Run(AppCommand::PushToast(Toast::info(ToastText::ReplaceDone {
            lines: 4,
            files: 2,
            stale: Some(1),
            too_large: None,
            errors: Some(3),
        })))]
    );
}

#[test]
fn tab_changes_drop_chords_and_selections() {
    let mut a = app();
    a.space_leader_at = Some(at(1));
    a.diff_selection = None;
    a.preview_selection = Some(PreviewSelection::new((0, 0)));
    let outcome = TabChangeOutcome {
        changed: true,
        dismiss_confirm: true,
        clear_preview_selection: true,
        clear_commit_detail_selection: false,
        clear_diff_selection: false,
        close_find_widget: false,
        sync_search_preview: false,
    };
    assert_eq!(
        a.apply_tab_change_outcome(outcome),
        vec![Effect::Run(AppCommand::DismissConfirm)]
    );
    assert!(a.space_leader_at.is_none() && a.preview_selection.is_none());
    let nothing = TabChangeOutcome { changed: false, ..outcome };
    assert!(a.apply_tab_change_outcome(nothing).is_empty());
}

#[test]
fn images_are_built_once() {
    let mut a = app();
    let facts = || ImageFacts {
        bytes_on_disk: 10,
        width_px: 4,
        height_px: 5,
        format: "png".to_string(),
    };
    let arrival = |decoded: bool| PreviewArrival::Document {
        path: "x.png".to_string(),
        image: Some(facts()),
        decoded,
    };
    assert_eq!(a.plan_image(&arrival(true)), ImagePlan::Drop);
    a.has_image_picker = true;
    assert_eq!(a.plan_image(&arrival(true)), ImagePlan::Build);
    a.has_image_protocol = true;
    a.engine.preview.kind = PreviewKind::Image;
    a.engine.preview.path = "x.png".to_string();
    a.engine.preview.image = Some(facts());
    assert_eq!(a.plan_image(&arrival(true)), ImagePlan::Keep);
    a.engine.preview.path = "y.png".to_string();
    assert_eq!(a.plan_image(&arrival(true)), ImagePlan::Build);
    assert_eq!(a.plan_image(&arrival(false)), ImagePlan::Drop);
}

#[test]
fn activity_is_put_into_words() {
    let activity = |loading: bool, error: Option<&str>| Activity {
        label: "git".to_string(),
        loading,
        error: error.map(|e| e.to_string()),
    };
    assert_eq!(activity_text(&activity(true, Some("x"))), "git refreshing…");
    assert_eq!(activity_text(&activity(false, Some("x"))), "git error: x");
    assert_eq!(activity_text(&activity(false, None)), "git stale");
}

#[test]
fn edges_of_panels_are_jumped_to() {
    let mut a = app();
    a.engine.active_tab = Tab::Git;
    a.engine.active_panel = Panel::Diff;
    assert_eq!(
        a.scroll_active_preview_to_top(),
        vec![Effect::Run(AppCommand::SetDiffVerticalScroll(0))]
    );
    assert_eq!(
        a.scroll_active_preview_to_bottom(),
        vec![Effect::Run(AppCommand::SetDiffVerticalScroll(usize::MAX))]
    );
    a.engine.active_tab = Tab::Files;
    a.engine.preview.kind = PreviewKind::Database;
    assert!(a.scroll_active_preview_to_top().is_empty());
}

#[test]
fn graph_scopes_are_saved_and_loaded() {
    let scope = GraphScope::Branch("refs/heads/main".to_string());
    let recent = vec!["refs/heads/a".to_string(), "refs/heads/b".to_string()];
    let (value, list) = persist_graph_scope(&scope, &recent);
    let loaded = load_graph_scope_pref(Some(&value), Some(&list), 5);
    assert_eq!(loaded.scope, scope);
    assert_eq!(loaded.recent, recent);
    assert_eq!(parse_graph_scope(None), GraphScope::AllRefs);
    assert_eq!(parse_graph_scope(Some(&graph_scope_value(&GraphScope::AllRefs))), GraphScope::AllRefs);
    assert_eq!(shorthand_for_full_ref("refs/heads/x/y"), "x/y");
    assert_eq!(shorthand_for_full_ref("refs/remotes/origin/x"), "origin/x");
    assert_eq!(load_prefs(None, None), (DiffLayout::Unified, DiffMode::Compact));
}

#[test]
fn recent_targets_are_saved_and_loaded() {
    let targets = vec!["a@b".to_string(), "c".to_string(), "d:/x".to_string()];
    let raw = save_recent(&targets, 2);
    assert_eq!(load_recent(Some(&raw), 9), vec!["a@b", "c"]);
    assert_eq!(load_recent(None, 9), Vec::<String>::new());
}

#[test]
fn searches_see_the_rows_on_screen() {
    let rows = SearchRows {
        file_names: vec!["f".to_string()],
        staged: vec!["s".to_string()],
        unstaged: vec!["u".to_string()],
        subjects: Vec::new(),
        preview: Some(vec!["p".to_string()]),
        diff: Some(DiffRows {
            unified: vec![
                DiffRowText::Separator,
                DiffRowText::Header("@@".to_string()),
                DiffRowText::Unified("+x".to_string()),
            ],
            side_by_side: vec![DiffRowText::Sbs {
                left: "l".to_string(),
                right: "r".to_string(),
            }],
        }),
        graph_diff: None,
        commit_details: Vec::new(),
    };
    assert_eq!(rows.collect_rows(SearchTarget::GitStatus), vec!["s", "u"]);
    assert_eq!(rows.collect_rows(SearchTarget::Diff), vec!["", "@@", "+x"]);
    assert_eq!(rows.collect_find_rows(FindTarget::DiffSbsRight), vec!["r"]);
    assert_eq!(rows.collect_find_rows(FindTarget::GraphDiffUnified), Vec::<String>::new());
}

#[test]
fn clicks_are_counted_and_select() {
    let first = ClickState { at: at(0), column: 3, row: 4, count: 1 };
    assert_eq!(count_click(Some(first), at(399), 3, 4), 2);
    assert_eq!(count_click(Some(first), at(400), 3, 4), 1);
    assert_eq!(count_click(Some(ClickState { count: 3, ..first }), at(10), 3, 4), 3);
    assert_eq!(count_click(None, at(0), 3, 4), 1);
    let pick = TextPick { row: 7, byte: 5, word_start: 4, word_end: 9, row_len: 20 };
    assert_eq!(start_selection(1, pick).anchor, (7, 5));
    assert_eq!(start_selection(2, pick).active, (7, 9));
    assert_eq!(start_selection(3, pick).active, (7, 20));
    let once = remember_click(false, at(0), 1, 1);
    assert!(is_double_click(once, at(100), 1, 1));
    assert!(remember_click(true, at(100), 1, 1).is_none());
}

#[test]
fn columns_stay_on_their_side() {
    let hit = DiffHit {
        row_count: 10,
        layout: DiffLayout::SideBySide,
        scroll: 0,
        content_y: 2,
        right_start_x: 40,
    };
    assert_eq!(clamp_col_to_side(&hit, 50, DiffSide::SbsLeft), 39);
    assert_eq!(clamp_col_to_side(&hit, 10, DiffSide::SbsRight), 40);
    assert_eq!(clamp_col_to_side(&hit, 10, DiffSide::Unified), 10);
    assert_eq!(mouse_to_text_cell(5, 2, 8, (6, 3), 10, 4), Some((6, 6)));
    assert_eq!(mouse_to_text_cell(5, 2, 8, (6, 3), 0, 99), Some((7, 2)));
    assert_eq!(mouse_to_text_cell(0, 0, 0, (0, 0), 0, 0), None);
}

#[test]
fn measurements_hold_for_the_page_they_were_taken_of() {
    let orders = DbObjectKey { schema: "main".to_string(), name: "orders".to_string(), kind: 0 };
    let users = DbObjectKey { schema: "main".to_string(), name: "users".to_string(), kind: 0 };
    let path = "shop.db".to_string();
    let cache = DbPreviewLayoutCache::rebuild(&path, &orders, 2, 50, vec![4, 9], 18);
    assert_eq!(cache.col_widths, vec![4, 9]);
    assert_eq!(cache.total_table_w, 18);
    assert!(cache.matches(&path, &orders, 2, 50));
    assert!(!cache.matches(&path, &users, 2, 50));
    assert!(!cache.matches(&path, &orders, 3, 50));
    assert!(!cache.matches(&path, &orders, 2, 49));
    assert!(!cache.matches(&"other.db".to_string(), &orders, 2, 50));
}

#[test]
fn tabs_have_names() {
    assert_eq!(tab_label(Tab::Files), Msg::TabFiles);
    assert_eq!(tab_label(Tab::Graph), Msg::TabGraph);
}

#[test]
fn folders_take_what_place_mode_carries() {
    let mut a = app();
    a.engine.tree.entries = vec![entry("src", "", true), entry("a.txt", "", false)];
    assert_eq!(
        a.handle_action(ClickAction::PlaceModeFolder(0)),
        vec![
            Effect::Run(AppCommand::RequestFileCopy {
                sources: CopySources::PlaceMode,
                dest_dir: "/p/src".to_string(),
            }),
            Effect::Then(Resume::RuntimeEvents),
        ]
    );
    let cancelled = vec![Effect::Run(AppCommand::ExitPlaceMode)];
    assert_eq!(a.handle_action(ClickAction::PlaceModeFolder(1)), cancelled);
    assert_eq!(a.handle_action(ClickAction::PlaceModeFolder(7)), cancelled);
}

#[test]
fn opened_files_are_remembered_up_to_a_limit() {
    let mut a = app();
    assert_eq!(accept(&a), vec![Effect::Run(AppCommand::CloseQuickOpen)]);
    a.engine.quick_open.has_selection = true;
    assert_eq!(
        accept(&a),
        vec![
            Effect::PushLocationBeforeJump,
            Effect::Run(AppCommand::AcceptQuickOpenSelection { mru_cap: 50 }),
            Effect::Then(Resume::RuntimeEvents),
        ]
    );
}

#[test]
fn failed_previews_leave_the_image_alone() {
    let mut a = app();
    a.has_image_protocol = true;
    a.layout.last_preview_view_h = 12;
    let effects = a.apply_runtime_event(RuntimeEvent::PreviewResult {
        generation: 3,
        arrival: PreviewArrival::Failed,
    });
    assert!(a.has_image_protocol);
    assert_eq!(
        effects,
        vec![
            Effect::ApplyPreviewResult { generation: 3, preview_view_h: 12 },
            Effect::Then(Resume::RuntimeEvents),
        ]
    );
}

#[test]
fn failed_reveals_are_told_apart() {
    let a = app();
    let unsupported = "reveal is not supported on this platform".to_string();
    assert_eq!(
        a.reveal_failed(unsupported),
        vec![Effect::Run(AppCommand::PushToast(Toast::error(ToastText::RevealUnsupported)))]
    );
    assert_eq!(
        a.reveal_failed("exit status 1".to_string()),
        vec![Effect::Run(AppCommand::PushToast(Toast::error(ToastText::RevealFailed(
            "exit status 1".to_string()
        ))))]
    );
}

#[test]
fn searches_look_where_the_columns_say() {
    let mut a = app();
    a.engine.active_tab = Tab::Graph;
    a.engine.graph.file_diff_loaded = true;
    a.engine.vim_search.three_column_target = Some(SearchTarget::CommitGraph);
    a.engine.vim_search.other_target = Some(SearchTarget::FilePreview);
    a.layout.last_total_width = 20;
    assert!(!a.graph_uses_three_col());
    assert_eq!(resolve_target(&a), Some(SearchTarget::FilePreview));
    a.layout.last_total_width = 400;
    assert!(a.graph_uses_three_col());
    assert_eq!(
        begin(&a, true),
        vec![Effect::Run(AppCommand::BeginVimSearch {
            target: SearchTarget::CommitGraph,
            backwards: true
        })]
    );
    a.engine.vim_search.three_column_target = None;
    assert!(begin(&a, false).is_empty());
}

#[test]
fn frames_keep_clicks() {
    let mut a = app();
    assert!(a.handle_action(ClickAction::NavCandidatesCapture).is_empty());
    assert_eq!(
        a.handle_action(ClickAction::NavCandidateGroupToggle(3)),
        vec![Effect::NavToggleCandidateGroup(3)]
    );
}
