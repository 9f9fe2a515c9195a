//! What the keys of each tab ask for, where nothing else has the keyboard.

use crate::app::TuiApp;
use crate::command::{AppCommand, DbNav, Effect, Resume, StatusKey, TreeEditMode};
use crate::engine::{Panel, PreviewKind, SearchPanelFocus, SearchTarget, Tab, ViewMode};
use crate::event::{KeyCode, KeyEvent, KeyModifiers};
use crate::input::keys::{key_spec, tab_key_spec};
use crate::laws::bindings::keys_of_normal;
use crate::laws::held::{alt, ctrl, ctrl_alt, plain, shift};
use crate::time::Timestamp;
use vstd::prelude::*;

verus! {

/// Whether the tab that is open has the keyboard: no overlay is up, no text is typed, and
/// no key waits for a second one.
pub open spec fn tab_has_the_keys(app: TuiApp) -> bool {
    let overlays = app.engine.overlays;
    &&& !overlays.db_goto && !overlays.hosts_picker && !overlays.graph_branch_picker
    &&& !overlays.global_search && !overlays.quick_open && !overlays.tree_edit
    &&& !overlays.tree_context_menu && !overlays.nav_candidates && !overlays.paste_conflict
    &&& !overlays.place_mode && !overlays.tree_drag && !overlays.commit_editor
    &&& !overlays.search_input && !app.engine.commit_editing
    &&& !app.engine.find_widget.active && !app.engine.vim_search.active
    &&& app.engine.confirm is None && app.engine.view_mode == ViewMode::Main
    &&& app.space_leader_at is None && app.g_pending_at is None
}

/// A key that begins no chord goes to the tab.
proof fn lemma_tab_gets(
    key: KeyEvent,
    app: TuiApp,
    now: Timestamp,
    selected_text: Option<String>,
)
    requires
        tab_has_the_keys(app),
        key.code != KeyCode::Char('g'),
        key.code != KeyCode::Char('G'),
        key != plain(KeyCode::Char(' ')),
    ensures
        key_spec(key, app, now, selected_text) == tab_key_spec(key, app, now),
{
    assert((TuiApp { g_pending_at: None, ..app }) == app);
}

/// On the Git tab a letter asks for its action on the selected file and for nothing else:
/// `s` stages, `u` takes out of the index, `d` discards, `y` says yes, `r` reads the
/// state again, `t` switches between list and tree, and `e` and Enter open the file in
/// the editor.
pub proof fn git_keys_act_on_the_status(
    key: KeyEvent,
    app: TuiApp,
    now: Timestamp,
    selected_text: Option<String>,
)
    requires
        tab_has_the_keys(app),
        app.engine.active_tab == Tab::Git,
    ensures
        ({
            let asked = key_spec(key, app, now, selected_text);
            &&& key.code == KeyCode::Char('s') ==> asked == (
                    app,
                    seq![Effect::GitStatusKey(StatusKey::Stage)],
                )
            &&& key.code == KeyCode::Char('u') ==> asked == (
                    app,
                    seq![Effect::GitStatusKey(StatusKey::Unstage)],
                )
            &&& key.code == KeyCode::Char('d') ==> asked == (
                    app,
                    seq![Effect::GitStatusKey(StatusKey::Discard)],
                )
            &&& key.code == KeyCode::Char('y') ==> asked == (
                    app,
                    seq![Effect::GitStatusKey(StatusKey::Yes)],
                )
            &&& key.code == KeyCode::Char('r') ==> asked == (
                    app,
                    seq![Effect::GitStatusKey(StatusKey::Refresh)],
                )
            &&& key.code == KeyCode::Char('t') ==> asked == (
                    app,
                    seq![Effect::GitStatusKey(StatusKey::TreeMode)],
                )
            &&& (key.code == KeyCode::Char('e') || key.code == KeyCode::Enter) ==> asked == (
                    app,
                    seq![Effect::Run(AppCommand::RequestEditSelectedGitFile)],
                )
        }),
{
    if key.code != KeyCode::Char('g') && key.code != KeyCode::Char('G') && key != plain(
        KeyCode::Char(' '),
    ) {
        lemma_tab_gets(key, app, now, selected_text);
        keys_of_normal(key);
    }
}

/// On the Git tab `n` says no, unless a search can be stepped through and no question is
/// open. Escape drops the matches of a search in this panel, goes back to the list from
/// the diff, and from the list gives up what the list was asked. `m` and `f` change how
/// the diff is shown, save that, and drop the selection in it.
pub proof fn git_keys_answer_and_leave(
    key: KeyEvent,
    app: TuiApp,
    now: Timestamp,
    selected_text: Option<String>,
)
    requires
        tab_has_the_keys(app),
        app.engine.active_tab == Tab::Git,
    ensures
        ({
            let asked = key_spec(key, app, now, selected_text);
            &&& key == plain(KeyCode::Char('n')) && (!app.engine.vim_search.can_step
                || app.engine.git_confirm_prompt) ==> asked == (
                    app,
                    seq![Effect::GitStatusKey(StatusKey::No)],
                )
            &&& key == plain(KeyCode::Char('n')) && app.engine.vim_search.can_step
                && !app.engine.git_confirm_prompt ==> asked == (
                    app,
                    seq![
                        Effect::Run(
                            AppCommand::StepVimSearch {
                                reverse: false,
                                dark: app.theme.is_dark,
                                viewport: app.viewport(),
                            },
                        ),
                    ],
                )
            &&& key.code == KeyCode::Esc && !app.engine.vim_search.has_matches
                && app.engine.active_panel == Panel::Files ==> asked == (
                    app,
                    seq![Effect::GitStatusKey(StatusKey::Escape)],
                )
            &&& key.code == KeyCode::Esc && !app.engine.vim_search.has_matches
                && app.engine.active_panel != Panel::Files ==> asked == (
                    app,
                    seq![
                        Effect::Run(AppCommand::SetActivePanel(Panel::Files)),
                        Effect::Run(AppCommand::ClearVimSearch),
                    ],
                )
            &&& key.code == KeyCode::Esc && app.engine.vim_search.has_matches
                && app.engine.vim_search.target == app.engine.vim_search.other_target ==> asked == (
                    app,
                    seq![Effect::Run(AppCommand::ClearVimSearch)],
                )
            &&& key.code == KeyCode::Char('m') && !key.modifiers.control ==> asked == (
                    TuiApp { diff_selection: None, diff_click_state: None, ..app },
                    seq![Effect::Run(AppCommand::ToggleDiffLayout), Effect::SaveDiffPrefs],
                )
            &&& key.code == KeyCode::Char('f') && !key.modifiers.control ==> asked == (
                    TuiApp { diff_selection: None, diff_click_state: None, ..app },
                    seq![
                        Effect::Run(AppCommand::ToggleDiffMode { dark: app.theme.is_dark }),
                        Effect::SaveDiffPrefs,
                    ],
                )
        }),
{
    if key.code != KeyCode::Char('g') && key.code != KeyCode::Char('G') && key != plain(
        KeyCode::Char(' '),
    ) {
        lemma_tab_gets(key, app, now, selected_text);
        keys_of_normal(key);
    }
}

/// On the Git tab the keys that move go one row or ten rows through the list of files,
/// and one row or twenty through the diff, up or down.
pub proof fn git_moves(
    key: KeyEvent,
    app: TuiApp,
    now: Timestamp,
    selected_text: Option<String>,
)
    requires
        tab_has_the_keys(app),
        app.engine.active_tab == Tab::Git,
    ensures
        ({
            let asked = key_spec(key, app, now, selected_text);
            &&& key.code == KeyCode::Up && app.engine.active_panel == Panel::Files
                && !key.modifiers.control ==> asked == (
                    app,
                    seq![Effect::Run(AppCommand::NavigateGitFiles((-1) as i32))],
                )
            &&& (key.code == KeyCode::Char('k') || key == ctrl(KeyCode::Char('p')))
                && app.engine.active_panel == Panel::Files ==> asked == (
                    app,
                    seq![Effect::Run(AppCommand::NavigateGitFiles((-1) as i32))],
                )
            &&& key.code == KeyCode::Down && app.engine.active_panel == Panel::Files
                && !key.modifiers.control ==> asked == (
                    app,
                    seq![Effect::Run(AppCommand::NavigateGitFiles(1))],
                )
            &&& (key.code == KeyCode::Char('j') || key == ctrl(KeyCode::Char('n')))
                && app.engine.active_panel == Panel::Files ==> asked == (
                    app,
                    seq![Effect::Run(AppCommand::NavigateGitFiles(1))],
                )
            &&& key.code == KeyCode::PageUp && app.engine.active_panel == Panel::Files ==> asked == (
                    app,
                    seq![Effect::Run(AppCommand::NavigateGitFiles((-10) as i32))],
                )
            &&& key.code == KeyCode::PageDown && app.engine.active_panel == Panel::Files ==> asked == (
                    app,
                    seq![Effect::Run(AppCommand::NavigateGitFiles(10))],
                )
            &&& key.code == KeyCode::Up && app.engine.active_panel != Panel::Files
                && !key.modifiers.control ==> asked == (
                    app,
                    seq![Effect::Run(AppCommand::DiffScroll((-1) as i32))],
                )
            &&& (key.code == KeyCode::Char('k') || key == ctrl(KeyCode::Char('p')))
                && app.engine.active_panel != Panel::Files ==> asked == (
                    app,
                    seq![Effect::Run(AppCommand::DiffScroll((-1) as i32))],
                )
            &&& key.code == KeyCode::Down && app.engine.active_panel != Panel::Files
                && !key.modifiers.control ==> asked == (
                    app,
                    seq![Effect::Run(AppCommand::DiffScroll(1))],
                )
            &&& (key.code == KeyCode::Char('j') || key == ctrl(KeyCode::Char('n')))
                && app.engine.active_panel != Panel::Files ==> asked == (
                    app,
                    seq![Effect::Run(AppCommand::DiffScroll(1))],
                )
            &&& key.code == KeyCode::PageUp && app.engine.active_panel != Panel::Files ==> asked == (
                    app,
                    seq![Effect::Run(AppCommand::DiffScroll((-20) as i32))],
                )
            &&& key.code == KeyCode::PageDown && app.engine.active_panel != Panel::Files ==> asked == (
                    app,
                    seq![Effect::Run(AppCommand::DiffScroll(20))],
                )
        }),
{
    if key.code != KeyCode::Char('g') && key.code != KeyCode::Char('G') && key != plain(
        KeyCode::Char(' '),
    ) {
        lemma_tab_gets(key, app, now, selected_text);
        keys_of_normal(key);
    }
}

/// On the Git tab the keys that go sideways move the diff, where it has the focus: by a
/// column, by ten with Shift, to its left end and to its right end. In the list they do
/// nothing.
pub proof fn git_pans(
    key: KeyEvent,
    app: TuiApp,
    now: Timestamp,
    selected_text: Option<String>,
)
    requires
        tab_has_the_keys(app),
        app.engine.active_tab == Tab::Git,
    ensures
        ({
            let asked = key_spec(key, app, now, selected_text);
            &&& key.code == KeyCode::Left && app.engine.active_panel == Panel::Diff
                && !key.modifiers.alt && !key.modifiers.shift ==> asked == (
                    app,
                    seq![Effect::Run(AppCommand::DiffHorizontalScroll((-1) as i32))],
                )
            &&& key.code == KeyCode::Left && app.engine.active_panel == Panel::Diff
                && !key.modifiers.alt && key.modifiers.shift ==> asked == (
                    app,
                    seq![Effect::Run(AppCommand::DiffHorizontalScroll((-10) as i32))],
                )
            &&& key.code == KeyCode::Right && app.engine.active_panel == Panel::Diff
                && !key.modifiers.alt && !key.modifiers.shift ==> asked == (
                    app,
                    seq![Effect::Run(AppCommand::DiffHorizontalScroll(1))],
                )
            &&& key.code == KeyCode::Right && app.engine.active_panel == Panel::Diff
                && !key.modifiers.alt && key.modifiers.shift ==> asked == (
                    app,
                    seq![Effect::Run(AppCommand::DiffHorizontalScroll(10))],
                )
            &&& key.code == KeyCode::Home && app.engine.active_panel == Panel::Diff ==> asked == (
                    app,
                    seq![Effect::Run(AppCommand::SetDiffHorizontalScroll(0))],
                )
            &&& key.code == KeyCode::End && app.engine.active_panel == Panel::Diff ==> asked == (
                    app,
                    seq![Effect::Run(AppCommand::SetDiffHorizontalScroll(usize::MAX))],
                )
            &&& (key.code == KeyCode::Left || key.code == KeyCode::Right
                || key.code == KeyCode::Home || key.code == KeyCode::End)
                && app.engine.active_panel != Panel::Diff && !key.modifiers.alt ==> asked == (
                    app,
                    Seq::<Effect>::empty(),
                )
        }),
{
    if key.code != KeyCode::Char('g') && key.code != KeyCode::Char('G') && key != plain(
        KeyCode::Char(' '),
    ) {
        lemma_tab_gets(key, app, now, selected_text);
        keys_of_normal(key);
    }
}

/// In the file tree `y` copies, `x` cuts and `p` pastes, and so do Control and Shift with
/// `c`, `x` and `v`. `D` copies beside the selection, `s` selects the row or takes it out
/// of the selection, and Shift with an arrow selects the next row too.
pub proof fn tree_keys_use_the_clipboard(
    key: KeyEvent,
    app: TuiApp,
    now: Timestamp,
    selected_text: Option<String>,
)
    requires
        tab_has_the_keys(app),
        app.engine.active_tab == Tab::Files,
        app.engine.active_panel == Panel::Files,
    ensures
        ({
            let asked = key_spec(key, app, now, selected_text);
            &&& key == plain(KeyCode::Char('y')) ==> asked == (
                    app,
                    seq![Effect::Run(AppCommand::MarkCopy(app.action_set()))],
                )
            &&& key == plain(KeyCode::Char('x')) ==> asked == (
                    app,
                    seq![Effect::Run(AppCommand::MarkCut(app.action_set()))],
                )
            &&& key == plain(KeyCode::Char('p')) ==> asked == (
                    app,
                    seq![
                        Effect::Run(AppCommand::PasteInto(app.paste_dest_spec())),
                        Effect::Then(Resume::RuntimeEvents),
                    ],
                )
            &&& (key.code == KeyCode::Char('c') || key.code == KeyCode::Char('C'))
                && key.modifiers.control && key.modifiers.shift ==> asked == (
                    app,
                    seq![Effect::Run(AppCommand::MarkCopy(app.action_set()))],
                )
            &&& (key.code == KeyCode::Char('x') || key.code == KeyCode::Char('X'))
                && key.modifiers.control && key.modifiers.shift ==> asked == (
                    app,
                    seq![Effect::Run(AppCommand::MarkCut(app.action_set()))],
                )
            &&& (key.code == KeyCode::Char('v') || key.code == KeyCode::Char('V'))
                && key.modifiers.control && key.modifiers.shift ==> asked == (
                    app,
                    seq![
                        Effect::Run(AppCommand::PasteInto(app.paste_dest_spec())),
                        Effect::Then(Resume::RuntimeEvents),
                    ],
                )
            &&& key.code == KeyCode::Char('D') && !key.modifiers.control && !key.modifiers.alt ==> asked == (
                    app,
                    seq![
                        Effect::Run(AppCommand::DuplicateSelection),
                        Effect::Then(Resume::RuntimeEvents),
                    ],
                )
            &&& key == plain(KeyCode::Char('s')) ==> asked == (
                    app,
                    seq![Effect::Run(AppCommand::ToggleCurrentFileSelection)],
                )
            &&& key == shift(KeyCode::Up) ==> asked == (
                    app,
                    seq![Effect::Run(AppCommand::ExtendFileSelectionAfterTreeNav((-1) as i32))],
                )
            &&& key == shift(KeyCode::Down) ==> asked == (
                    app,
                    seq![Effect::Run(AppCommand::ExtendFileSelectionAfterTreeNav(1))],
                )
        }),
{
    if key.code != KeyCode::Char('g') && key.code != KeyCode::Char('G') && key != plain(
        KeyCode::Char(' '),
    ) {
        lemma_tab_gets(key, app, now, selected_text);
        keys_of_normal(key);
    }
}

/// In the file tree Enter opens the row, `r` reads the tree again, `e` opens the file in
/// the editor, F2 renames the row, and Delete, Backspace and `d` ask before the row is
/// deleted: for good where Shift is held with Delete or Backspace, and into the trash
/// otherwise.
pub proof fn tree_keys_act_on_the_entry(
    key: KeyEvent,
    app: TuiApp,
    now: Timestamp,
    selected_text: Option<String>,
)
    requires
        tab_has_the_keys(app),
        app.engine.active_tab == Tab::Files,
        app.engine.active_panel == Panel::Files,
        app.engine.tree.selected < app.engine.tree.entries@.len(),
    ensures
        ({
            let asked = key_spec(key, app, now, selected_text);
            &&& key.code == KeyCode::Enter ==> asked == (
                    app,
                    seq![Effect::Run(AppCommand::ActivateSelectedFileTreeEntry)],
                )
            &&& key.code == KeyCode::Char('r') ==> asked == (
                    app,
                    seq![Effect::Run(AppCommand::RefreshFileTree)],
                )
            &&& key.code == KeyCode::Char('e') ==> asked == (
                    app,
                    seq![Effect::Run(AppCommand::RequestEditSelectedFileTreeEntry)],
                )
            &&& key.code == KeyCode::F(2) ==> asked == (
                    app,
                    seq![
                        Effect::Run(
                            AppCommand::BeginTreeEdit {
                                mode: TreeEditMode::Rename,
                                parent_dir: Some(app.engine.tree.entries@[app.engine.tree.selected as int].parent),
                                rename_target: Some(app.engine.tree.entries@[app.engine.tree.selected as int].path),
                                anchor_idx: Some(app.engine.tree.selected),
                            },
                        ),
                        Effect::Then(Resume::RuntimeEvents),
                    ],
                )
            &&& (key.code == KeyCode::Delete || key.code == KeyCode::Backspace) ==> asked == (
                    app,
                    seq![
                        Effect::Run(AppCommand::CloseTreeContextMenu),
                        Effect::Run(
                            AppCommand::RequestTreeDeleteConfirm {
                                path: app.engine.tree.entries@[app.engine.tree.selected as int].abs_path,
                                is_dir: app.engine.tree.entries@[app.engine.tree.selected as int].is_dir,
                                hard: key.modifiers.shift,
                            },
                        ),
                    ],
                )
            &&& key == plain(KeyCode::Char('d')) ==> asked == (
                    app,
                    seq![
                        Effect::Run(AppCommand::CloseTreeContextMenu),
                        Effect::Run(
                            AppCommand::RequestTreeDeleteConfirm {
                                path: app.engine.tree.entries@[app.engine.tree.selected as int].abs_path,
                                is_dir: app.engine.tree.entries@[app.engine.tree.selected as int].is_dir,
                                hard: false,
                            },
                        ),
                    ],
                )
        }),
{
    if key.code != KeyCode::Char('g') && key.code != KeyCode::Char('G') && key != plain(
        KeyCode::Char(' '),
    ) {
        lemma_tab_gets(key, app, now, selected_text);
        keys_of_normal(key);
    }
}

/// On the Files tab the keys that move go one row or ten rows through the tree, and one
/// row or twenty through the preview, up or down.
pub proof fn files_moves(
    key: KeyEvent,
    app: TuiApp,
    now: Timestamp,
    selected_text: Option<String>,
)
    requires
        tab_has_the_keys(app),
        app.engine.active_tab == Tab::Files,
    ensures
        ({
            let asked = key_spec(key, app, now, selected_text);
            &&& key.code == KeyCode::Up && app.engine.active_panel == Panel::Files
                && !key.modifiers.control && !key.modifiers.shift ==> asked == (
                    app,
                    seq![Effect::Run(AppCommand::NavigateFileTree((-1) as i32))],
                )
            &&& (key.code == KeyCode::Char('k') || key == ctrl(KeyCode::Char('p')))
                && app.engine.active_panel == Panel::Files ==> asked == (
                    app,
                    seq![Effect::Run(AppCommand::NavigateFileTree((-1) as i32))],
                )
            &&& key.code == KeyCode::Down && app.engine.active_panel == Panel::Files
                && !key.modifiers.control && !key.modifiers.shift ==> asked == (
                    app,
                    seq![Effect::Run(AppCommand::NavigateFileTree(1))],
                )
            &&& (key.code == KeyCode::Char('j') || key == ctrl(KeyCode::Char('n')))
                && app.engine.active_panel == Panel::Files ==> asked == (
                    app,
                    seq![Effect::Run(AppCommand::NavigateFileTree(1))],
                )
            &&& key.code == KeyCode::PageUp && app.engine.active_panel == Panel::Files ==> asked == (
                    app,
                    seq![Effect::Run(AppCommand::NavigateFileTree((-10) as i32))],
                )
            &&& key.code == KeyCode::PageDown && app.engine.active_panel == Panel::Files ==> asked == (
                    app,
                    seq![Effect::Run(AppCommand::NavigateFileTree(10))],
                )
            &&& key.code == KeyCode::Up && app.engine.active_panel != Panel::Files
                && !key.modifiers.control ==> asked == (
                    app,
                    seq![Effect::Run(AppCommand::PreviewScroll((-1) as i32))],
                )
            &&& (key.code == KeyCode::Char('k') || key == ctrl(KeyCode::Char('p')))
                && app.engine.active_panel != Panel::Files ==> asked == (
                    app,
                    seq![Effect::Run(AppCommand::PreviewScroll((-1) as i32))],
                )
            &&& key.code == KeyCode::Down && app.engine.active_panel != Panel::Files
                && !key.modifiers.control ==> asked == (
                    app,
                    seq![Effect::Run(AppCommand::PreviewScroll(1))],
                )
            &&& (key.code == KeyCode::Char('j') || key == ctrl(KeyCode::Char('n')))
                && app.engine.active_panel != Panel::Files ==> asked == (
                    app,
                    seq![Effect::Run(AppCommand::PreviewScroll(1))],
                )
            &&& key.code == KeyCode::PageUp && app.engine.active_panel != Panel::Files
                && app.engine.preview.kind != PreviewKind::Database ==> asked == (
                    app,
                    seq![Effect::Run(AppCommand::PreviewScroll((-20) as i32))],
                )
            &&& key.code == KeyCode::PageDown && app.engine.active_panel != Panel::Files
                && app.engine.preview.kind != PreviewKind::Database ==> asked == (
                    app,
                    seq![Effect::Run(AppCommand::PreviewScroll(20))],
                )
        }),
{
    if key.code != KeyCode::Char('g') && key.code != KeyCode::Char('G') && key != plain(
        KeyCode::Char(' '),
    ) {
        lemma_tab_gets(key, app, now, selected_text);
        keys_of_normal(key);
    }
}

/// On the Files tab the keys that go sideways move the preview, where it has the focus:
/// by a column, by ten with Shift, to its left end and to its right end. In the tree they
/// do nothing.
pub proof fn files_pans(
    key: KeyEvent,
    app: TuiApp,
    now: Timestamp,
    selected_text: Option<String>,
)
    requires
        tab_has_the_keys(app),
        app.engine.active_tab == Tab::Files,
    ensures
        ({
            let asked = key_spec(key, app, now, selected_text);
            &&& key.code == KeyCode::Left && app.engine.active_panel == Panel::Diff
                && !key.modifiers.alt && !key.modifiers.shift ==> asked == (
                    app,
                    seq![Effect::Run(AppCommand::PreviewHorizontalScroll((-1) as i32))],
                )
            &&& key.code == KeyCode::Left && app.engine.active_panel == Panel::Diff
                && !key.modifiers.alt && key.modifiers.shift ==> asked == (
                    app,
                    seq![Effect::Run(AppCommand::PreviewHorizontalScroll((-10) as i32))],
                )
            &&& key.code == KeyCode::Right && app.engine.active_panel == Panel::Diff
                && !key.modifiers.alt && !key.modifiers.shift ==> asked == (
                    app,
                    seq![Effect::Run(AppCommand::PreviewHorizontalScroll(1))],
                )
            &&& key.code == KeyCode::Right && app.engine.active_panel == Panel::Diff
                && !key.modifiers.alt && key.modifiers.shift ==> asked == (
                    app,
                    seq![Effect::Run(AppCommand::PreviewHorizontalScroll(10))],
                )
            &&& key.code == KeyCode::Home && app.engine.active_panel == Panel::Diff
                && !key.modifiers.control ==> asked == (
                    app,
                    seq![Effect::Run(AppCommand::SetPreviewHorizontalScroll(0))],
                )
            &&& key.code == KeyCode::End && app.engine.active_panel == Panel::Diff
                && !key.modifiers.control ==> asked == (
                    app,
                    seq![Effect::Run(AppCommand::SetPreviewHorizontalScroll(usize::MAX))],
                )
            &&& (key.code == KeyCode::Left || key.code == KeyCode::Right
                || key.code == KeyCode::Home || key.code == KeyCode::End)
                && app.engine.active_panel != Panel::Diff && !key.modifiers.alt ==> asked == (
                    app,
                    Seq::<Effect>::empty(),
                )
        }),
{
    if key.code != KeyCode::Char('g') && key.code != KeyCode::Char('G') && key != plain(
        KeyCode::Char(' '),
    ) {
        lemma_tab_gets(key, app, now, selected_text);
        keys_of_normal(key);
    }
}

/// In the preview of a database the page keys turn its pages, Control with Home and End
/// goes to the first page and the last, and the square brackets go to the table before
/// and the table after.
pub proof fn preview_keys_turn_pages(
    key: KeyEvent,
    app: TuiApp,
    now: Timestamp,
    selected_text: Option<String>,
)
    requires
        tab_has_the_keys(app),
        app.engine.active_tab == Tab::Files,
        app.engine.active_panel == Panel::Diff,
        app.engine.preview.kind == PreviewKind::Database,
    ensures
        ({
            let asked = key_spec(key, app, now, selected_text);
            &&& key.code == KeyCode::PageUp ==> asked == (
                    app,
                    seq![Effect::Run(AppCommand::DbNavigate(DbNav::PrevPage))],
                )
            &&& key.code == KeyCode::PageDown ==> asked == (
                    app,
                    seq![Effect::Run(AppCommand::DbNavigate(DbNav::NextPage))],
                )
            &&& key.code == KeyCode::Home && key.modifiers.control ==> asked == (
                    app,
                    seq![Effect::Run(AppCommand::DbNavigate(DbNav::FirstPage))],
                )
            &&& key.code == KeyCode::End && key.modifiers.control ==> asked == (
                    app,
                    seq![Effect::Run(AppCommand::DbNavigate(DbNav::LastPage))],
                )
            &&& key.code == KeyCode::Char('[') && !key.modifiers.control ==> asked == (
                    app,
                    seq![Effect::Run(AppCommand::DbNavigate(DbNav::PrevTable))],
                )
            &&& key.code == KeyCode::Char(']') && !key.modifiers.control ==> asked == (
                    app,
                    seq![Effect::Run(AppCommand::DbNavigate(DbNav::NextTable))],
                )
        }),
{
    if key.code != KeyCode::Char('g') && key.code != KeyCode::Char('G') && key != plain(
        KeyCode::Char(' '),
    ) {
        lemma_tab_gets(key, app, now, selected_text);
        keys_of_normal(key);
    }
}

/// In the preview of a database `g` asks for a page, and nothing waits for a second key.
pub proof fn g_asks_for_a_page(app: TuiApp, now: Timestamp, selected_text: Option<String>)
    requires
        tab_has_the_keys(app),
        app.engine.active_tab == Tab::Files,
        app.engine.active_panel == Panel::Diff,
        app.engine.preview.kind == PreviewKind::Database,
    ensures
        key_spec(plain(KeyCode::Char('g')), app, now, selected_text) == (
            app,
            seq![Effect::Run(AppCommand::OpenDbGoto)],
        ),
{
    keys_of_normal(plain(KeyCode::Char('g')));
}

/// On the Files tab Escape drops the matches of a search in this panel, goes back to the
/// tree from the preview, and in the tree drops the selection.
pub proof fn escape_leaves_the_files_preview(
    key: KeyEvent,
    app: TuiApp,
    now: Timestamp,
    selected_text: Option<String>,
)
    requires
        tab_has_the_keys(app),
        app.engine.active_tab == Tab::Files,
    ensures
        ({
            let asked = key_spec(key, app, now, selected_text);
            &&& key.code == KeyCode::Esc && !app.engine.vim_search.has_matches
                && app.engine.active_panel != Panel::Files ==> asked == (
                    app,
                    seq![
                        Effect::Run(AppCommand::SetActivePanel(Panel::Files)),
                        Effect::Run(AppCommand::ClearVimSearch),
                    ],
                )
            &&& key.code == KeyCode::Esc && app.engine.vim_search.has_matches
                && app.engine.vim_search.target == app.engine.vim_search.other_target ==> asked == (
                    app,
                    seq![Effect::Run(AppCommand::ClearVimSearch)],
                )
            &&& key.code == KeyCode::Esc && !app.engine.vim_search.has_matches
                && app.engine.active_panel == Panel::Files ==> asked == (
                    app,
                    seq![Effect::Run(AppCommand::ClearFileSelection)],
                )
        }),
{
    if key.code != KeyCode::Char('g') && key.code != KeyCode::Char('G') && key != plain(
        KeyCode::Char(' '),
    ) {
        lemma_tab_gets(key, app, now, selected_text);
        keys_of_normal(key);
    }
}

/// In the commit graph the keys that move go one commit or ten, up or down. With Shift,
/// or while a range is being selected, they extend the range by as much.
pub proof fn graph_moves(
    key: KeyEvent,
    app: TuiApp,
    now: Timestamp,
    selected_text: Option<String>,
)
    requires
        tab_has_the_keys(app),
        app.engine.active_tab == Tab::Graph,
        app.engine.active_panel == Panel::Files,
    ensures
        ({
            let asked = key_spec(key, app, now, selected_text);
            &&& key.code == KeyCode::Up && !key.modifiers.shift
                && !app.engine.graph.in_visual_mode && !key.modifiers.control ==> asked == (
                    app,
                    seq![Effect::GitGraphKeys { up: true, times: 1 }],
                )
            &&& key.code == KeyCode::Up && ((key.modifiers.shift
                || app.engine.graph.in_visual_mode) && !key.modifiers.control) ==> asked == (
                    app,
                    seq![Effect::Run(AppCommand::ExtendGraphSelection((-1) as i32))],
                )
            &&& key.code == KeyCode::Char('k') && !key.modifiers.shift
                && !app.engine.graph.in_visual_mode ==> asked == (
                    app,
                    seq![Effect::GitGraphKeys { up: true, times: 1 }],
                )
            &&& key.code == KeyCode::Char('k') && (key.modifiers.shift
                || app.engine.graph.in_visual_mode) ==> asked == (
                    app,
                    seq![Effect::Run(AppCommand::ExtendGraphSelection((-1) as i32))],
                )
            &&& key.code == KeyCode::Down && !key.modifiers.shift
                && !app.engine.graph.in_visual_mode && !key.modifiers.control ==> asked == (
                    app,
                    seq![Effect::GitGraphKeys { up: false, times: 1 }],
                )
            &&& key.code == KeyCode::Down && ((key.modifiers.shift
                || app.engine.graph.in_visual_mode) && !key.modifiers.control) ==> asked == (
                    app,
                    seq![Effect::Run(AppCommand::ExtendGraphSelection(1))],
                )
            &&& key.code == KeyCode::Char('j') && !key.modifiers.shift
                && !app.engine.graph.in_visual_mode ==> asked == (
                    app,
                    seq![Effect::GitGraphKeys { up: false, times: 1 }],
                )
            &&& key.code == KeyCode::Char('j') && (key.modifiers.shift
                || app.engine.graph.in_visual_mode) ==> asked == (
                    app,
                    seq![Effect::Run(AppCommand::ExtendGraphSelection(1))],
                )
            &&& key.code == KeyCode::PageUp && !key.modifiers.shift
                && !app.engine.graph.in_visual_mode ==> asked == (
                    app,
                    seq![Effect::GitGraphKeys { up: true, times: 10 }],
                )
            &&& key.code == KeyCode::PageUp && (key.modifiers.shift
                || app.engine.graph.in_visual_mode) ==> asked == (
                    app,
                    seq![Effect::Run(AppCommand::ExtendGraphSelection((-10) as i32))],
                )
            &&& key.code == KeyCode::PageDown && !key.modifiers.shift
                && !app.engine.graph.in_visual_mode ==> asked == (
                    app,
                    seq![Effect::GitGraphKeys { up: false, times: 10 }],
                )
            &&& key.code == KeyCode::PageDown && (key.modifiers.shift
                || app.engine.graph.in_visual_mode) ==> asked == (
                    app,
                    seq![Effect::Run(AppCommand::ExtendGraphSelection(10))],
                )
        }),
{
    if key.code != KeyCode::Char('g') && key.code != KeyCode::Char('G') && key != plain(
        KeyCode::Char(' '),
    ) {
        lemma_tab_gets(key, app, now, selected_text);
        keys_of_normal(key);
    }
}

/// Right of the commit graph the keys that move scroll what has the focus, one row or
/// twenty: the details of the commit, or the diff of its file where that has a column of
/// its own.
pub proof fn graph_details_move(
    key: KeyEvent,
    app: TuiApp,
    now: Timestamp,
    selected_text: Option<String>,
)
    requires
        tab_has_the_keys(app),
        app.engine.active_tab == Tab::Graph,
    ensures
        ({
            let asked = key_spec(key, app, now, selected_text);
            &&& key.code == KeyCode::Up && app.engine.active_panel == Panel::Commit
                && !key.modifiers.control ==> asked == (
                    app,
                    seq![Effect::CommitDetailScroll((-1) as i32)],
                )
            &&& key.code == KeyCode::Up && app.engine.active_panel == Panel::Diff
                && app.graph_uses_three_col() && !key.modifiers.control ==> asked == (
                    app,
                    seq![
                        Effect::Run(AppCommand::ScrollCommitDetailFileDiffVertical((-1) as i32)),
                    ],
                )
            &&& key.code == KeyCode::Up && app.engine.active_panel == Panel::Diff
                && !app.graph_uses_three_col() && !key.modifiers.control ==> asked == (
                    app,
                    seq![Effect::CommitDetailScroll((-1) as i32)],
                )
            &&& key.code == KeyCode::Char('k') && app.engine.active_panel == Panel::Commit ==> asked == (
                    app,
                    seq![Effect::CommitDetailScroll((-1) as i32)],
                )
            &&& key.code == KeyCode::Char('k') && app.engine.active_panel == Panel::Diff
                && app.graph_uses_three_col() ==> asked == (
                    app,
                    seq![
                        Effect::Run(AppCommand::ScrollCommitDetailFileDiffVertical((-1) as i32)),
                    ],
                )
            &&& key.code == KeyCode::Char('k') && app.engine.active_panel == Panel::Diff
                && !app.graph_uses_three_col() ==> asked == (
                    app,
                    seq![Effect::CommitDetailScroll((-1) as i32)],
                )
            &&& key.code == KeyCode::Down && app.engine.active_panel == Panel::Commit
                && !key.modifiers.control ==> asked == (app, seq![Effect::CommitDetailScroll(1)])
            &&& key.code == KeyCode::Down && app.engine.active_panel == Panel::Diff
                && app.graph_uses_three_col() && !key.modifiers.control ==> asked == (
                    app,
                    seq![Effect::Run(AppCommand::ScrollCommitDetailFileDiffVertical(1))],
                )
            &&& key.code == KeyCode::Down && app.engine.active_panel == Panel::Diff
                && !app.graph_uses_three_col() && !key.modifiers.control ==> asked == (
                    app,
                    seq![Effect::CommitDetailScroll(1)],
                )
            &&& key.code == KeyCode::Char('j') && app.engine.active_panel == Panel::Commit ==> asked == (
                    app,
                    seq![Effect::CommitDetailScroll(1)],
                )
            &&& key.code == KeyCode::Char('j') && app.engine.active_panel == Panel::Diff
                && app.graph_uses_three_col() ==> asked == (
                    app,
                    seq![Effect::Run(AppCommand::ScrollCommitDetailFileDiffVertical(1))],
                )
            &&& key.code == KeyCode::Char('j') && app.engine.active_panel == Panel::Diff
                && !app.graph_uses_three_col() ==> asked == (
                    app,
                    seq![Effect::CommitDetailScroll(1)],
                )
            &&& key.code == KeyCode::PageUp && app.engine.active_panel == Panel::Commit ==> asked == (
                    app,
                    seq![Effect::CommitDetailScroll((-20) as i32)],
                )
            &&& key.code == KeyCode::PageUp && app.engine.active_panel == Panel::Diff
                && app.graph_uses_three_col() ==> asked == (
                    app,
                    seq![
                        Effect::Run(
                            AppCommand::ScrollCommitDetailFileDiffVertical((-20) as i32),
                        ),
                    ],
                )
            &&& key.code == KeyCode::PageUp && app.engine.active_panel == Panel::Diff
                && !app.graph_uses_three_col() ==> asked == (
                    app,
                    seq![Effect::CommitDetailScroll((-20) as i32)],
                )
            &&& key.code == KeyCode::PageDown && app.engine.active_panel == Panel::Commit ==> asked == (
                    app,
                    seq![Effect::CommitDetailScroll(20)],
                )
            &&& key.code == KeyCode::PageDown && app.engine.active_panel == Panel::Diff
                && app.graph_uses_three_col() ==> asked == (
                    app,
                    seq![Effect::Run(AppCommand::ScrollCommitDetailFileDiffVertical(20))],
                )
            &&& key.code == KeyCode::PageDown && app.engine.active_panel == Panel::Diff
                && !app.graph_uses_three_col() ==> asked == (
                    app,
                    seq![Effect::CommitDetailScroll(20)],
                )
        }),
{
    if key.code != KeyCode::Char('g') && key.code != KeyCode::Char('G') && key != plain(
        KeyCode::Char(' '),
    ) {
        lemma_tab_gets(key, app, now, selected_text);
        keys_of_normal(key);
    }
}

/// On the Graph tab `r` reads the graph again, `b` picks a branch, and `m`, `f` and `t`
/// go to the details of the commit. In the graph `V` begins a range, and drops it again,
/// as Escape does.
pub proof fn graph_keys_act_on_the_graph(
    key: KeyEvent,
    app: TuiApp,
    now: Timestamp,
    selected_text: Option<String>,
)
    requires
        tab_has_the_keys(app),
        app.engine.active_tab == Tab::Graph,
    ensures
        ({
            let asked = key_spec(key, app, now, selected_text);
            &&& key.code == KeyCode::Char('r') ==> asked == (
                    app,
                    seq![Effect::Run(AppCommand::RefreshGraphUncached)],
                )
            &&& key.code == KeyCode::Char('b') && !key.modifiers.control ==> asked == (
                    app,
                    seq![
                        Effect::Run(AppCommand::OpenGraphBranchPicker),
                        Effect::Then(Resume::RuntimeEvents),
                    ],
                )
            &&& key.code == KeyCode::Char('m') && !key.modifiers.control ==> asked == (
                    app,
                    seq![Effect::CommitDetailKey('m')],
                )
            &&& key.code == KeyCode::Char('f') && !key.modifiers.control ==> asked == (
                    app,
                    seq![Effect::CommitDetailKey('f')],
                )
            &&& key.code == KeyCode::Char('t') && !key.modifiers.control ==> asked == (
                    app,
                    seq![Effect::CommitDetailKey('t')],
                )
            &&& key.code == KeyCode::Char('V') && app.engine.active_panel == Panel::Files
                && app.engine.graph.in_visual_mode ==> asked == (
                    app,
                    seq![Effect::Run(AppCommand::ClearGraphRange)],
                )
            &&& key.code == KeyCode::Char('V') && app.engine.active_panel == Panel::Files
                && !app.engine.graph.in_visual_mode && app.engine.graph.oids@.len() > 0 ==> asked == (
                    app,
                    seq![Effect::Run(AppCommand::ResetGraphVisualAnchor)],
                )
            &&& key.code == KeyCode::Esc && !app.engine.vim_search.has_matches
                && app.engine.active_panel == Panel::Files && app.engine.graph.in_visual_mode ==> asked == (
                    app,
                    seq![Effect::Run(AppCommand::ClearGraphRange)],
                )
            &&& key.code == KeyCode::Esc && !app.engine.vim_search.has_matches
                && app.engine.active_panel == Panel::Files && !app.engine.graph.in_visual_mode ==> asked == (
                    app,
                    Seq::<Effect>::empty(),
                )
            &&& key.code == KeyCode::Esc && !app.engine.vim_search.has_matches
                && app.engine.active_panel != Panel::Files ==> asked == (
                    app,
                    seq![
                        Effect::Run(AppCommand::SetActivePanel(Panel::Files)),
                        Effect::Run(AppCommand::ClearVimSearch),
                    ],
                )
        }),
{
    if key.code != KeyCode::Char('g') && key.code != KeyCode::Char('G') && key != plain(
        KeyCode::Char(' '),
    ) {
        lemma_tab_gets(key, app, now, selected_text);
        keys_of_normal(key);
    }
}

/// In the list of hits the keys that move go one hit, or as many as are on screen and at
/// least one, and the preview follows.
pub proof fn hits_move(
    key: KeyEvent,
    app: TuiApp,
    now: Timestamp,
    selected_text: Option<String>,
)
    requires
        tab_has_the_keys(app),
        app.engine.active_tab == Tab::Search,
        app.engine.active_panel == Panel::Files,
        app.engine.global_search.focus == SearchPanelFocus::List,
    ensures
        ({
            let asked = key_spec(key, app, now, selected_text);
            &&& (key == plain(KeyCode::Up) || key == plain(KeyCode::Char('k'))
                || key == ctrl(KeyCode::Char('k')) || key == ctrl(KeyCode::Char('p'))) ==> asked == (
                    app,
                    seq![
                        Effect::Run(
                            AppCommand::MoveGlobalSearchSelection {
                                delta: (-1) as i32,
                                visible_rows: app.layout.global_search_last_view_h as usize,
                            },
                        ),
                        Effect::Run(AppCommand::ScheduleGlobalSearchPreviewSync { now }),
                    ],
                )
            &&& (key == plain(KeyCode::Down) || key == plain(KeyCode::Char('j'))
                || key == ctrl(KeyCode::Char('j')) || key == ctrl(KeyCode::Char('n'))) ==> asked == (
                    app,
                    seq![
                        Effect::Run(
                            AppCommand::MoveGlobalSearchSelection {
                                delta: 1,
                                visible_rows: app.layout.global_search_last_view_h as usize,
                            },
                        ),
                        Effect::Run(AppCommand::ScheduleGlobalSearchPreviewSync { now }),
                    ],
                )
            &&& key.code == KeyCode::PageUp && app.layout.global_search_last_view_h > 0 ==> asked == (
                    app,
                    seq![
                        Effect::Run(
                            AppCommand::MoveGlobalSearchSelection {
                                delta: (-(app.layout.global_search_last_view_h as int)) as i32,
                                visible_rows: app.layout.global_search_last_view_h as usize,
                            },
                        ),
                        Effect::Run(AppCommand::ScheduleGlobalSearchPreviewSync { now }),
                    ],
                )
            &&& key.code == KeyCode::PageDown && app.layout.global_search_last_view_h > 0 ==> asked == (
                    app,
                    seq![
                        Effect::Run(
                            AppCommand::MoveGlobalSearchSelection {
                                delta: app.layout.global_search_last_view_h as i32,
                                visible_rows: app.layout.global_search_last_view_h as usize,
                            },
                        ),
                        Effect::Run(AppCommand::ScheduleGlobalSearchPreviewSync { now }),
                    ],
                )
            &&& key.code == KeyCode::PageUp && app.layout.global_search_last_view_h == 0 ==> asked == (
                    app,
                    seq![
                        Effect::Run(
                            AppCommand::MoveGlobalSearchSelection {
                                delta: (-1) as i32,
                                visible_rows: app.layout.global_search_last_view_h as usize,
                            },
                        ),
                        Effect::Run(AppCommand::ScheduleGlobalSearchPreviewSync { now }),
                    ],
                )
            &&& key.code == KeyCode::PageDown && app.layout.global_search_last_view_h == 0 ==> asked == (
                    app,
                    seq![
                        Effect::Run(
                            AppCommand::MoveGlobalSearchSelection {
                                delta: 1,
                                visible_rows: app.layout.global_search_last_view_h as usize,
                            },
                        ),
                        Effect::Run(AppCommand::ScheduleGlobalSearchPreviewSync { now }),
                    ],
                )
        }),
{
    if key.code != KeyCode::Char('g') && key.code != KeyCode::Char('G') && key != plain(
        KeyCode::Char(' '),
    ) {
        lemma_tab_gets(key, app, now, selected_text);
        keys_of_normal(key);
    }
}

/// In the list of hits Enter goes to the hit, with the way back remembered; with Control
/// or Alt it replaces the checked hits while the replacement is open. `i` goes to the
/// query, `r` searches again, `R` opens the replacement or closes it, Space checks a hit
/// or unchecks it, and the keys that go sideways move the list.
pub proof fn hits_are_opened_and_replaced(
    key: KeyEvent,
    app: TuiApp,
    now: Timestamp,
    selected_text: Option<String>,
)
    requires
        tab_has_the_keys(app),
        app.engine.active_tab == Tab::Search,
        app.engine.active_panel == Panel::Files,
        app.engine.global_search.focus == SearchPanelFocus::List,
    ensures
        ({
            let asked = key_spec(key, app, now, selected_text);
            &&& key.code == KeyCode::Enter && (app.engine.global_search.has_selected_hit
                && !(app.engine.global_search.replace_open && (key.modifiers.control
                || key.modifiers.alt))) ==> asked == (
                    app,
                    seq![
                        Effect::PushLocationBeforeJump,
                        Effect::Run(AppCommand::AcceptGlobalSearchHit),
                        Effect::Then(Resume::RuntimeEvents),
                    ],
                )
            &&& key.code == KeyCode::Enter && (!app.engine.global_search.has_selected_hit
                && !(app.engine.global_search.replace_open && (key.modifiers.control
                || key.modifiers.alt))) ==> asked == (
                    app,
                    seq![Effect::Run(AppCommand::CloseGlobalSearch)],
                )
            &&& key.code == KeyCode::Enter && (app.engine.global_search.replace_open
                && (key.modifiers.control || key.modifiers.alt)) ==> asked == (
                    app,
                    seq![Effect::Run(AppCommand::CommitReplaceInFiles)],
                )
            &&& (key == plain(KeyCode::Char('i')) || key == plain(KeyCode::Char('/'))) ==> asked == (
                    app,
                    seq![Effect::Run(AppCommand::FocusGlobalSearchFindInput)],
                )
            &&& key == plain(KeyCode::Char('r')) && !app.engine.global_search.query_is_empty ==> asked == (
                    app,
                    seq![Effect::Run(AppCommand::ReloadGlobalSearch { now })],
                )
            &&& key == plain(KeyCode::Char('r')) && app.engine.global_search.query_is_empty ==> asked == (
                    app,
                    Seq::<Effect>::empty(),
                )
            &&& key.code == KeyCode::Char('R') ==> asked == (
                    app,
                    seq![Effect::Run(AppCommand::ToggleGlobalSearchReplace)],
                )
            &&& key.code == KeyCode::Left && !key.modifiers.alt && !key.modifiers.shift ==> asked == (
                    app,
                    seq![
                        Effect::Run(
                            AppCommand::ScrollGlobalSearchResultsHorizontal((-1) as i32),
                        ),
                    ],
                )
            &&& key.code == KeyCode::Left && !key.modifiers.alt && key.modifiers.shift ==> asked == (
                    app,
                    seq![
                        Effect::Run(
                            AppCommand::ScrollGlobalSearchResultsHorizontal((-10) as i32),
                        ),
                    ],
                )
            &&& key.code == KeyCode::Right && !key.modifiers.alt && !key.modifiers.shift ==> asked == (
                    app,
                    seq![Effect::Run(AppCommand::ScrollGlobalSearchResultsHorizontal(1))],
                )
            &&& key.code == KeyCode::Right && !key.modifiers.alt && key.modifiers.shift ==> asked == (
                    app,
                    seq![Effect::Run(AppCommand::ScrollGlobalSearchResultsHorizontal(10))],
                )
            &&& key.code == KeyCode::Home ==> asked == (
                    app,
                    seq![Effect::Run(AppCommand::SetGlobalSearchResultsHorizontalScroll(0))],
                )
            &&& key.code == KeyCode::End ==> asked == (
                    app,
                    seq![Effect::Run(AppCommand::ScrollGlobalSearchResultsToEnd)],
                )
        }),
{
    if key.code != KeyCode::Char('g') && key.code != KeyCode::Char('G') && key != plain(
        KeyCode::Char(' '),
    ) {
        lemma_tab_gets(key, app, now, selected_text);
        keys_of_normal(key);
    }
}

/// In the list of hits Space checks a hit or unchecks it, while the replacement is open: no
/// leader waits there.
pub proof fn space_checks_a_hit(app: TuiApp, now: Timestamp, selected_text: Option<String>)
    requires
        tab_has_the_keys(app),
        app.engine.active_tab == Tab::Search,
        app.engine.active_panel == Panel::Files,
        app.engine.global_search.focus == SearchPanelFocus::List,
        app.engine.global_search.replace_open,
    ensures
        key_spec(plain(KeyCode::Char(' ')), app, now, selected_text) == (
            app,
            seq![
                Effect::Run(
                    AppCommand::ToggleGlobalSearchMatchExcluded(
                        app.engine.global_search.selected_idx,
                    ),
                ),
            ],
        ),
{
    assert((TuiApp { g_pending_at: None, ..app }) == app);
    keys_of_normal(plain(KeyCode::Char(' ')));
}

/// In the preview of a hit the keys that move scroll it one row or twenty, the keys that
/// go sideways move it by a column or ten, and Enter goes to the hit.
pub proof fn hit_preview_moves(
    key: KeyEvent,
    app: TuiApp,
    now: Timestamp,
    selected_text: Option<String>,
)
    requires
        tab_has_the_keys(app),
        app.engine.active_tab == Tab::Search,
        app.engine.active_panel == Panel::Diff,
    ensures
        ({
            let asked = key_spec(key, app, now, selected_text);
            &&& (key.code == KeyCode::Up || key.code == KeyCode::Char('k')) ==> asked == (
                    app,
                    seq![Effect::Run(AppCommand::PreviewScroll((-1) as i32))],
                )
            &&& (key.code == KeyCode::Down || key.code == KeyCode::Char('j')) ==> asked == (
                    app,
                    seq![Effect::Run(AppCommand::PreviewScroll(1))],
                )
            &&& key.code == KeyCode::PageUp ==> asked == (
                    app,
                    seq![Effect::Run(AppCommand::PreviewScroll((-20) as i32))],
                )
            &&& key.code == KeyCode::PageDown ==> asked == (
                    app,
                    seq![Effect::Run(AppCommand::PreviewScroll(20))],
                )
            &&& key.code == KeyCode::Left && true && !key.modifiers.alt && !key.modifiers.shift ==> asked == (
                    app,
                    seq![Effect::Run(AppCommand::PreviewHorizontalScroll((-1) as i32))],
                )
            &&& key.code == KeyCode::Left && true && !key.modifiers.alt && key.modifiers.shift ==> asked == (
                    app,
                    seq![Effect::Run(AppCommand::PreviewHorizontalScroll((-10) as i32))],
                )
            &&& key.code == KeyCode::Right && true && !key.modifiers.alt
                && !key.modifiers.shift ==> asked == (
                    app,
                    seq![Effect::Run(AppCommand::PreviewHorizontalScroll(1))],
                )
            &&& key.code == KeyCode::Right && true && !key.modifiers.alt && key.modifiers.shift ==> asked == (
                    app,
                    seq![Effect::Run(AppCommand::PreviewHorizontalScroll(10))],
                )
            &&& key.code == KeyCode::Home ==> asked == (
                    app,
                    seq![Effect::Run(AppCommand::SetPreviewHorizontalScroll(0))],
                )
            &&& key.code == KeyCode::End ==> asked == (
                    app,
                    seq![Effect::Run(AppCommand::SetPreviewHorizontalScroll(usize::MAX))],
                )
            &&& key.code == KeyCode::Enter && app.engine.global_search.has_selected_hit ==> asked == (
                    app,
                    seq![
                        Effect::PushLocationBeforeJump,
                        Effect::Run(AppCommand::AcceptGlobalSearchHit),
                        Effect::Then(Resume::RuntimeEvents),
                    ],
                )
            &&& key.code == KeyCode::Enter && !app.engine.global_search.has_selected_hit ==> asked == (
                    app,
                    seq![Effect::Run(AppCommand::CloseGlobalSearch)],
                )
        }),
{
    if key.code != KeyCode::Char('g') && key.code != KeyCode::Char('G') && key != plain(
        KeyCode::Char(' '),
    ) {
        lemma_tab_gets(key, app, now, selected_text);
        keys_of_normal(key);
    }
}

/// On every tab `q` and Control+C leave the program, `h` shows the help, Control+B hides
/// the sidebar or shows it, Control with a comma opens the settings, Control+O picks a
/// host, and Alt with an arrow goes back to where one was, or forward again.
pub proof fn global_keys(
    key: KeyEvent,
    app: TuiApp,
    now: Timestamp,
    selected_text: Option<String>,
)
    requires
        tab_has_the_keys(app),
    ensures
        ({
            let asked = key_spec(key, app, now, selected_text);
            &&& (key == plain(KeyCode::Char('q')) || key == ctrl(KeyCode::Char('c'))) ==> asked == (
                    app,
                    seq![Effect::Run(AppCommand::Quit)],
                )
            &&& key == plain(KeyCode::Char('h')) ==> asked == (
                    app,
                    seq![Effect::Run(AppCommand::OpenHelp)],
                )
            &&& key == ctrl(KeyCode::Char('b')) ==> asked == (
                    app,
                    seq![
                        Effect::Run(AppCommand::ToggleSidebar),
                        Effect::Then(Resume::RuntimeEvents),
                    ],
                )
            &&& key == ctrl(KeyCode::Char(',')) ==> asked == (
                    app,
                    seq![
                        Effect::Run(AppCommand::OpenSettings),
                        Effect::Run(AppCommand::CancelSettingsEditorCommandEdit),
                        Effect::RefreshPrefCache,
                        Effect::Run(AppCommand::RefreshLspInstalled),
                    ],
                )
            &&& key == ctrl(KeyCode::Char('o')) ==> asked == (app, seq![Effect::OpenHostsPicker])
            &&& (key == alt(KeyCode::Left) || key == ctrl_alt(KeyCode::Left)) ==> asked == (
                    app,
                    seq![Effect::LocationBack],
                )
            &&& (key == alt(KeyCode::Right) || key == ctrl_alt(KeyCode::Right)) ==> asked == (
                    app,
                    seq![Effect::LocationForward],
                )
        }),
{
    if key.code != KeyCode::Char('g') && key.code != KeyCode::Char('G') && key != plain(
        KeyCode::Char(' '),
    ) {
        lemma_tab_gets(key, app, now, selected_text);
        keys_of_normal(key);
    }
}

/// A slash begins a search of the focused panel forwards and a question mark backwards,
/// where the panel can be searched; `n` goes on to the next match and `N` back to the one
/// before.
pub proof fn search_keys(
    key: KeyEvent,
    target: Option<SearchTarget>,
    app: TuiApp,
    now: Timestamp,
    selected_text: Option<String>,
)
    requires
        tab_has_the_keys(app),
    ensures
        ({
            let asked = key_spec(key, app, now, selected_text);
            &&& key == plain(KeyCode::Char('/')) && !(app.engine.active_tab == Tab::Search
                && app.engine.active_panel == Panel::Files) && target is Some
                && (if app.graph_uses_three_col() { app.engine.vim_search.three_column_target } else { app.engine.vim_search.other_target }) == target ==> asked == (
                    app,
                    seq![
                        Effect::Run(
                            AppCommand::BeginVimSearch { target: target->0,
                            backwards: false },
                        ),
                    ],
                )
            &&& key == plain(KeyCode::Char('/')) && !(app.engine.active_tab == Tab::Search
                && app.engine.active_panel == Panel::Files)
                && (if app.graph_uses_three_col() { app.engine.vim_search.three_column_target } else { app.engine.vim_search.other_target }) is None ==> asked == (
                    app,
                    Seq::<Effect>::empty(),
                )
            &&& key == plain(KeyCode::Char('?')) && target is Some
                && (if app.graph_uses_three_col() { app.engine.vim_search.three_column_target } else { app.engine.vim_search.other_target }) == target ==> asked == (
                    app,
                    seq![
                        Effect::Run(
                            AppCommand::BeginVimSearch { target: target->0,
                            backwards: true },
                        ),
                    ],
                )
            &&& key == plain(KeyCode::Char('?'))
                && (if app.graph_uses_three_col() { app.engine.vim_search.three_column_target } else { app.engine.vim_search.other_target }) is None ==> asked == (
                    app,
                    Seq::<Effect>::empty(),
                )
            &&& key == plain(KeyCode::Char('n')) && app.engine.vim_search.can_step
                && !app.engine.git_confirm_prompt ==> asked == (
                    app,
                    seq![
                        Effect::Run(
                            AppCommand::StepVimSearch {
                                reverse: false,
                                dark: app.theme.is_dark,
                                viewport: app.viewport(),
                            },
                        ),
                    ],
                )
            &&& (key == plain(KeyCode::Char('N')) || key == shift(KeyCode::Char('N')))
                && app.engine.vim_search.can_step && !app.engine.git_confirm_prompt ==> asked == (
                    app,
                    seq![
                        Effect::Run(
                            AppCommand::StepVimSearch {
                                reverse: true,
                                dark: app.theme.is_dark,
                                viewport: app.viewport(),
                            },
                        ),
                    ],
                )
        }),
{
    if key.code != KeyCode::Char('g') && key.code != KeyCode::Char('G') && key != plain(
        KeyCode::Char(' '),
    ) {
        lemma_tab_gets(key, app, now, selected_text);
        keys_of_normal(key);
    }
}

/// The digits from one to four open the Files, Search, Git and Graph tab, and Control+Tab
/// the tab after the open one, round the end. Another tab drops the search of this one.
pub proof fn digits_and_control_tab_switch_tabs(
    key: KeyEvent,
    app: TuiApp,
    now: Timestamp,
    selected_text: Option<String>,
)
    requires
        tab_has_the_keys(app),
    ensures
        ({
            let asked = key_spec(key, app, now, selected_text);
            &&& key == plain(KeyCode::Char('1')) && app.engine.active_tab == Tab::Files ==> asked == (
                    app,
                    seq![
                        Effect::Run(AppCommand::SetActiveTab(Tab::Files)),
                        Effect::Then(Resume::RuntimeEvents),
                    ],
                )
            &&& key == plain(KeyCode::Char('1')) && app.engine.active_tab != Tab::Files ==> asked == (
                    app,
                    seq![
                        Effect::Run(AppCommand::ClearVimSearch),
                        Effect::Run(AppCommand::SetActiveTab(Tab::Files)),
                        Effect::Then(Resume::RuntimeEvents),
                    ],
                )
            &&& key == plain(KeyCode::Char('2')) && app.engine.active_tab == Tab::Search ==> asked == (
                    app,
                    seq![
                        Effect::Run(AppCommand::SetActiveTab(Tab::Search)),
                        Effect::Then(Resume::RuntimeEvents),
                    ],
                )
            &&& key == plain(KeyCode::Char('2')) && app.engine.active_tab != Tab::Search ==> asked == (
                    app,
                    seq![
                        Effect::Run(AppCommand::ClearVimSearch),
                        Effect::Run(AppCommand::SetActiveTab(Tab::Search)),
                        Effect::Then(Resume::RuntimeEvents),
                    ],
                )
            &&& key == plain(KeyCode::Char('3')) && app.engine.active_tab == Tab::Git ==> asked == (
                    app,
                    seq![
                        Effect::Run(AppCommand::SetActiveTab(Tab::Git)),
                        Effect::Then(Resume::RuntimeEvents),
                    ],
                )
            &&& key == plain(KeyCode::Char('3')) && app.engine.active_tab != Tab::Git ==> asked == (
                    app,
                    seq![
                        Effect::Run(AppCommand::ClearVimSearch),
                        Effect::Run(AppCommand::SetActiveTab(Tab::Git)),
                        Effect::Then(Resume::RuntimeEvents),
                    ],
                )
            &&& key == plain(KeyCode::Char('4')) && app.engine.active_tab == Tab::Graph ==> asked == (
                    app,
                    seq![
                        Effect::Run(AppCommand::SetActiveTab(Tab::Graph)),
                        Effect::Then(Resume::RuntimeEvents),
                    ],
                )
            &&& key == plain(KeyCode::Char('4')) && app.engine.active_tab != Tab::Graph ==> asked == (
                    app,
                    seq![
                        Effect::Run(AppCommand::ClearVimSearch),
                        Effect::Run(AppCommand::SetActiveTab(Tab::Graph)),
                        Effect::Then(Resume::RuntimeEvents),
                    ],
                )
            &&& key == ctrl(KeyCode::Tab) && app.engine.active_tab == Tab::Files ==> asked == (
                    app,
                    seq![
                        Effect::Run(AppCommand::ClearVimSearch),
                        Effect::Run(AppCommand::SetActiveTab(Tab::Search)),
                        Effect::Then(Resume::RuntimeEvents),
                    ],
                )
            &&& key == ctrl(KeyCode::Tab) && app.engine.active_tab == Tab::Search ==> asked == (
                    app,
                    seq![
                        Effect::Run(AppCommand::ClearVimSearch),
                        Effect::Run(AppCommand::SetActiveTab(Tab::Git)),
                        Effect::Then(Resume::RuntimeEvents),
                    ],
                )
            &&& key == ctrl(KeyCode::Tab) && app.engine.active_tab == Tab::Git ==> asked == (
                    app,
                    seq![
                        Effect::Run(AppCommand::ClearVimSearch),
                        Effect::Run(AppCommand::SetActiveTab(Tab::Graph)),
                        Effect::Then(Resume::RuntimeEvents),
                    ],
                )
            &&& key == ctrl(KeyCode::Tab) && app.engine.active_tab == Tab::Graph ==> asked == (
                    app,
                    seq![
                        Effect::Run(AppCommand::ClearVimSearch),
                        Effect::Run(AppCommand::SetActiveTab(Tab::Files)),
                        Effect::Then(Resume::RuntimeEvents),
                    ],
                )
        }),
{
    if key.code != KeyCode::Char('g') && key.code != KeyCode::Char('G') && key != plain(
        KeyCode::Char(' '),
    ) {
        lemma_tab_gets(key, app, now, selected_text);
        keys_of_normal(key);
    }
}

/// Tab moves the focus to the next panel and Shift+Tab to the one before, and drops the
/// search of the panel.
pub proof fn tab_goes_through_the_panels(
    key: KeyEvent,
    app: TuiApp,
    now: Timestamp,
    selected_text: Option<String>,
)
    requires
        tab_has_the_keys(app),
    ensures
        ({
            let asked = key_spec(key, app, now, selected_text);
            &&& key == plain(KeyCode::Tab) ==> asked == (
                    app,
                    seq![
                        Effect::Run(
                            AppCommand::CyclePanel {
                                reverse: false,
                                uses_three_col: app.graph_uses_three_col(),
                            },
                        ),
                        Effect::Run(AppCommand::ClearVimSearch),
                    ],
                )
            &&& key == shift(KeyCode::BackTab) ==> asked == (
                    app,
                    seq![
                        Effect::Run(
                            AppCommand::CyclePanel {
                                reverse: true,
                                uses_three_col: app.graph_uses_three_col(),
                            },
                        ),
                        Effect::Run(AppCommand::ClearVimSearch),
                    ],
                )
        }),
{
    if key.code != KeyCode::Char('g') && key.code != KeyCode::Char('G') && key != plain(
        KeyCode::Char(' '),
    ) {
        lemma_tab_gets(key, app, now, selected_text);
        keys_of_normal(key);
    }
}

} // verus!
