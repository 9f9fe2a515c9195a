//! What presses, drags and clicks ask for.

use crate::app::{FindWidgetUiState, TuiApp};
use crate::command::{
    AppCommand, CopySources, DbNav, Effect, FindWidgetToggle, InputModifiers, NavAnchor, PathSet,
    Resume, Toast, ToastLevel, ToastText,
};
use crate::engine::{Panel, PreviewKind, Tab, ViewMode};
use crate::event::{MouseButton, MouseEvent, MouseEventKind};
use crate::global_search;
use crate::input::dragging::{
    commit_selecting, copy_effects, diff_selecting, preview_selecting, MouseProbe,
};
use crate::input::mouse::{
    confirm_mouse_effects, content_mouse_spec, dragged_diff_split, dragged_split, drag_effects,
    edge_drag_effects, graph_extension, jumps, mouse_spec, move_spec,
    panel_mouse_spec, press_spec, release_effects, row_of_commit, settings_mouse_spec,
    tree_drag_mouse, zone_press_effects,
};
use crate::input::popups::{picker_mouse_spec, place_mouse_spec, Picker};
use crate::quick_open;
use crate::selection::{
    click_number, is_double_spec, remembered, started_selection, ClickState, DiffSelection,
    LastClick, PreviewSelection, TextPick,
};
use crate::time::Timestamp;
use crate::ui::mouse::{topmost, ClickAction, HitZone};
use vstd::prelude::*;

verus! {

/// Of the zones at a cell the one that was drawn last gets the press: no later zone holds the
/// cell, and where no zone holds it nothing is hit.
pub proof fn the_last_zone_is_on_top(zones: Seq<HitZone>, col: int, row: int)
    ensures
        ({
            let hit = topmost(zones, col, row);
            &&& hit is None <==> forall|i: int|
                0 <= i < zones.len() ==> !(#[trigger] zones[i]).rect.holds(col, row)
            &&& hit is Some ==> exists|i: int|
                0 <= i < zones.len() && (#[trigger] zones[i]).rect.holds(col, row)
                    && zones[i].action == hit->0 && forall|k: int|
                    i < k < zones.len() ==> !(#[trigger] zones[k]).rect.holds(col, row)
        }),
    decreases zones.len(),
{
    if zones.len() > 0 && !zones.last().rect.holds(col, row) {
        let rest = zones.drop_last();
        the_last_zone_is_on_top(rest, col, row);
        let hit = topmost(rest, col, row);
        if hit is Some {
            let i = choose|i: int|
                0 <= i < rest.len() && (#[trigger] rest[i]).rect.holds(col, row) && rest[i].action
                    == hit->0 && forall|k: int|
                    i < k < rest.len() ==> !(#[trigger] rest[k]).rect.holds(col, row);
            assert(zones[i] == rest[i]);
            assert forall|k: int| i < k < zones.len() implies !(
            #[trigger] zones[k]).rect.holds(col, row) by {
                if k < rest.len() {
                    assert(zones[k] == rest[k]);
                }
            }
        } else {
            assert forall|i: int| 0 <= i < zones.len() implies !(
            #[trigger] zones[i]).rect.holds(col, row) by {
                if i < rest.len() {
                    assert(zones[i] == rest[i]);
                }
            }
        }
    } else if zones.len() > 0 {
        assert(zones[zones.len() - 1].rect.holds(col, row));
    }
}

/// Of the things that are up, the one that lies on top has the mouse.
pub proof fn what_lies_on_top_has_the_mouse(
    mouse: MouseEvent,
    app: TuiApp,
    now: Timestamp,
    probe: MouseProbe,
)
    ensures
        ({
            let overlays = app.engine.overlays;
            let got = mouse_spec(mouse, app, now, probe);
            let button = mouse.kind is Down || mouse.kind is Up || mouse.kind is Drag;
            let below_prompt = !(overlays.db_goto && button);
            let below_hosts = below_prompt && !overlays.hosts_picker;
            let below_branches = below_hosts && !overlays.graph_branch_picker;
            let below_search = below_branches && !overlays.global_search;
            let below_palettes = below_search && !overlays.quick_open;
            let below_drop = below_palettes && !overlays.place_mode;
            let below_settings = below_drop && app.engine.view_mode != ViewMode::Settings;
            let below_paste = below_settings && !overlays.paste_conflict;
            let below_question = below_paste && app.engine.confirm is None;
            &&& !below_prompt ==> got == (app, seq![Effect::Run(AppCommand::CloseDbGoto)])
            &&& below_prompt && overlays.hosts_picker ==> got == picker_mouse_spec(
                Picker::Hosts,
                mouse,
                app,
                now,
            )
            &&& below_hosts && overlays.graph_branch_picker ==> got == picker_mouse_spec(
                Picker::Branches,
                mouse,
                app,
                now,
            )
            &&& below_branches && overlays.global_search ==> got
                == global_search::handle_mouse_spec(mouse, app, now)
            &&& below_search && overlays.quick_open ==> got == quick_open::handle_mouse_spec(
                mouse,
                app,
                now,
            )
            &&& below_palettes && overlays.place_mode ==> got == place_mouse_spec(mouse, app, now)
            &&& below_drop && app.engine.view_mode == ViewMode::Settings ==> got
                == settings_mouse_spec(mouse, app)
            &&& below_settings && overlays.paste_conflict ==> got == (app, Seq::<Effect>::empty())
            &&& below_paste && app.engine.confirm is Some ==> got == (
                app,
                confirm_mouse_effects(mouse, app),
            )
            &&& below_question && overlays.tree_drag && tree_drag_mouse(mouse, app) is Some ==> got
                == (app, tree_drag_mouse(mouse, app)->0)
            &&& below_question && !overlays.tree_drag && overlays.tree_edit && mouse.kind is Down
                ==> got == (
                app,
                seq![Effect::Run(AppCommand::CancelTreeEdit), Effect::Then(Resume::Mouse(mouse))],
            )
            &&& below_question && !overlays.tree_drag && !overlays.tree_edit ==> got
                == content_mouse_spec(mouse, app, now, probe)
        }),
{
}

/// What a click asks for on the tab bar, in the lists on the left, and on the Search tab.
pub proof fn clicks_on_the_tabs(app: TuiApp, action: ClickAction)
    ensures
        ({
            let asked = app.action_effects(action);
            &&& (action matches ClickAction::SwitchTab(tab) ==> asked == seq![
                Effect::Run(AppCommand::SetActiveTab(tab)),
                Effect::Then(Resume::RuntimeEvents),
            ])
            &&& action is ToggleSidebar ==> asked == seq![Effect::Run(AppCommand::ToggleSidebar), Effect::Then(Resume::RuntimeEvents)]
            &&& action is OpenHostsPicker ==> asked == seq![Effect::OpenHostsPicker]
            &&& action is OpenSettings && app.engine.view_mode != ViewMode::Settings ==> asked == seq![
                Effect::Run(AppCommand::OpenSettings),
                Effect::Run(AppCommand::CancelSettingsEditorCommandEdit),
                Effect::RefreshPrefCache,
                Effect::Run(AppCommand::RefreshLspInstalled),
            ]
            &&& action is OpenSettings && app.engine.view_mode == ViewMode::Settings ==> asked == Seq::<Effect>::empty()
            &&& (action matches ClickAction::TreeClick(idx) ==> asked == seq![Effect::Run(AppCommand::ActivateFileTreeEntryAtIndex(idx))])
            &&& action is TreeClearSelection ==> asked == seq![Effect::Run(AppCommand::ClearFileTreeSelectionAndEdit)]
            &&& (action matches ClickAction::SelectFile { path, staged } ==> asked == seq![
                Effect::Run(
                    AppCommand::SelectGitFile {
                        path,
                        is_staged: staged,
                        dark: app.theme.is_dark,
                    },
                ),
                Effect::Then(Resume::RuntimeEvents),
            ])
            &&& (action matches ClickAction::StageFile(path) ==> asked == seq![Effect::Run(AppCommand::StageFile { path, dark: app.theme.is_dark })])
            &&& (action matches ClickAction::UnstageFile(path) ==> asked == seq![Effect::Run(AppCommand::UnstageFile { path, dark: app.theme.is_dark })])
            &&& action is StartDragSplit ==> asked == Seq::<Effect>::empty()
            &&& action is StartDragGraphDiffSplit ==> asked == Seq::<Effect>::empty()
            &&& (action matches ClickAction::GitCommand { command, oid, payload } ==> asked == seq![Effect::GitCommand { command, payload }])
            &&& (action matches ClickAction::GlobalSearchSelect(idx) ==> app.engine.active_tab == Tab::Search ==> asked == seq![
                Effect::Run(
                    AppCommand::SelectGlobalSearchResult {
                        idx,
                        visible_rows: app.layout.global_search_last_view_h as usize,
                    },
                ),
                Effect::Run(AppCommand::SyncGlobalSearchPreviewToSelected),
            ])
            &&& (action matches ClickAction::GlobalSearchSelect(idx) ==> app.engine.active_tab != Tab::Search ==> asked == Seq::<Effect>::empty())
            &&& action is GlobalSearchFocusInput && app.engine.active_tab == Tab::Search ==> asked == seq![Effect::Run(AppCommand::FocusGlobalSearchFindInput)]
            &&& action is GlobalSearchFocusReplaceInput && app.engine.active_tab == Tab::Search
                && app.engine.global_search.replace_open ==> asked == seq![Effect::Run(AppCommand::FocusGlobalSearchReplaceInput)]
            &&& action is GlobalSearchFocusReplaceInput
                && !app.engine.global_search.replace_open ==> asked == Seq::<Effect>::empty()
            &&& action is SearchToggleReplace && app.engine.active_tab == Tab::Search ==> asked == seq![Effect::Run(AppCommand::ToggleGlobalSearchReplaceForSearchTab)]
            &&& (action matches ClickAction::SearchToggleMatch(idx) ==> asked == seq![Effect::Run(AppCommand::ToggleGlobalSearchMatchExcluded(idx))])
            &&& action is SearchApplyReplace ==> asked == seq![Effect::Run(AppCommand::CommitReplaceInFiles)]
        }),
{
}

/// What a click asks for in the tree's tools, in lists and menus that are up, in a
/// database, and in the find widget.
pub proof fn clicks_on_what_is_up(app: TuiApp, action: ClickAction)
    ensures
        ({
            let asked = app.action_effects(action);
            &&& (action matches ClickAction::PlaceModeFolder(idx) ==> idx < app.engine.tree.entries@.len() && app.engine.tree.entries@[idx as int].is_dir ==> asked == seq![
                Effect::Run(
                    AppCommand::RequestFileCopy {
                        sources: CopySources::PlaceMode,
                        dest_dir: app.engine.tree.entries@[idx as int].abs_path,
                    },
                ),
                Effect::Then(Resume::RuntimeEvents),
            ])
            &&& (action matches ClickAction::PlaceModeFolder(idx) ==> !(idx < app.engine.tree.entries@.len() && app.engine.tree.entries@[idx as int].is_dir) ==> asked == seq![Effect::Run(AppCommand::ExitPlaceMode)])
            &&& action is PlaceModeRoot ==> asked == seq![
                Effect::Run(
                    AppCommand::RequestFileCopy {
                        sources: CopySources::PlaceMode,
                        dest_dir: app.engine.tree.root,
                    },
                ),
                Effect::Then(Resume::RuntimeEvents),
            ]
            &&& action is FileTreeToolbarCollapse
                && app.engine.tree.selected < app.engine.tree.entries@.len() ==> asked == seq![
                Effect::Run(AppCommand::CollapseAllTreeEntries),
                Effect::Run(
                    AppCommand::RefreshFileTreeWithTarget(
                        Some(app.engine.tree.entries@[app.engine.tree.selected as int].path),
                    ),
                ),
            ]
            &&& action is FileTreeToolbarCollapse
                && app.engine.tree.selected >= app.engine.tree.entries@.len() ==> asked == seq![
                Effect::Run(AppCommand::CollapseAllTreeEntries),
                Effect::Run(AppCommand::RefreshFileTreeWithTarget(None)),
            ]
            &&& action is TreeContextMenuClose ==> asked == seq![Effect::Run(AppCommand::CloseTreeContextMenu)]
            &&& (action matches ClickAction::NavCandidateSelect(idx) ==> asked == seq![Effect::Run(AppCommand::SelectNavCandidate(idx)), Effect::NavPickCandidate])
            &&& (action matches ClickAction::NavCandidateGroupToggle(idx) ==> asked == seq![Effect::NavToggleCandidateGroup(idx)])
            &&& action is NavCandidatesClose ==> asked == seq![Effect::NavCloseCandidates]
            &&& action is NavCandidatesCapture ==> asked == Seq::<Effect>::empty()
            &&& (action matches ClickAction::OpenMarkdownLink(target) ==> asked == seq![Effect::ResolveMarkdownLink(target)])
            &&& (action matches ClickAction::HostsPickerSelect(idx) ==> asked == seq![
                Effect::Run(AppCommand::SelectHostsPickerRow(idx)),
                Effect::Run(AppCommand::EnterHostsPickerPathMode),
            ])
            &&& action is DbPrevPage ==> asked == seq![Effect::Run(AppCommand::DbNavigate(DbNav::PrevPage))]
            &&& action is DbNextPage ==> asked == seq![Effect::Run(AppCommand::DbNavigate(DbNav::NextPage))]
            &&& (action matches ClickAction::DbGotoPage(page) ==> asked == seq![Effect::Run(AppCommand::DbNavigateToPage(page))])
            &&& (action matches ClickAction::DbSelectObject { schema, name, kind } ==> asked == seq![Effect::Run(AppCommand::DbSelectObject { schema, name, kind })])
            &&& (action matches ClickAction::DbToggleSchema(name) ==> asked == seq![Effect::Run(AppCommand::DbToggleSchema(name))])
            &&& action is FindWidgetClose ==> asked == seq![Effect::Run(AppCommand::CloseFindWidget { dark: app.theme.is_dark })]
            &&& action is FindWidgetNext && app.engine.find_widget.has_matches ==> asked == seq![
                Effect::Run(
                    AppCommand::StepFindWidget { reverse: false, viewport: app.viewport() },
                ),
            ]
            &&& action is FindWidgetPrev && app.engine.find_widget.has_matches ==> asked == seq![
                Effect::Run(
                    AppCommand::StepFindWidget { reverse: true, viewport: app.viewport() },
                ),
            ]
            &&& action is FindWidgetNext && !app.engine.find_widget.has_matches ==> asked == Seq::<Effect>::empty()
            &&& action is FindWidgetPrev && !app.engine.find_widget.has_matches ==> asked == Seq::<Effect>::empty()
            &&& action is FindWidgetToggleCase && app.engine.find_widget.active ==> asked == seq![
                Effect::Run(AppCommand::ToggleFindWidgetOption(FindWidgetToggle::MatchCase)),
                Effect::Then(Resume::RuntimeEvents),
            ]
            &&& action is FindWidgetToggleWord && app.engine.find_widget.active ==> asked == seq![
                Effect::Run(AppCommand::ToggleFindWidgetOption(FindWidgetToggle::WholeWord)),
                Effect::Then(Resume::RuntimeEvents),
            ]
            &&& action is FindWidgetToggleRegex && app.engine.find_widget.active ==> asked == seq![
                Effect::Run(AppCommand::ToggleFindWidgetOption(FindWidgetToggle::Regex)),
                Effect::Then(Resume::RuntimeEvents),
            ]
            &&& (action matches ClickAction::SettingsRow(idx) ==> app.engine.view_mode == ViewMode::Settings ==> asked == seq![
                Effect::Run(AppCommand::SelectSettingsRow(idx)),
                Effect::Then(Resume::SettingsRow),
            ])
            &&& (action matches ClickAction::SettingsRow(idx) ==> app.engine.view_mode != ViewMode::Settings ==> asked == Seq::<Effect>::empty())
            &&& action is ConfirmModalPrimary && app.engine.confirm is Some ==> asked == seq![
                Effect::Run(AppCommand::DismissConfirm),
                Effect::Run(
                    AppCommand::ExecuteTreeDelete(app.engine.confirm->0.delete)), Effect::Then(Resume::RuntimeEvents,
                ),
            ]
            &&& action is ConfirmModalCancel ==> asked == seq![Effect::Run(AppCommand::DismissConfirm)]
            &&& action is ToggleFocusedPreviewFiles ==> asked == seq![Effect::Run(AppCommand::ToggleFocusedPreviewFiles)]
            &&& action is CloseFocusedPreviewFiles ==> asked == seq![Effect::Run(AppCommand::CloseFocusedPreviewFiles)]
            &&& (action matches ClickAction::PickFocusedPreviewFile(idx) ==> asked == seq![
                Effect::Run(
                    AppCommand::PickFocusedPreviewFile {
                        idx,
                        dark: app.theme.is_dark,
                        uses_three_col: app.graph_uses_three_col(),
                    },
                ),
                Effect::Then(Resume::RuntimeEvents),
            ])
        }),
{
}

/// A click changes what the terminal itself remembers in three cases only: a press on an edge
/// begins to drag it, and closing the find widget forgets where it was drawn.
pub proof fn clicks_leave_the_terminal_alone(app: TuiApp, action: ClickAction)
    ensures
        ({
            let after = app.after_action(action);
            &&& action is StartDragSplit ==> after == (TuiApp { dragging_split: true, ..app })
            &&& action is StartDragGraphDiffSplit ==> after == (TuiApp {
                dragging_graph_diff_split: true,
                ..app
            })
            &&& action is FindWidgetClose ==> after == (TuiApp {
                find_widget_ui: FindWidgetUiState { last_widget_rect: None, space_leader_at: None },
                ..app
            })
            &&& !(action is StartDragSplit) && !(action is StartDragGraphDiffSplit) && !(
            action is FindWidgetClose) ==> after == app
        }),
{
}

/// A press on a zone moves the focus to the panel under it and does what the zone asks for.
/// On a row of the tree, Shift selects up to the row, Control selects the row or takes it out,
/// and nothing held opens the row and waits for a drag. On a commit, Shift extends the range
/// to it.
pub proof fn presses_on_zones(mouse: MouseEvent, app: TuiApp, action: ClickAction)
    ensures
        ({
            let asked = zone_press_effects(app, mouse, action);
            let held = mouse.modifiers;
            let on_tree = app.engine.active_tab == Tab::Files;
            &&& (action matches ClickAction::TreeClick(idx) ==> on_tree && idx
                < app.engine.tree.entries@.len() ==> {
                &&& held.shift ==> asked == seq![
                    Effect::Run(AppCommand::ExtendFileSelectionToIndex(idx)),
                ]
                &&& !held.shift && held.control ==> asked == seq![
                    Effect::Run(AppCommand::ToggleFileSelectionAtIndex(idx)),
                ]
                &&& !held.shift && !held.control ==> asked == seq![
                    Effect::Run(
                        AppCommand::ArmFileTreeDragPress {
                            idx,
                            col: mouse.column,
                            row: mouse.row,
                            mods: InputModifiers {
                                alt: held.alt,
                                ctrl: held.control,
                                shift: held.shift,
                            },
                        },
                    ),
                    Effect::Run(AppCommand::ActivateFileTreeEntryAtIndex(idx)),
                ]
            })
            &&& !(action is TreeClick) && !(action is GitCommand) ==> asked == app.action_effects(
                action,
            )
            &&& (action matches ClickAction::GitCommand { command, oid, payload } ==> !held.shift
                || oid is None ==> asked == seq![Effect::GitCommand { command, payload }])
        }),
{
}

/// Shift on a commit extends the range by as many rows as the commit lies below the selected
/// one, or above it. Of rows that show the same commit the first one counts.
pub proof fn shift_extends_to_the_commit(app: TuiApp, oid: String, payload: usize, row: int)
    requires
        0 <= row < app.engine.graph.oids@.len() <= i32::MAX,
        app.engine.graph.selected_idx <= i32::MAX,
        app.engine.graph.oids@[row]@ == oid@,
        forall|i: int| 0 <= i < row ==> (#[trigger] app.engine.graph.oids@[i])@ != oid@,
    ensures
        forall|command: String|
            command@ == "git.selectCommit"@ ==> #[trigger] graph_extension(
                app,
                ClickAction::GitCommand { command, oid: Some(oid), payload },
                true,
            ) == Some((row - app.engine.graph.selected_idx) as i32),
{
    lemma_first_row_of_commit(app.engine.graph.oids@, oid@, 0, row);
}

proof fn lemma_first_row_of_commit(oids: Seq<String>, oid: Seq<char>, from: int, row: int)
    requires
        0 <= from <= row < oids.len(),
        oids[row]@ == oid,
        forall|i: int| from <= i < row ==> (#[trigger] oids[i])@ != oid,
    ensures
        row_of_commit(oids, oid, from) == Some(row),
    decreases row - from,
{
    if from < row {
        lemma_first_row_of_commit(oids, oid, from + 1, row);
    }
}

/// A press on a zone gives the focus to the panel under it first, and is remembered for a
/// second one; a second press on a hit of the Search tab opens it.
pub proof fn presses_move_the_focus_first(
    mouse: MouseEvent,
    app: TuiApp,
    now: Timestamp,
    width: u16,
)
    ensures
        ({
            let pressed = press_spec(mouse, app, now, Some(width));
            let focus = Effect::Run(
                AppCommand::SetActivePanel(
                    crate::input::mouse::panel_under(app, mouse.column, width),
                ),
            );
            let hit = app.hit_registry.hit(mouse.column, mouse.row);
            let double = is_double_spec(app.last_click, now, mouse.column, mouse.row);
            &&& pressed.1.len() > 0 && pressed.1[0] == focus
            &&& !double ==> pressed.0.last_click == Some(
                LastClick { at: now, column: mouse.column, row: mouse.row },
            )
            &&& double ==> pressed.0.last_click is None
            &&& hit is None ==> pressed.1 == seq![focus]
            &&& (hit matches Some(ClickAction::GlobalSearchSelect(idx)) ==> double ==> pressed.1
                == seq![
                focus,
                Effect::Run(
                    AppCommand::SelectGlobalSearchResult {
                        idx,
                        visible_rows: app.layout.global_search_last_view_h as usize,
                    },
                ),
                Effect::Then(Resume::AcceptGlobalSearch),
            ])
            &&& hit is Some && !(hit->0 is GlobalSearchSelect) ==> pressed.1 == seq![focus]
                + zone_press_effects(app, mouse, hit->0)
        }),
{
}

/// Two clicks are one double click where they hit the same cell within four tenths of a
/// second; a click after that is single again.
pub proof fn double_clicks(last: LastClick, now: Timestamp, c: u16, r: u16)
    ensures
        is_double_spec(Some(last), now, c, r) <==> last.column == c && last.row == r && now.nanos
            < last.at.nanos + 400_000_000,
        !is_double_spec(None, now, c, r),
        remembered(true, now, c, r) is None,
        remembered(false, now, c, r) == Some(LastClick { at: now, column: c, row: r }),
{
}

/// Clicks at one cell within four tenths of a second of each other are counted up to three: the
/// first selects from the place on, the second the word, and the third the row.
pub proof fn clicks_select_place_word_and_row(
    last: Option<ClickState>,
    now: Timestamp,
    c: u16,
    r: u16,
    pick: TextPick,
)
    ensures
        ({
            let follows = last matches Some(click) && click.column == c && click.row == r
                && now.nanos < click.at.nanos + 400_000_000;
            let count = click_number(last, now, c, r);
            let selected = started_selection(count, pick);
            &&& !follows ==> count == 1
            &&& follows && last->0.count < 3 ==> count == last->0.count + 1
            &&& follows && last->0.count >= 3 ==> count == 3
            &&& selected.dragging
            &&& count == 1 ==> selected.anchor == (pick.row, pick.byte) && selected.active == (
                pick.row,
                pick.byte,
            )
            &&& count == 2 ==> selected.anchor == (pick.row, pick.word_start) && selected.active
                == (pick.row, pick.word_end)
            &&& count == 3 ==> selected.anchor == (pick.row, 0usize) && selected.active == (
                pick.row,
                pick.row_len,
            )
        }),
{
}

/// Whether the cell of a mouse event lies in a rectangle.
pub open spec fn is_over(rect: Option<crate::geometry::Rect>, mouse: MouseEvent) -> bool {
    rect matches Some(r) && r.x <= mouse.column < r.x + r.width && r.y <= mouse.row < r.y
        + r.height
}

/// A press on the text of the preview starts a selection there and gives the preview the
/// focus; a drag moves the selection's end; letting go ends it and copies what is selected.
pub proof fn the_preview_is_selected_in(
    mouse: MouseEvent,
    app: TuiApp,
    now: Timestamp,
    probe: MouseProbe,
)
    ensures
        ({
            let got = preview_selecting(mouse, app, now, probe);
            let count = click_number(app.preview_click_state, now, mouse.column, mouse.row);
            let dragging = app.preview_selection matches Some(sel) && sel.dragging;
            let focus = Effect::Run(AppCommand::SetActivePanel(Panel::Diff));
            &&& mouse.kind == MouseEventKind::Down(MouseButton::Left) && is_over(
                app.last_preview_rect,
                mouse,
            ) && probe.preview_pick is Some ==> got.done && got.effects == seq![focus] && got.app
                == (TuiApp {
                preview_click_state: Some(
                    ClickState { at: now, column: mouse.column, row: mouse.row, count },
                ),
                preview_selection: Some(started_selection(count, probe.preview_pick->0)),
                last_drag_mouse: Some((mouse.column, mouse.row)),
                preview_autoscroll_at: None,
                ..app
            })
            &&& mouse.kind == MouseEventKind::Down(MouseButton::Left) && !is_over(
                app.last_preview_rect,
                mouse,
            ) ==> !got.done && got.effects == Seq::<Effect>::empty() && got.app == app
            &&& mouse.kind == MouseEventKind::Drag(MouseButton::Left) && dragging
                && probe.preview_pick is Some ==> got.done && got.effects == Seq::<Effect>::empty()
                && got.app.preview_selection == Some(
                PreviewSelection {
                    anchor: app.preview_selection->0.anchor,
                    active: (probe.preview_pick->0.row, probe.preview_pick->0.byte),
                    dragging: true,
                },
            )
            &&& mouse.kind == MouseEventKind::Up(MouseButton::Left) && dragging ==> got.done
                && got.app.preview_selection == Some(
                PreviewSelection { dragging: false, ..app.preview_selection->0 },
            ) && got.app.last_drag_mouse is None
            &&& mouse.kind == MouseEventKind::Up(MouseButton::Left) && dragging
                && app.preview_selection->0.anchor != app.preview_selection->0.active && (
            app.engine.preview.kind == PreviewKind::Text || app.engine.preview.kind
                == PreviewKind::Markdown) && probe.selected_text@.len() > 0 ==> got.effects == seq![
                Effect::Run(
                    AppCommand::CopyToClipboard {
                        text: probe.selected_text,
                        success: Some(
                            Toast { level: ToastLevel::Info, text: ToastText::ClipboardCopied },
                        ),
                        failure: Toast {
                            level: ToastLevel::Error,
                            text: ToastText::ClipboardCopyFailed,
                        },
                    },
                ),
            ]
            &&& mouse.kind == MouseEventKind::Up(MouseButton::Left) && dragging && (
            app.preview_selection->0.anchor == app.preview_selection->0.active
                || probe.selected_text@.len() == 0) ==> got.effects == Seq::<Effect>::empty()
            &&& !dragging && (mouse.kind is Drag || mouse.kind is Up) ==> !got.done && got.app
                == app
        }),
{
}

/// A press on the text of a diff starts a selection in the half it lies in and gives the diff
/// the focus; a drag moves the selection's end, in the same half; letting go ends it and copies
/// what is selected.
pub proof fn the_diff_is_selected_in(
    mouse: MouseEvent,
    app: TuiApp,
    now: Timestamp,
    probe: MouseProbe,
)
    ensures
        ({
            let got = diff_selecting(mouse, app, now, probe);
            let count = click_number(app.diff_click_state, now, mouse.column, mouse.row);
            let dragging = app.diff_selection matches Some(sel) && sel.sel.dragging;
            &&& mouse.kind == MouseEventKind::Down(MouseButton::Left) && is_over(
                app.last_diff_rect,
                mouse,
            ) && probe.diff_pick is Some && (app.last_diff_hit matches Some(hit) && hit.row_count
                > 0) ==> got.done && got.effects == seq![
                Effect::Run(AppCommand::SetActivePanel(Panel::Diff)),
            ] && got.app == (TuiApp {
                diff_click_state: Some(
                    ClickState { at: now, column: mouse.column, row: mouse.row, count },
                ),
                diff_selection: Some(
                    DiffSelection {
                        sel: started_selection(count, probe.diff_pick->0.pick),
                        side: probe.diff_pick->0.side,
                    },
                ),
                last_drag_mouse: Some((mouse.column, mouse.row)),
                diff_autoscroll_at: None,
                ..app
            })
            &&& mouse.kind == MouseEventKind::Down(MouseButton::Left) && !is_over(
                app.last_diff_rect,
                mouse,
            ) ==> !got.done && got.effects == Seq::<Effect>::empty() && got.app == app
            &&& mouse.kind == MouseEventKind::Drag(MouseButton::Left) && dragging
                && app.last_diff_rect is Some && app.last_diff_hit is Some
                && probe.diff_drag is Some ==> got.done && got.app.diff_selection == Some(
                DiffSelection {
                    sel: PreviewSelection {
                        anchor: app.diff_selection->0.sel.anchor,
                        active: probe.diff_drag->0,
                        dragging: true,
                    },
                    side: app.diff_selection->0.side,
                },
            )
            &&& mouse.kind == MouseEventKind::Up(MouseButton::Left) && dragging
                && app.last_diff_rect is Some ==> got.done && got.app.diff_selection == Some(
                DiffSelection {
                    sel: PreviewSelection { dragging: false, ..app.diff_selection->0.sel },
                    side: app.diff_selection->0.side,
                },
            ) && got.app.last_drag_mouse is None
            &&& mouse.kind == MouseEventKind::Up(MouseButton::Left) && dragging
                && app.last_diff_rect is Some && app.last_diff_hit is Some
                && app.diff_selection->0.sel.anchor != app.diff_selection->0.sel.active
                ==> got.effects == copy_effects(probe.selected_text)
            &&& mouse.kind == MouseEventKind::Up(MouseButton::Left) && dragging
                && app.last_diff_rect is Some && app.diff_selection->0.sel.anchor
                == app.diff_selection->0.sel.active ==> got.effects == Seq::<Effect>::empty()
        }),
{
}

/// A press on the details of a commit starts a selection there and gives them the focus; a
/// drag moves the selection's end; letting go ends it and copies what is selected.
pub proof fn the_commit_is_selected_in(
    mouse: MouseEvent,
    app: TuiApp,
    now: Timestamp,
    probe: MouseProbe,
)
    requires
        app.last_commit_detail_rect is Some,
        app.has_commit_detail_hit,
    ensures
        ({
            let got = commit_selecting(mouse, app, now, probe);
            let count = click_number(app.commit_detail_click_state, now, mouse.column, mouse.row);
            let dragging = app.commit_detail_selection matches Some(sel) && sel.dragging;
            &&& mouse.kind == MouseEventKind::Down(MouseButton::Left) && is_over(
                app.last_commit_detail_rect,
                mouse,
            ) && probe.commit_pick is Some ==> got.done && got.effects == seq![
                Effect::Run(
                    AppCommand::SetActivePanel(
                        if app.graph_uses_three_col() {
                            Panel::Commit
                        } else {
                            Panel::Diff
                        },
                    ),
                ),
            ] && got.app == (TuiApp {
                commit_detail_click_state: Some(
                    ClickState { at: now, column: mouse.column, row: mouse.row, count },
                ),
                commit_detail_selection: Some(started_selection(count, probe.commit_pick->0)),
                ..app
            })
            &&& mouse.kind == MouseEventKind::Drag(MouseButton::Left) && dragging
                && probe.commit_drag is Some ==> got.done && got.app.commit_detail_selection
                == Some(
                PreviewSelection {
                    anchor: app.commit_detail_selection->0.anchor,
                    active: probe.commit_drag->0,
                    dragging: true,
                },
            )
            &&& mouse.kind == MouseEventKind::Up(MouseButton::Left) && dragging ==> got.done
                && got.app.commit_detail_selection == Some(
                PreviewSelection { dragging: false, ..app.commit_detail_selection->0 },
            )
            &&& mouse.kind == MouseEventKind::Up(MouseButton::Left) && dragging
                && app.commit_detail_selection->0.anchor != app.commit_detail_selection->0.active
                ==> got.effects == copy_effects(probe.selected_text)
            &&& mouse.kind == MouseEventKind::Up(MouseButton::Left) && dragging
                && app.commit_detail_selection->0.anchor == app.commit_detail_selection->0.active
                ==> got.effects == Seq::<Effect>::empty()
        }),
{
}

/// Control and a press on the preview, or else on the diff, goes to where the symbol there is
/// defined.
pub proof fn control_presses_jump(mouse: MouseEvent, app: TuiApp)
    ensures
        ({
            let pressed = mouse.kind == MouseEventKind::Down(MouseButton::Left)
                && mouse.modifiers.control;
            let anchor = NavAnchor::Mouse { col: mouse.column, row: mouse.row };
            &&& pressed && is_over(app.last_preview_rect, mouse) ==> jumps(mouse, app) == Some(
                Effect::GotoDefinition { in_diff: false, anchor },
            )
            &&& pressed && !is_over(app.last_preview_rect, mouse) && is_over(
                app.last_diff_rect,
                mouse,
            ) ==> jumps(mouse, app) == Some(Effect::GotoDefinition { in_diff: true, anchor })
            &&& !pressed || !is_over(app.last_preview_rect, mouse) && !is_over(
                app.last_diff_rect,
                mouse,
            ) ==> jumps(mouse, app) is None
        }),
{
}

/// The right button puts the context menu up over the row under it, or over the root where it
/// is pressed below the rows, and takes a menu that is up down.
pub proof fn the_right_button_opens_the_menu(
    mouse: MouseEvent,
    app: TuiApp,
    now: Timestamp,
    probe: MouseProbe,
)
    requires
        mouse.kind == MouseEventKind::Down(MouseButton::Right),
        app.engine.active_tab == Tab::Files,
        !app.engine.overlays.tree_edit,
        !app.engine.overlays.place_mode,
        app.engine.confirm is None,
    ensures
        ({
            let got = content_mouse_spec(mouse, app, now, probe);
            let hit = app.hit_registry.hit(mouse.column, mouse.row);
            let anchor = (mouse.column, mouse.row);
            &&& got.0 == app
            &&& app.engine.overlays.tree_context_menu ==> got.1 == seq![
                Effect::Run(AppCommand::CloseTreeContextMenu),
            ]
            &&& !app.engine.overlays.tree_context_menu ==> {
                &&& (hit matches Some(ClickAction::TreeClick(idx)) ==> got.1 == seq![
                    Effect::Run(
                        AppCommand::OpenTreeContextMenu { target_entry_idx: Some(idx), anchor },
                    ),
                ])
                &&& (hit matches Some(ClickAction::TreeClearSelection) ==> got.1 == seq![
                    Effect::Run(AppCommand::OpenTreeContextMenu { target_entry_idx: None, anchor }),
                ])
                &&& hit is None ==> got.1 == Seq::<Effect>::empty()
            }
        }),
{
}

/// While the list of places is up, the wheel scrolls it by one row.
pub proof fn the_wheel_scrolls_the_places(
    mouse: MouseEvent,
    app: TuiApp,
    now: Timestamp,
    probe: MouseProbe,
)
    requires
        app.engine.overlays.nav_candidates,
    ensures
        mouse.kind == MouseEventKind::ScrollUp ==> content_mouse_spec(mouse, app, now, probe) == (
            app,
            seq![Effect::NavScrollCandidates((-1) as i32)],
        ),
        mouse.kind == MouseEventKind::ScrollDown ==> content_mouse_spec(mouse, app, now, probe) == (
            app,
            seq![Effect::NavScrollCandidates(1)],
        ),
{
}

/// During a drag in the tree the mouse tells the row under it and what is held; letting go
/// drops there, and the right button gives the drag up.
pub proof fn drags_in_the_tree(mouse: MouseEvent, app: TuiApp)
    ensures
        ({
            let asked = tree_drag_mouse(mouse, app);
            let hit = app.hit_registry.hit(mouse.column, mouse.row);
            let mods = InputModifiers {
                alt: mouse.modifiers.alt,
                ctrl: mouse.modifiers.control,
                shift: mouse.modifiers.shift,
            };
            &&& mouse.kind == MouseEventKind::Drag(MouseButton::Left) ==> {
                &&& (hit matches Some(ClickAction::TreeClick(idx)) ==> asked == Some(
                    seq![
                        Effect::Run(AppCommand::UpdateTreeDragHover(Some(idx))),
                        Effect::Run(AppCommand::UpdateTreeDragModifiers(mods)),
                    ],
                ))
                &&& hit is None ==> asked == Some(
                    seq![
                        Effect::Run(AppCommand::UpdateTreeDragHover(None)),
                        Effect::Run(AppCommand::UpdateTreeDragModifiers(mods)),
                    ],
                )
            }
            &&& mouse.kind == MouseEventKind::Up(MouseButton::Left) ==> asked == Some(
                seq![
                    Effect::Run(AppCommand::DropTreeDrag { release_mods: mods }),
                    Effect::Then(Resume::RuntimeEvents),
                ],
            )
            &&& mouse.kind == MouseEventKind::Down(MouseButton::Right) ==> asked == Some(
                seq![Effect::Run(AppCommand::CancelTreeDrag)],
            )
            &&& mouse.kind == MouseEventKind::Moved ==> asked is None
        }),
{
}

/// A press on the tree that has moved far enough begins a drag of what it is meant for, over
/// the row that is now under the mouse; a press that is let go before that is forgotten.
pub proof fn presses_on_the_tree_become_drags(mouse: MouseEvent, app: TuiApp, probe: MouseProbe)
    requires
        !app.engine.overlays.tree_drag,
        app.engine.tree.drag_press_armed,
    ensures
        probe.starts_drag && !app.engine.overlays.place_mode && app.action_set()
            != PathSet::Nothing && app.hit_registry.hit(mouse.column, mouse.row) is None
            ==> drag_effects(mouse, app, probe) == seq![
            Effect::Run(
                AppCommand::BeginTreeDrag {
                    sources: app.action_set(),
                    mods: InputModifiers {
                        alt: mouse.modifiers.alt,
                        ctrl: mouse.modifiers.control,
                        shift: mouse.modifiers.shift,
                    },
                },
            ),
            Effect::Run(AppCommand::UpdateTreeDragHover(None)),
        ],
        probe.starts_drag && app.action_set() == PathSet::Nothing && app.hit_registry.hit(
            mouse.column,
            mouse.row,
        ) is None ==> drag_effects(mouse, app, probe) == seq![
            Effect::Run(AppCommand::CancelTreeDrag),
            Effect::Run(AppCommand::UpdateTreeDragHover(None)),
        ],
        release_effects(app) == seq![Effect::Run(AppCommand::CancelTreeDrag)],
{
}

/// Letting go of the left button ends the drag of an edge.
pub proof fn letting_go_ends_a_drag(
    mouse: MouseEvent,
    app: TuiApp,
    now: Timestamp,
    probe: MouseProbe,
)
    requires
        mouse.kind == MouseEventKind::Up(MouseButton::Left),
    ensures
        ({
            let got = panel_mouse_spec(mouse, app, now, probe);
            &&& got.0 == (TuiApp {
                dragging_split: false,
                dragging_graph_diff_split: false,
                ..app
            })
            &&& !app.engine.tree.drag_press_armed ==> got.1 == Seq::<Effect>::empty()
        }),
{
}

/// A dragged edge follows the mouse: the sidebar gets the percentage of the width that the
/// mouse is at, rounded down, and at least ten and at most eighty.
pub proof fn dragged_edges_follow_the_mouse(app: TuiApp, column: u16, width: u16)
    requires
        width > 0,
        app.dragging_split,
    ensures
        edge_drag_effects(app, column, width).len() == 1,
        edge_drag_effects(app, column, width)[0] matches Effect::Run(AppCommand::SetSplitPercent(percent))
            && 10 <= percent <= 80 && (percent > 10 ==> percent * width <= column * 100) && (percent
            < 80 ==> column * 100 < (percent + 1) * width),
{
    let percent = dragged_split(column as int, width as int) as u16;
    let share = column as int * 100 / width as int;
    assert(share * width <= column * 100 < (share + 1) * width) by (nonlinear_arith)
        requires
            share == column as int * 100 / width as int,
            width > 0,
            column >= 0,
    ;
    assert(percent > 10 ==> percent * width <= column * 100) by {
        if percent > 10 {
            assert(percent * width <= share * width) by (nonlinear_arith)
                requires
                    percent <= share,
                    width > 0,
            ;
        }
    }
    assert(percent < 80 ==> column * 100 < (percent + 1) * width) by {
        if percent < 80 {
            assert((share + 1) * width <= (percent + 1) * width) by (nonlinear_arith)
                requires
                    share <= percent,
                    width > 0,
            ;
        }
    }
    assert(edge_drag_effects(app, column, width) == seq![
        Effect::Run(AppCommand::SetSplitPercent(percent)),
    ]);
}

/// The edge of the diff of a commit's file follows the mouse: the diff gets the percentage of
/// what the sidebar leaves that lies right of the mouse, rounded down.
pub proof fn dragged_diff_edges_follow_the_mouse(column: int, width: int, split: int)
    requires
        0 <= column <= width,
        0 <= split,
        width * split / 100 < width,
    ensures
        dragged_diff_split(column, width, split) matches Some(percent) && ({
            let room = width - width * split / 100;
            percent * room <= (width - column) * 100 < (percent + 1) * room
        }),
{
    let room = width - width * split / 100;
    let share = (width - column) * 100 / room;
    assert(share * room <= (width - column) * 100 < (share + 1) * room) by (nonlinear_arith)
        requires
            share == (width - column) * 100 / room,
            room > 0,
    ;
}

/// Moving the mouse notes where it is. With Control held it underlines the identifier under
/// it; with Control let go it takes down a list that Control put up.
pub proof fn moves_are_noted(mouse: MouseEvent, app: TuiApp, probe: MouseProbe)
    ensures
        ({
            let got = move_spec(mouse, app, probe);
            let over_text = is_over(app.last_preview_rect, mouse)
                && app.last_preview_content_origin is Some && app.engine.preview.kind
                == PreviewKind::Text && app.engine.preview.row_count > 0;
            &&& got.0.hover_row == Some(mouse.row) && got.0.hover_col == Some(mouse.column)
            &&& !mouse.modifiers.control ==> got.0.diff_ctrl_hover is None
            &&& mouse.modifiers.control && is_over(app.last_diff_rect, mouse)
                && app.last_diff_hit is Some ==> got.0.diff_ctrl_hover == probe.diff_identifier
            &&& mouse.modifiers.control && over_text ==> got.1 == seq![
                Effect::Run(AppCommand::SetCtrlHoverTarget(probe.preview_identifier)),
            ]
            &&& !mouse.modifiers.control && !app.engine.nav_opened_by_ctrl_click ==> got.1 == seq![
                Effect::Run(AppCommand::SetCtrlHoverTarget(None)),
            ]
            &&& !mouse.modifiers.control && app.engine.nav_opened_by_ctrl_click ==> got.1 == seq![
                Effect::NavCloseCandidates,
                Effect::Run(AppCommand::SetCtrlHoverTarget(None)),
            ]
        }),
{
}

/// At a question a press on its button says yes, and a press anywhere else says no.
pub proof fn presses_answer_questions(mouse: MouseEvent, app: TuiApp)
    requires
        app.engine.confirm is Some,
    ensures
        ({
            let asked = confirm_mouse_effects(mouse, app);
            let hit = app.hit_registry.hit(mouse.column, mouse.row);
            let pressed = mouse.kind == MouseEventKind::Down(MouseButton::Left);
            &&& !pressed ==> asked == Seq::<Effect>::empty()
            &&& pressed && hit == Some(ClickAction::ConfirmModalPrimary) ==> asked == seq![
                Effect::Run(AppCommand::DismissConfirm),
                Effect::Run(AppCommand::ExecuteTreeDelete(app.engine.confirm->0.delete)),
                Effect::Then(Resume::RuntimeEvents),
            ]
            &&& pressed && hit != Some(ClickAction::ConfirmModalPrimary) ==> asked == seq![
                Effect::Run(AppCommand::DismissConfirm),
            ]
        }),
{
}

/// While dropped files wait for a folder, a press on a folder copies them there, a press on the
/// root copies them into it, and a press anywhere else, or the right button, forgets them; the
/// wheel scrolls the tree.
pub proof fn presses_place_dropped_files(mouse: MouseEvent, app: TuiApp, now: Timestamp)
    ensures
        ({
            let got = place_mouse_spec(mouse, app, now);
            let hit = app.hit_registry.hit(mouse.column, mouse.row);
            let pressed = mouse.kind == MouseEventKind::Down(MouseButton::Left);
            let entries = app.engine.tree.entries@;
            let rows = app.vertical_scroll_pacer.step_size(now);
            &&& (hit matches Some(ClickAction::PlaceModeFolder(idx)) ==> pressed && idx
                < entries.len() && entries[idx as int].is_dir ==> got.1 == seq![
                Effect::Run(
                    AppCommand::RequestFileCopy {
                        sources: CopySources::PlaceMode,
                        dest_dir: entries[idx as int].abs_path,
                    },
                ),
                Effect::Then(Resume::RuntimeEvents),
            ])
            &&& pressed && hit == Some(ClickAction::PlaceModeRoot) ==> got.1 == seq![
                Effect::Run(
                    AppCommand::RequestFileCopy {
                        sources: CopySources::PlaceMode,
                        dest_dir: app.engine.tree.root,
                    },
                ),
                Effect::Then(Resume::RuntimeEvents),
            ]
            &&& pressed && hit is None || mouse.kind == MouseEventKind::Down(MouseButton::Right)
                ==> got.1 == seq![Effect::Run(AppCommand::ExitPlaceMode)]
            &&& mouse.kind == MouseEventKind::ScrollUp ==> got.1 == seq![
                Effect::Run(AppCommand::ScrollFileTree((-rows) as i32)),
            ]
            &&& mouse.kind == MouseEventKind::ScrollDown ==> got.1 == seq![
                Effect::Run(AppCommand::ScrollFileTree(rows as i32)),
            ]
            &&& mouse.kind == MouseEventKind::Moved ==> got.0.hover_row == Some(mouse.row)
                && got.0.hover_col == Some(mouse.column) && got.1 == Seq::<Effect>::empty()
        }),
{
}

/// On the settings page a press does what is under it asks for; any button gives up the editor
/// command that is half typed first.
pub proof fn presses_on_the_settings(mouse: MouseEvent, app: TuiApp, idx: usize)
    requires
        app.engine.view_mode == ViewMode::Settings,
        app.hit_registry.hit(mouse.column, mouse.row) == Some(ClickAction::SettingsRow(idx)),
        mouse.kind == MouseEventKind::Down(MouseButton::Left),
    ensures
        app.engine.settings.editing_editor_command ==> settings_mouse_spec(mouse, app).1 == seq![
            Effect::Run(AppCommand::CancelSettingsEditorCommandEdit),
            Effect::Run(AppCommand::SelectSettingsRow(idx)),
            Effect::Then(Resume::SettingsRow),
        ],
        !app.engine.settings.editing_editor_command ==> settings_mouse_spec(mouse, app).1 == seq![
            Effect::Run(AppCommand::SelectSettingsRow(idx)),
            Effect::Then(Resume::SettingsRow),
        ],
{
}

/// In the hosts picker a press selects the row under it, and a second one connects; a press
/// outside closes the picker, and the wheel moves the selection.
pub proof fn presses_in_the_hosts_picker(mouse: MouseEvent, app: TuiApp, now: Timestamp)
    requires
        app.hosts_picker_popup_area is Some,
    ensures
        ({
            let got = picker_mouse_spec(Picker::Hosts, mouse, app, now);
            let hit = app.hit_registry.hit(mouse.column, mouse.row);
            let inside = is_over(app.hosts_picker_popup_area, mouse);
            let pressed = mouse.kind == MouseEventKind::Down(MouseButton::Left);
            let double = is_double_spec(app.last_click, now, mouse.column, mouse.row);
            let rows = app.vertical_scroll_pacer.step_size(now);
            &&& pressed && !inside ==> got.1 == seq![Effect::Run(AppCommand::CloseHostsPicker)]
            &&& (hit matches Some(ClickAction::HostsPickerSelect(idx)) ==> pressed && inside && !double
                ==> got.1 == seq![Effect::Run(AppCommand::SelectHostsPickerRow(idx))])
            &&& (hit matches Some(ClickAction::HostsPickerSelect(idx)) ==> pressed && inside && double
                ==> got.1 == seq![
                Effect::Run(AppCommand::SelectHostsPickerRow(idx)),
                Effect::Run(AppCommand::ConfirmHostsPicker),
                Effect::Then(Resume::RuntimeEvents),
            ])
            &&& pressed && inside && hit is None ==> got.1 == Seq::<Effect>::empty()
            &&& mouse.kind == MouseEventKind::ScrollUp && inside ==> got.1 == seq![
                Effect::Run(AppCommand::MoveHostsPickerSelection((-rows) as i32)),
            ]
            &&& mouse.kind == MouseEventKind::ScrollDown && inside ==> got.1 == seq![
                Effect::Run(AppCommand::MoveHostsPickerSelection(rows as i32)),
            ]
            &&& (mouse.kind == MouseEventKind::ScrollUp || mouse.kind
                == MouseEventKind::ScrollDown) && !inside ==> got == (app, Seq::<Effect>::empty())
        }),
{
}

/// In the branch picker a press selects the row under it, and a second one shows the branch; a
/// press outside closes the picker, and the wheel moves the selection.
pub proof fn presses_in_the_branch_picker(mouse: MouseEvent, app: TuiApp, now: Timestamp)
    requires
        app.graph_branch_picker_popup_area is Some,
    ensures
        ({
            let got = picker_mouse_spec(Picker::Branches, mouse, app, now);
            let hit = app.hit_registry.hit(mouse.column, mouse.row);
            let inside = is_over(app.graph_branch_picker_popup_area, mouse);
            let pressed = mouse.kind == MouseEventKind::Down(MouseButton::Left);
            let double = is_double_spec(app.last_click, now, mouse.column, mouse.row);
            let rows = app.vertical_scroll_pacer.step_size(now);
            &&& pressed && !inside ==> got.1 == seq![Effect::Run(AppCommand::CloseGraphBranchPicker)]
            &&& (hit matches Some(ClickAction::GraphBranchPickerSelect(idx)) ==> pressed && inside && !double
                ==> got.1 == seq![Effect::Run(AppCommand::SelectGraphBranchPickerRow { idx, visible_rows: 0 })])
            &&& (hit matches Some(ClickAction::GraphBranchPickerSelect(idx)) ==> pressed && inside && double
                ==> got.1 == seq![
                Effect::Run(AppCommand::SelectGraphBranchPickerRow { idx, visible_rows: 0 }),
                Effect::Run(AppCommand::ConfirmGraphBranchPicker),
                Effect::Then(Resume::RuntimeEvents),
            ])
            &&& pressed && inside && hit is None ==> got.1 == Seq::<Effect>::empty()
            &&& mouse.kind == MouseEventKind::ScrollUp && inside ==> got.1 == seq![
                Effect::Run(AppCommand::MoveGraphBranchPickerSelection { delta: (-rows) as i32, visible_rows: 0 }),
            ]
            &&& mouse.kind == MouseEventKind::ScrollDown && inside ==> got.1 == seq![
                Effect::Run(AppCommand::MoveGraphBranchPickerSelection { delta: rows as i32, visible_rows: 0 }),
            ]
            &&& (mouse.kind == MouseEventKind::ScrollUp || mouse.kind
                == MouseEventKind::ScrollDown) && !inside ==> got == (app, Seq::<Effect>::empty())
        }),
{
}

/// In quick open a press selects the file under it, and a second one opens it; a press outside
/// closes the palette, and the wheel moves the selection by three.
pub proof fn presses_in_quick_open(mouse: MouseEvent, app: TuiApp, now: Timestamp)
    requires
        app.quick_open_popup_area is Some,
    ensures
        ({
            let got = quick_open::handle_mouse_spec(mouse, app, now);
            let hit = app.hit_registry.hit(mouse.column, mouse.row);
            let inside = is_over(app.quick_open_popup_area, mouse);
            let pressed = mouse.kind == MouseEventKind::Down(MouseButton::Left);
            let double = is_double_spec(app.last_click, now, mouse.column, mouse.row);
            let visible_rows = app.layout.quick_open_last_view_h as usize;
            &&& pressed && !inside ==> got == (
                TuiApp { quick_open_leader_at: None, last_click: None, ..app },
                seq![Effect::Run(AppCommand::CloseQuickOpen)],
            )
            &&& (hit matches Some(ClickAction::QuickOpenSelect(idx)) ==> pressed && inside && !double
                ==> got.1 == seq![Effect::Run(AppCommand::SelectQuickOpenMatch { idx, visible_rows })])
            &&& (hit matches Some(ClickAction::QuickOpenSelect(idx)) ==> pressed && inside && double
                ==> got.1 == seq![
                Effect::Run(AppCommand::SelectQuickOpenMatch { idx, visible_rows }),
                Effect::Then(Resume::AcceptQuickOpen),
            ])
            &&& pressed && inside && hit is None ==> got.1 == Seq::<Effect>::empty()
            &&& mouse.kind == MouseEventKind::ScrollUp && inside ==> got == (
                app,
                seq![Effect::Run(AppCommand::MoveQuickOpenSelection { delta: (-3) as i32, visible_rows })],
            )
            &&& mouse.kind == MouseEventKind::ScrollDown && inside ==> got == (
                app,
                seq![Effect::Run(AppCommand::MoveQuickOpenSelection { delta: 3, visible_rows })],
            )
            &&& (mouse.kind == MouseEventKind::ScrollUp || mouse.kind
                == MouseEventKind::ScrollDown) && !inside ==> got == (app, Seq::<Effect>::empty())
        }),
{
}

/// In the global search a press selects the hit under it, and a second one opens it; a press
/// outside closes the palette, and the wheel moves the selection by three.
pub proof fn presses_in_the_global_search(mouse: MouseEvent, app: TuiApp, now: Timestamp)
    requires
        app.global_search_popup_area is Some,
    ensures
        ({
            let got = global_search::handle_mouse_spec(mouse, app, now);
            let hit = app.hit_registry.hit(mouse.column, mouse.row);
            let inside = is_over(app.global_search_popup_area, mouse);
            let pressed = mouse.kind == MouseEventKind::Down(MouseButton::Left);
            let double = is_double_spec(app.last_click, now, mouse.column, mouse.row);
            let visible_rows = app.layout.global_search_last_view_h as usize;
            &&& pressed && !inside ==> got == (
                TuiApp { global_search_leader_at: None, last_click: None, ..app },
                seq![Effect::Run(AppCommand::CloseGlobalSearch)],
            )
            &&& (hit matches Some(ClickAction::GlobalSearchSelect(idx)) ==> pressed && inside && !double
                ==> got.1 == seq![Effect::Run(AppCommand::SelectGlobalSearchResult { idx, visible_rows })])
            &&& (hit matches Some(ClickAction::GlobalSearchSelect(idx)) ==> pressed && inside && double
                ==> got.1 == seq![
                Effect::Run(AppCommand::SelectGlobalSearchResult { idx, visible_rows }),
                Effect::Then(Resume::AcceptGlobalSearch),
            ])
            &&& pressed && inside && hit is None ==> got.1 == Seq::<Effect>::empty()
            &&& mouse.kind == MouseEventKind::ScrollUp && inside ==> got == (
                app,
                seq![Effect::Run(AppCommand::MoveGlobalSearchSelection { delta: (-3) as i32, visible_rows })],
            )
            &&& mouse.kind == MouseEventKind::ScrollDown && inside ==> got == (
                app,
                seq![Effect::Run(AppCommand::MoveGlobalSearchSelection { delta: 3, visible_rows })],
            )
            &&& (mouse.kind == MouseEventKind::ScrollUp || mouse.kind
                == MouseEventKind::ScrollDown) && !inside ==> got == (app, Seq::<Effect>::empty())
        }),
{
}

} // verus!
