//! What the terminal asks of the engine. Commands that the engine answers with events are
//! followed by those; and what a command makes stale here is dropped with it.

use crate::app::{DbObjectKey, TuiApp};
use crate::command::{
    input_modifiers, run, run_and_drain, run_only, run_then_drain, two, AppCommand, CopySources,
    DbNav, Effect, PathSet, Resolution, Resume, Toast, TreeEditMode,
};
use crate::engine::{Panel, SettingItem, Tab};
use crate::event::KeyModifiers;
use crate::prefs::GraphScope;
use crate::settings::{cycle_effects, no_commit_selection};
use vstd::prelude::*;

verus! {

impl TuiApp {
    /// Leaves the program.
    pub fn quit(&self) -> (r: Vec<Effect>)
        ensures
            r@ == run_only(AppCommand::Quit),
    {
        run(AppCommand::Quit)
    }

    /// Shows the help.
    pub fn open_help(&self) -> (r: Vec<Effect>)
        ensures
            r@ == run_only(AppCommand::OpenHelp),
    {
        run(AppCommand::OpenHelp)
    }

    /// Takes the help down.
    pub fn close_help(&self) -> (r: Vec<Effect>)
        ensures
            r@ == run_only(AppCommand::CloseHelp),
    {
        run(AppCommand::CloseHelp)
    }

    /// Shows a notice.
    pub fn push_toast(&self, toast: Toast) -> (r: Vec<Effect>)
        ensures
            r@ == run_only(AppCommand::PushToast(toast)),
    {
        run(AppCommand::PushToast(toast))
    }

    /// Moves the focus to a panel.
    pub fn set_active_panel(&self, panel: Panel) -> (r: Vec<Effect>)
        ensures
            r@ == run_only(AppCommand::SetActivePanel(panel)),
    {
        run(AppCommand::SetActivePanel(panel))
    }

    /// Moves the focus to the next panel, or to the one before.
    pub fn cycle_active_panel(&self, reverse: bool) -> (r: Vec<Effect>)
        ensures
            r@ == run_only(
                AppCommand::CyclePanel { reverse, uses_three_col: self.graph_uses_three_col() },
            ),
    {
        run(AppCommand::CyclePanel { reverse, uses_three_col: self.graph_uses_three_col() })
    }

    /// Moves the focus off a column that is no longer shown. What the engine says to that goes to
    /// `after_panel_normalized`.
    pub fn normalize_active_panel(&self) -> (r: Vec<Effect>)
        ensures
            r@ == run_only(
                AppCommand::NormalizeActivePanel { uses_three_col: self.graph_uses_three_col() },
            ),
    {
        run(AppCommand::NormalizeActivePanel { uses_three_col: self.graph_uses_three_col() })
    }

    /// Replaces the matches that are checked.
    pub fn commit_replace_in_files(&self) -> (r: Vec<Effect>)
        ensures
            r@ == run_only(AppCommand::CommitReplaceInFiles),
    {
        run(AppCommand::CommitReplaceInFiles)
    }

    /// Hides or shows the sidebar.
    pub fn toggle_sidebar(&self) -> (r: Vec<Effect>)
        ensures
            r@ == run_and_drain(AppCommand::ToggleSidebar),
    {
        run_then_drain(AppCommand::ToggleSidebar)
    }

    /// Reads the state of the repository again.
    pub fn refresh_status(&self) -> (r: Vec<Effect>)
        ensures
            r@ == run_only(AppCommand::RefreshStatus),
    {
        run(AppCommand::RefreshStatus)
    }

    /// Leaves place mode without copying anything.
    pub fn exit_place_mode(&self) -> (r: Vec<Effect>)
        ensures
            r@ == run_only(AppCommand::ExitPlaceMode),
    {
        run(AppCommand::ExitPlaceMode)
    }

    /// Copies files into a directory.
    pub fn request_file_copy(&self, sources: CopySources, dest_dir: String) -> (r: Vec<Effect>)
        ensures
            r@ == run_and_drain(AppCommand::RequestFileCopy { sources, dest_dir }),
    {
        run_then_drain(AppCommand::RequestFileCopy { sources, dest_dir })
    }

    /// Puts paths on the clipboard to be moved.
    pub fn mark_cut(&self, paths: PathSet) -> (r: Vec<Effect>)
        ensures
            r@ == run_only(AppCommand::MarkCut(paths)),
    {
        run(AppCommand::MarkCut(paths))
    }

    /// Puts paths on the clipboard to be copied.
    pub fn mark_copy(&self, paths: PathSet) -> (r: Vec<Effect>)
        ensures
            r@ == run_only(AppCommand::MarkCopy(paths)),
    {
        run(AppCommand::MarkCopy(paths))
    }

    /// Forgets what is on the clipboard.
    pub fn clear_clipboard(&self) -> (r: Vec<Effect>)
        ensures
            r@ == run_only(AppCommand::ClearClipboard),
    {
        run(AppCommand::ClearClipboard)
    }

    /// Pastes into a directory, or into the root.
    pub fn paste_into(&self, dest: Option<String>) -> (r: Vec<Effect>)
        ensures
            r@ == run_and_drain(AppCommand::PasteInto(dest)),
    {
        run_then_drain(AppCommand::PasteInto(dest))
    }

    /// Copies the selection beside itself.
    pub fn duplicate_selection(&self) -> (r: Vec<Effect>)
        ensures
            r@ == run_and_drain(AppCommand::DuplicateSelection),
    {
        run_then_drain(AppCommand::DuplicateSelection)
    }

    /// Copies paths beside themselves.
    pub fn duplicate_paths(&self, sources: PathSet) -> (r: Vec<Effect>)
        ensures
            r@ == run_and_drain(AppCommand::DuplicatePaths(sources)),
    {
        run_then_drain(AppCommand::DuplicatePaths(sources))
    }

    /// Answers the question what becomes of a file whose name is taken.
    pub fn resolve_paste_conflict(
        &self,
        resolution: Resolution,
        apply_to_all: bool,
    ) -> (r: Vec<Effect>)
        ensures
            r@ == run_and_drain(AppCommand::ResolvePasteConflict { resolution, apply_to_all }),
    {
        run_then_drain(AppCommand::ResolvePasteConflict { resolution, apply_to_all })
    }

    /// Gives a paste up at such a question.
    pub fn cancel_paste_conflict(&self) -> (r: Vec<Effect>)
        ensures
            r@ == run_and_drain(AppCommand::CancelPasteConflict),
    {
        run_then_drain(AppCommand::CancelPasteConflict)
    }

    /// Notes the row that a drag is over.
    pub fn update_tree_drag_hover(&self, idx: Option<usize>) -> (r: Vec<Effect>)
        ensures
            r@ == run_only(AppCommand::UpdateTreeDragHover(idx)),
    {
        run(AppCommand::UpdateTreeDragHover(idx))
    }

    /// Notes the modifiers that are held during a drag.
    pub fn update_tree_drag_modifiers(&self, mods: KeyModifiers) -> (r: Vec<Effect>)
        ensures
            r@ == run_only(AppCommand::UpdateTreeDragModifiers(input_modifiers(mods))),
    {
        run(AppCommand::UpdateTreeDragModifiers(input_modifiers(mods)))
    }

    /// Gives a drag up.
    pub fn cancel_tree_drag(&self) -> (r: Vec<Effect>)
        ensures
            r@ == run_only(AppCommand::CancelTreeDrag),
    {
        run(AppCommand::CancelTreeDrag)
    }

    /// Opens the editor for a name in the file tree.
    pub fn begin_tree_edit(
        &self,
        mode: TreeEditMode,
        parent_dir: Option<String>,
        rename_target: Option<String>,
        anchor_idx: Option<usize>,
    ) -> (r: Vec<Effect>)
        ensures
            r@ == run_and_drain(
                AppCommand::BeginTreeEdit { mode, parent_dir, rename_target, anchor_idx },
            ),
    {
        run_then_drain(AppCommand::BeginTreeEdit { mode, parent_dir, rename_target, anchor_idx })
    }

    /// Takes the name over that was typed.
    pub fn commit_tree_edit(&self) -> (r: Vec<Effect>)
        ensures
            r@ == run_only(AppCommand::CommitTreeEdit),
    {
        run(AppCommand::CommitTreeEdit)
    }

    /// Forgets the name that was typed.
    pub fn cancel_tree_edit(&self) -> (r: Vec<Effect>)
        ensures
            r@ == run_only(AppCommand::CancelTreeEdit),
    {
        run(AppCommand::CancelTreeEdit)
    }

    /// Takes the tree's context menu down.
    pub fn close_tree_context_menu(&self) -> (r: Vec<Effect>)
        ensures
            r@ == run_only(AppCommand::CloseTreeContextMenu),
    {
        run(AppCommand::CloseTreeContextMenu)
    }

    /// Takes a question down.
    pub fn dismiss_confirm(&self) -> (r: Vec<Effect>)
        ensures
            r@ == run_only(AppCommand::DismissConfirm),
    {
        run(AppCommand::DismissConfirm)
    }

    /// Takes the hosts picker down.
    pub fn close_hosts_picker(&self) -> (r: Vec<Effect>)
        ensures
            r@ == run_only(AppCommand::CloseHostsPicker),
    {
        run(AppCommand::CloseHostsPicker)
    }

    /// Connects to the host that is picked.
    pub fn confirm_hosts_picker(&self) -> (r: Vec<Effect>)
        ensures
            r@ == run_and_drain(AppCommand::ConfirmHostsPicker),
    {
        run_then_drain(AppCommand::ConfirmHostsPicker)
    }

    /// Shows the branch picker.
    pub fn open_graph_branch_picker(&self) -> (r: Vec<Effect>)
        ensures
            r@ == run_and_drain(AppCommand::OpenGraphBranchPicker),
    {
        run_then_drain(AppCommand::OpenGraphBranchPicker)
    }

    /// Takes the branch picker down.
    pub fn close_graph_branch_picker(&self) -> (r: Vec<Effect>)
        ensures
            r@ == run_only(AppCommand::CloseGraphBranchPicker),
    {
        run(AppCommand::CloseGraphBranchPicker)
    }

    /// Shows the branch that is picked.
    pub fn confirm_graph_branch_picker(&self) -> (r: Vec<Effect>)
        ensures
            r@ == run_and_drain(AppCommand::ConfirmGraphBranchPicker),
    {
        run_then_drain(AppCommand::ConfirmGraphBranchPicker)
    }

    /// Reads the file tree again.
    pub fn refresh_file_tree(&self) -> (r: Vec<Effect>)
        ensures
            r@ == run_only(AppCommand::RefreshFileTree),
    {
        run(AppCommand::RefreshFileTree)
    }

    /// Reads the file tree again, and selects a path in it.
    pub fn refresh_file_tree_with_target(&self, selected_path: Option<String>) -> (r: Vec<Effect>)
        ensures
            r@ == run_only(AppCommand::RefreshFileTreeWithTarget(selected_path)),
    {
        run(AppCommand::RefreshFileTreeWithTarget(selected_path))
    }

    /// Shows the preview of the selected file.
    pub fn load_preview(&mut self) -> (r: Vec<Effect>)
        ensures
            r@ == run_only(AppCommand::LoadSelectedPreview),
            *final(self) == (TuiApp { g_pending_at: None, ..*old(self) }),
    {
        self.clear_g_chord();
        run(AppCommand::LoadSelectedPreview)
    }

    /// Shows the preview of the selected file anew, without waiting for the selection to settle.
    pub fn reload_preview_now(&self) -> (r: Vec<Effect>)
        ensures
            r@ == run_only(
                AppCommand::ReloadPreviewNow {
                    dark: self.theme.is_dark,
                    wants_decoded_image: self.has_image_picker,
                },
            ),
    {
        run(
            AppCommand::ReloadPreviewNow {
                dark: self.theme.is_dark,
                wants_decoded_image: self.has_image_picker,
            },
        )
    }

    /// Moves through a database.
    pub fn db_navigate(&self, action: DbNav) -> (r: Vec<Effect>)
        ensures
            r@ == run_only(AppCommand::DbNavigate(action)),
    {
        run(AppCommand::DbNavigate(action))
    }

    /// Opens or closes a schema.
    pub fn db_toggle_schema(&self, name: String) -> (r: Vec<Effect>)
        ensures
            r@ == run_only(AppCommand::DbToggleSchema(name)),
    {
        run(AppCommand::DbToggleSchema(name))
    }

    /// Shows a table.
    pub fn db_select_object(&self, key: DbObjectKey) -> (r: Vec<Effect>)
        ensures
            r@ == run_only(
                AppCommand::DbSelectObject { schema: key.schema, name: key.name, kind: key.kind },
            ),
    {
        run(AppCommand::DbSelectObject { schema: key.schema, name: key.name, kind: key.kind })
    }

    /// Shows a page, counted from one.
    pub fn db_navigate_to_page(&self, page_one_based: u64) -> (r: Vec<Effect>)
        ensures
            r@ == run_only(AppCommand::DbNavigateToPage(page_one_based)),
    {
        run(AppCommand::DbNavigateToPage(page_one_based))
    }

    /// Shows the preview of a file.
    pub fn load_preview_for_path(&mut self, rel_path: String) -> (r: Vec<Effect>)
        ensures
            r@ == run_only(AppCommand::LoadPreview(rel_path)),
            *final(self) == (TuiApp { g_pending_at: None, ..*old(self) }),
    {
        self.clear_g_chord();
        run(AppCommand::LoadPreview(rel_path))
    }

    /// Selects a changed file.
    pub fn select_file(&self, path: String, is_staged: bool) -> (r: Vec<Effect>)
        ensures
            r@ == run_and_drain(
                AppCommand::SelectGitFile { path, is_staged, dark: self.theme.is_dark },
            ),
    {
        run_then_drain(AppCommand::SelectGitFile { path, is_staged, dark: self.theme.is_dark })
    }

    /// Selects a changed file that is to be discarded.
    pub fn select_git_file_for_discard(&self, path: String, is_staged: bool) -> (r: Vec<Effect>)
        ensures
            r@ == run_and_drain(
                AppCommand::SelectGitFileForDiscard { path, is_staged, dark: self.theme.is_dark },
            ),
    {
        run_then_drain(
            AppCommand::SelectGitFileForDiscard { path, is_staged, dark: self.theme.is_dark },
        )
    }

    /// Shows the diff of the selected file.
    pub fn load_diff(&self) -> (r: Vec<Effect>)
        ensures
            r@ == run_and_drain(AppCommand::LoadDiff { dark: self.theme.is_dark }),
    {
        run_then_drain(AppCommand::LoadDiff { dark: self.theme.is_dark })
    }

    /// Stages a file.
    pub fn stage_file(&self, path: String) -> (r: Vec<Effect>)
        ensures
            r@ == run_only(AppCommand::StageFile { path, dark: self.theme.is_dark }),
    {
        run(AppCommand::StageFile { path, dark: self.theme.is_dark })
    }

    /// Takes a file out of the index.
    pub fn unstage_file(&self, path: String) -> (r: Vec<Effect>)
        ensures
            r@ == run_only(AppCommand::UnstageFile { path, dark: self.theme.is_dark }),
    {
        run(AppCommand::UnstageFile { path, dark: self.theme.is_dark })
    }

    /// Stages everything.
    pub fn stage_all(&self) -> (r: Vec<Effect>)
        ensures
            r@ == run_only(AppCommand::StageAll { dark: self.theme.is_dark }),
    {
        run(AppCommand::StageAll { dark: self.theme.is_dark })
    }

    /// Takes everything out of the index.
    pub fn unstage_all(&self) -> (r: Vec<Effect>)
        ensures
            r@ == run_only(AppCommand::UnstageAll { dark: self.theme.is_dark }),
    {
        run(AppCommand::UnstageAll { dark: self.theme.is_dark })
    }

    /// Stages a directory.
    pub fn stage_folder(&self, path: String) -> (r: Vec<Effect>)
        ensures
            r@ == run_only(AppCommand::StageFolder { path, dark: self.theme.is_dark }),
    {
        run(AppCommand::StageFolder { path, dark: self.theme.is_dark })
    }

    /// Takes a directory out of the index.
    pub fn unstage_folder(&self, path: String) -> (r: Vec<Effect>)
        ensures
            r@ == run_only(AppCommand::UnstageFolder { path, dark: self.theme.is_dark }),
    {
        run(AppCommand::UnstageFolder { path, dark: self.theme.is_dark })
    }

    /// Discards the changes that were asked about.
    pub fn confirm_discard(&self) -> (r: Vec<Effect>)
        ensures
            r@ == run_only(AppCommand::ConfirmDiscard { dark: self.theme.is_dark }),
    {
        run(AppCommand::ConfirmDiscard { dark: self.theme.is_dark })
    }

    /// Reads the commit graph again if a ref has moved.
    pub fn refresh_graph(&self) -> (r: Vec<Effect>)
        ensures
            r@ == run_only(AppCommand::RefreshGraph),
    {
        run(AppCommand::RefreshGraph)
    }

    /// Reads the commit graph again.
    pub fn refresh_graph_uncached(&self) -> (r: Vec<Effect>)
        ensures
            r@ == run_only(AppCommand::RefreshGraphUncached),
    {
        run(AppCommand::RefreshGraphUncached)
    }

    /// Shows a part of the commit graph.
    pub fn set_graph_scope(&self, scope: GraphScope) -> (r: Vec<Effect>)
        ensures
            r@ == run_and_drain(AppCommand::SetGraphScope(scope)),
    {
        run_then_drain(AppCommand::SetGraphScope(scope))
    }

    /// Shows the selected commit.
    pub fn load_commit_detail(&self) -> (r: Vec<Effect>)
        ensures
            r@ == run_and_drain(AppCommand::LoadCommitDetail),
    {
        run_then_drain(AppCommand::LoadCommitDetail)
    }

    /// Shows the selected range of commits.
    pub fn load_commit_range_detail(&self) -> (r: Vec<Effect>)
        ensures
            r@ == run_and_drain(AppCommand::LoadCommitRangeDetail),
    {
        run_then_drain(AppCommand::LoadCommitRangeDetail)
    }

    /// Shows what is selected in the graph.
    pub fn reload_graph_selection(&self) -> (r: Vec<Effect>)
        ensures
            r@ == run_and_drain(AppCommand::ReloadGraphSelection),
    {
        run_then_drain(AppCommand::ReloadGraphSelection)
    }

    /// Shows the diff of a file of the commit.
    pub fn load_commit_file_diff(&self, path: String) -> (r: Vec<Effect>)
        ensures
            r@ == run_and_drain(
                AppCommand::LoadCommitFileDiff {
                    path,
                    dark: self.theme.is_dark,
                    uses_three_col: self.graph_uses_three_col(),
                },
            ),
    {
        run_then_drain(
            AppCommand::LoadCommitFileDiff {
                path,
                dark: self.theme.is_dark,
                uses_three_col: self.graph_uses_three_col(),
            },
        )
    }

    /// Shows the diff of the commit's file anew.
    pub fn reload_commit_file_diff(&self) -> (r: Vec<Effect>)
        ensures
            r@ == run_and_drain(
                AppCommand::ReloadCommitFileDiff {
                    dark: self.theme.is_dark,
                    uses_three_col: self.graph_uses_three_col(),
                },
            ),
    {
        run_then_drain(
            AppCommand::ReloadCommitFileDiff {
                dark: self.theme.is_dark,
                uses_three_col: self.graph_uses_three_col(),
            },
        )
    }

    /// Moves the selection in the graph.
    pub fn move_graph_selection(&self, delta: i32) -> (r: Vec<Effect>)
        ensures
            r@ == run_and_drain(AppCommand::MoveGraphSelection(delta)),
    {
        run_then_drain(AppCommand::MoveGraphSelection(delta))
    }

    /// Selects a commit.
    pub fn select_graph_commit(&self, oid: String) -> (r: Vec<Effect>)
        ensures
            r@ == run_and_drain(AppCommand::SelectGraphCommit(oid)),
    {
        run_then_drain(AppCommand::SelectGraphCommit(oid))
    }

    /// Selects a commit, and drops a text selection in the details of the last one.
    pub fn focus_graph_commit(&mut self, oid: String) -> (r: Vec<Effect>)
        ensures
            r@ == run_only(AppCommand::FocusGraphCommit(oid)),
            *final(self) == no_commit_selection(*old(self)),
    {
        self.clear_commit_detail_selection();
        run(AppCommand::FocusGraphCommit(oid))
    }

    /// Extends the selection in the graph.
    pub fn extend_graph_selection(&self, delta: i32) -> (r: Vec<Effect>)
        ensures
            r@ == run_and_drain(AppCommand::ExtendGraphSelection(delta)),
    {
        run_then_drain(AppCommand::ExtendGraphSelection(delta))
    }

    /// Selects a single commit again.
    pub fn clear_graph_range(&self) -> (r: Vec<Effect>)
        ensures
            r@ == run_and_drain(AppCommand::ClearGraphRange),
    {
        run_then_drain(AppCommand::ClearGraphRange)
    }

    /// Commits.
    pub fn run_commit(&self) -> (r: Vec<Effect>)
        ensures
            r@ == run_only(AppCommand::RunCommit),
    {
        run(AppCommand::RunCommit)
    }

    /// Pushes.
    pub fn run_push(&self, force: bool) -> (r: Vec<Effect>)
        ensures
            r@ == run_only(AppCommand::RunPush { force }),
    {
        run(AppCommand::RunPush { force })
    }

    /// Gives the whole screen to the preview.
    pub fn enter_focused_preview(&mut self) -> (r: Vec<Effect>)
        ensures
            r@ == run_only(
                AppCommand::EnterFocusedPreview {
                    uses_three_col: old(self).graph_uses_three_col(),
                },
            ),
            *final(self) == (TuiApp { space_leader_at: None, g_pending_at: None, ..*old(self) }),
    {
        self.clear_input_chords();
        run(AppCommand::EnterFocusedPreview { uses_three_col: self.graph_uses_three_col() })
    }

    /// Gives the whole screen to the preview of a file.
    pub fn enter_focused_preview_with_file(&mut self, rel: String) -> (r: Vec<Effect>)
        ensures
            r@ == run_and_drain(
                AppCommand::EnterFocusedPreviewWithFile {
                    rel,
                    dark: old(self).theme.is_dark,
                    wants_decoded_image: old(self).has_image_picker,
                },
            ),
            *final(self) == (TuiApp { space_leader_at: None, g_pending_at: None, ..*old(self) }),
    {
        self.clear_input_chords();
        run_then_drain(
            AppCommand::EnterFocusedPreviewWithFile {
                rel,
                dark: self.theme.is_dark,
                wants_decoded_image: self.has_image_picker,
            },
        )
    }

    /// Takes the screen back from the preview.
    pub fn close_focused_preview(&mut self) -> (r: Vec<Effect>)
        ensures
            r@ == run_only(AppCommand::CloseFocusedPreview),
            *final(self) == (TuiApp { space_leader_at: None, g_pending_at: None, ..*old(self) }),
    {
        self.clear_input_chords();
        run(AppCommand::CloseFocusedPreview)
    }

    /// Gives the whole screen to the preview, or takes it back.
    pub fn toggle_focused_preview(&mut self) -> (r: Vec<Effect>)
        ensures
            r@ == run_only(
                AppCommand::ToggleFocusedPreview {
                    uses_three_col: old(self).graph_uses_three_col(),
                },
            ),
            *final(self) == (TuiApp { space_leader_at: None, g_pending_at: None, ..*old(self) }),
    {
        self.clear_input_chords();
        run(AppCommand::ToggleFocusedPreview { uses_three_col: self.graph_uses_three_col() })
    }

    /// Shows the list of changed files.
    pub fn open_focused_preview_files(&self) -> (r: Vec<Effect>)
        ensures
            r@ == run_only(AppCommand::OpenFocusedPreviewFiles),
    {
        run(AppCommand::OpenFocusedPreviewFiles)
    }

    /// Takes the list of changed files down.
    pub fn close_focused_preview_files(&self) -> (r: Vec<Effect>)
        ensures
            r@ == run_only(AppCommand::CloseFocusedPreviewFiles),
    {
        run(AppCommand::CloseFocusedPreviewFiles)
    }

    /// Shows the list of changed files, or takes it down.
    pub fn toggle_focused_preview_files(&self) -> (r: Vec<Effect>)
        ensures
            r@ == run_only(AppCommand::ToggleFocusedPreviewFiles),
    {
        run(AppCommand::ToggleFocusedPreviewFiles)
    }

    /// Moves through the list of changed files.
    pub fn move_focused_preview_files_selection(&self, delta: i32) -> (r: Vec<Effect>)
        ensures
            r@ == run_only(AppCommand::MoveFocusedPreviewFilesSelection(delta)),
    {
        run(AppCommand::MoveFocusedPreviewFilesSelection(delta))
    }

    /// Shows the file that is picked in the list.
    pub fn confirm_focused_preview_files_selection(&self) -> (r: Vec<Effect>)
        ensures
            r@ == run_and_drain(
                AppCommand::ConfirmFocusedPreviewFilesSelection {
                    dark: self.theme.is_dark,
                    uses_three_col: self.graph_uses_three_col(),
                },
            ),
    {
        run_then_drain(
            AppCommand::ConfirmFocusedPreviewFilesSelection {
                dark: self.theme.is_dark,
                uses_three_col: self.graph_uses_three_col(),
            },
        )
    }

    /// Shows a file of the list.
    pub fn pick_focused_preview_file(&self, idx: usize) -> (r: Vec<Effect>)
        ensures
            r@ == run_and_drain(
                AppCommand::PickFocusedPreviewFile {
                    idx,
                    dark: self.theme.is_dark,
                    uses_three_col: self.graph_uses_three_col(),
                },
            ),
    {
        run_then_drain(
            AppCommand::PickFocusedPreviewFile {
                idx,
                dark: self.theme.is_dark,
                uses_three_col: self.graph_uses_three_col(),
            },
        )
    }

    /// Shows a tab.
    pub fn set_active_tab(&self, tab: Tab) -> (r: Vec<Effect>)
        ensures
            r@ == run_and_drain(AppCommand::SetActiveTab(tab)),
    {
        run_then_drain(AppCommand::SetActiveTab(tab))
    }

    /// Moves through the changed files.
    pub fn navigate_files(&self, delta: i32) -> (r: Vec<Effect>)
        ensures
            r@ == run_only(AppCommand::NavigateGitFiles(delta)),
    {
        run(AppCommand::NavigateGitFiles(delta))
    }

    /// Drops a drag, moving its files or copying them as the modifiers say. Nothing happens
    /// where nothing is dragged.
    pub fn commit_tree_drag(&self, release_mods: KeyModifiers) -> (r: Vec<Effect>)
        ensures
            r@ == (if self.engine.overlays.tree_drag {
                run_and_drain(
                    AppCommand::DropTreeDrag { release_mods: input_modifiers(release_mods) },
                )
            } else {
                crate::command::nothing()
            }),
    {
        if !self.engine.overlays.tree_drag {
            return crate::command::none();
        }
        run_then_drain(AppCommand::DropTreeDrag { release_mods: input_modifiers(release_mods) })
    }

    /// Reads the ssh hosts and the recent targets, and shows the hosts picker.
    pub fn open_hosts_picker(&self) -> (r: Vec<Effect>)
        ensures
            r@ == seq![Effect::OpenHostsPicker],
    {
        crate::command::one(Effect::OpenHostsPicker)
    }

    /// Switches between a unified and a side-by-side diff.
    pub fn toggle_diff_layout(&mut self) -> (r: Vec<Effect>)
        ensures
            *final(self) == cycle_effects(*old(self), SettingItem::DiffLayout).0,
            r@ == cycle_effects(*old(self), SettingItem::DiffLayout).1,
    {
        self.clear_diff_selection();
        two(Effect::Run(AppCommand::ToggleDiffLayout), Effect::SaveDiffPrefs)
    }

    /// Switches between the changed parts and the whole file in a diff.
    pub fn toggle_diff_mode(&mut self) -> (r: Vec<Effect>)
        ensures
            *final(self) == cycle_effects(*old(self), SettingItem::DiffMode).0,
            r@ == cycle_effects(*old(self), SettingItem::DiffMode).1,
    {
        self.clear_diff_selection();
        two(
            Effect::Run(AppCommand::ToggleDiffMode { dark: self.theme.is_dark }),
            Effect::SaveDiffPrefs,
        )
    }

    /// Switches between a list and a tree of the changed files.
    pub fn toggle_status_tree_mode(&self) -> (r: Vec<Effect>)
        ensures
            r@ == cycle_effects(*self, SettingItem::StatusTreeMode).1,
    {
        two(Effect::Run(AppCommand::ToggleStatusTreeMode), Effect::SaveStatusTreeMode)
    }

    /// Switches between a unified and a side-by-side diff of a commit.
    pub fn toggle_commit_diff_layout(&mut self) -> (r: Vec<Effect>)
        ensures
            *final(self) == cycle_effects(*old(self), SettingItem::CommitDiffLayout).0,
            r@ == cycle_effects(*old(self), SettingItem::CommitDiffLayout).1,
    {
        self.clear_commit_detail_selection();
        two(Effect::Run(AppCommand::ToggleCommitDiffLayout), Effect::SaveCommitDiffLayout)
    }

    /// Switches between the changed parts and the whole file in a diff of a commit, and
    /// loads the diff anew.
    pub fn toggle_commit_diff_mode(&mut self) -> (r: Vec<Effect>)
        ensures
            *final(self) == cycle_effects(*old(self), SettingItem::CommitDiffMode).0,
            r@ == cycle_effects(*old(self), SettingItem::CommitDiffMode).1,
    {
        self.clear_commit_detail_selection();
        vec![
            Effect::Run(AppCommand::ToggleCommitDiffMode),
            Effect::SaveCommitDiffMode,
            Effect::Run(
                AppCommand::ReloadCommitFileDiff {
                    dark: self.theme.is_dark,
                    uses_three_col: self.graph_uses_three_col(),
                },
            ),
            Effect::Then(Resume::RuntimeEvents),
        ]
    }

    /// Switches between a list and a tree of a commit's files.
    pub fn toggle_commit_files_tree_mode(&mut self) -> (r: Vec<Effect>)
        ensures
            *final(self) == cycle_effects(*old(self), SettingItem::CommitFilesTreeMode).0,
            r@ == cycle_effects(*old(self), SettingItem::CommitFilesTreeMode).1,
    {
        self.clear_commit_detail_selection();
        two(
            Effect::Run(AppCommand::ToggleCommitFilesTreeMode),
            Effect::SaveCommitFilesTreeMode,
        )
    }
}

} // verus!
