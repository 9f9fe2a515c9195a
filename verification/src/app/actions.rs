//! What a click on something asks for.

use crate::app::TuiApp;
use crate::command::{
    none, nothing, one, run, run_and_drain, run_only, two, AppCommand, CopySources, DbNav, Effect,
    FindWidgetToggle, Resume, Toast, ToastText, TreeEditMode,
};
use crate::engine::{SettingItem, Tab, ViewMode};
use crate::find_widget;
use crate::ui::mouse::ClickAction;
use vstd::prelude::*;

verus! {

impl TuiApp {
    /// What opening the settings asks for. They are left alone while they are open, so
    /// that nothing half typed is lost.
    pub open spec fn open_settings_effects(&self) -> Seq<Effect> {
        if self.engine.view_mode == ViewMode::Settings {
            nothing()
        } else {
            seq![
                Effect::Run(AppCommand::OpenSettings),
                Effect::Run(AppCommand::CancelSettingsEditorCommandEdit),
                Effect::RefreshPrefCache,
                Effect::Run(AppCommand::RefreshLspInstalled),
            ]
        }
    }

    /// Opens the settings.
    pub fn open_settings(&self) -> (r: Vec<Effect>)
        ensures
            r@ == self.open_settings_effects(),
    {
        if self.engine.view_mode == ViewMode::Settings {
            return none();
        }
        vec![
            Effect::Run(AppCommand::OpenSettings),
            Effect::Run(AppCommand::CancelSettingsEditorCommandEdit),
            Effect::RefreshPrefCache,
            Effect::Run(AppCommand::RefreshLspInstalled),
        ]
    }

    /// Closes the settings. What is half typed is dropped.
    pub fn close_settings(&self) -> (r: Vec<Effect>)
        ensures
            r@ == seq![
                Effect::Run(AppCommand::CloseSettings),
                Effect::Run(AppCommand::CancelSettingsEditorCommandEdit),
            ],
    {
        two(
            Effect::Run(AppCommand::CloseSettings),
            Effect::Run(AppCommand::CancelSettingsEditorCommandEdit),
        )
    }

    /// What collapsing every folder asks for. The selected entry stays selected.
    pub open spec fn collapse_all_effects(&self) -> Seq<Effect> {
        let tree = self.engine.tree;
        seq![
            Effect::Run(AppCommand::CollapseAllTreeEntries),
            Effect::Run(
                AppCommand::RefreshFileTreeWithTarget(
                    if tree.selected < tree.entries@.len() {
                        Some(tree.entries@[tree.selected as int].path)
                    } else {
                        None
                    },
                ),
            ),
        ]
    }

    /// Collapses every folder.
    pub fn collapse_all_tree_entries(&self) -> (r: Vec<Effect>)
        ensures
            r@ == self.collapse_all_effects(),
    {
        let tree = &self.engine.tree;
        let selected: Option<String> = if tree.selected < tree.entries.len() {
            Some(tree.entries[tree.selected].path.clone())
        } else {
            None
        };
        two(
            Effect::Run(AppCommand::CollapseAllTreeEntries),
            Effect::Run(AppCommand::RefreshFileTreeWithTarget(selected)),
        )
    }

    /// What dropping what place mode carries on the row `index` asks for. A row that is
    /// no folder cancels.
    pub open spec fn place_effects(&self, index: usize) -> Seq<Effect> {
        let entries = self.engine.tree.entries@;
        if index < entries.len() && entries[index as int].is_dir {
            run_and_drain(
                AppCommand::RequestFileCopy {
                    sources: CopySources::PlaceMode,
                    dest_dir: entries[index as int].abs_path,
                },
            )
        } else {
            run_only(AppCommand::ExitPlaceMode)
        }
    }

    fn place_on_row(&self, index: usize) -> (r: Vec<Effect>)
        ensures
            r@ == self.place_effects(index),
    {
        if index < self.engine.tree.entries.len() && self.engine.tree.entries[index].is_dir {
            let dest_dir = self.engine.tree.entries[index].abs_path.clone();
            self.request_file_copy(CopySources::PlaceMode, dest_dir)
        } else {
            self.exit_place_mode()
        }
    }

    /// What a click on `action` asks for.
    pub open spec fn action_effects(&self, action: ClickAction) -> Seq<Effect> {
        let dark = self.theme.is_dark;
        let on_search_tab = self.engine.active_tab == Tab::Search;
        match action {
            ClickAction::SwitchTab(tab) => run_and_drain(AppCommand::SetActiveTab(tab)),
            ClickAction::ToggleSidebar => run_and_drain(AppCommand::ToggleSidebar),
            ClickAction::OpenSettings => self.open_settings_effects(),
            ClickAction::OpenHostsPicker => seq![Effect::OpenHostsPicker],
            ClickAction::TreeClick(idx) => run_only(AppCommand::ActivateFileTreeEntryAtIndex(idx)),
            ClickAction::TreeClearSelection => run_only(AppCommand::ClearFileTreeSelectionAndEdit),
            ClickAction::SelectFile { path, staged } => run_and_drain(
                AppCommand::SelectGitFile { path, is_staged: staged, dark },
            ),
            ClickAction::StageFile(path) => run_only(AppCommand::StageFile { path, dark }),
            ClickAction::UnstageFile(path) => run_only(AppCommand::UnstageFile { path, dark }),
            ClickAction::StartDragSplit => nothing(),
            ClickAction::StartDragGraphDiffSplit => nothing(),
            ClickAction::GitCommand { command, oid, payload } => seq![
                Effect::GitCommand { command, payload },
            ],
            // The palettes and pickers see their own clicks before they get here.
            ClickAction::QuickOpenSelect(_) => nothing(),
            ClickAction::GraphBranchPickerSelect(_) => nothing(),
            ClickAction::GlobalSearchSelect(idx) => if on_search_tab {
                seq![
                    Effect::Run(
                        AppCommand::SelectGlobalSearchResult {
                            idx,
                            visible_rows: self.layout.global_search_last_view_h as usize,
                        },
                    ),
                    Effect::Run(AppCommand::SyncGlobalSearchPreviewToSelected),
                ]
            } else {
                nothing()
            },
            ClickAction::GlobalSearchFocusInput => if on_search_tab {
                run_only(AppCommand::FocusGlobalSearchFindInput)
            } else {
                nothing()
            },
            ClickAction::GlobalSearchFocusReplaceInput => if on_search_tab
                && self.engine.global_search.replace_open {
                run_only(AppCommand::FocusGlobalSearchReplaceInput)
            } else {
                nothing()
            },
            ClickAction::SearchToggleReplace => if on_search_tab {
                run_only(AppCommand::ToggleGlobalSearchReplaceForSearchTab)
            } else {
                nothing()
            },
            ClickAction::SearchToggleMatch(idx) => run_only(
                AppCommand::ToggleGlobalSearchMatchExcluded(idx),
            ),
            ClickAction::SearchApplyReplace => run_only(AppCommand::CommitReplaceInFiles),
            ClickAction::PlaceModeFolder(idx) => self.place_effects(idx),
            ClickAction::PlaceModeRoot => run_and_drain(
                AppCommand::RequestFileCopy {
                    sources: CopySources::PlaceMode,
                    dest_dir: self.engine.tree.root,
                },
            ),
            ClickAction::FileTreeToolbarNewFile => self.toolbar_create_effects(
                TreeEditMode::NewFile,
            ),
            ClickAction::FileTreeToolbarNewFolder => self.toolbar_create_effects(
                TreeEditMode::NewFolder,
            ),
            ClickAction::FileTreeToolbarCollapse => self.collapse_all_effects(),
            ClickAction::TreeContextMenuItem(item) => run_only(AppCommand::CloseTreeContextMenu)
                + (if item.is_enabled(self.engine.tree.clipboard_is_empty) {
                self.menu_item_effects(item)
            } else {
                nothing()
            }),
            ClickAction::TreeContextMenuClose => run_only(AppCommand::CloseTreeContextMenu),
            ClickAction::NavCandidateSelect(idx) => seq![
                Effect::Run(AppCommand::SelectNavCandidate(idx)),
                Effect::NavPickCandidate,
            ],
            ClickAction::NavCandidateGroupToggle(idx) => seq![Effect::NavToggleCandidateGroup(idx)],
            ClickAction::NavCandidatesClose => seq![Effect::NavCloseCandidates],
            ClickAction::NavCandidatesCapture => nothing(),
            ClickAction::OpenMarkdownLink(target) => seq![Effect::ResolveMarkdownLink(target)],
            ClickAction::HostsPickerSelect(idx) => seq![
                Effect::Run(AppCommand::SelectHostsPickerRow(idx)),
                Effect::Run(AppCommand::EnterHostsPickerPathMode),
            ],
            ClickAction::DbPrevPage => run_only(AppCommand::DbNavigate(DbNav::PrevPage)),
            ClickAction::DbNextPage => run_only(AppCommand::DbNavigate(DbNav::NextPage)),
            ClickAction::DbGotoPage(page) => run_only(AppCommand::DbNavigateToPage(page)),
            ClickAction::DbSelectObject { schema, name, kind } => run_only(
                AppCommand::DbSelectObject { schema, name, kind },
            ),
            ClickAction::DbToggleSchema(name) => run_only(AppCommand::DbToggleSchema(name)),
            ClickAction::FindWidgetClose => run_only(AppCommand::CloseFindWidget { dark }),
            ClickAction::FindWidgetNext => if self.engine.find_widget.has_matches {
                find_widget::step_effects(*self, false)
            } else {
                nothing()
            },
            ClickAction::FindWidgetPrev => if self.engine.find_widget.has_matches {
                find_widget::step_effects(*self, true)
            } else {
                nothing()
            },
            ClickAction::FindWidgetToggleCase => find_widget::toggle_effects(
                *self,
                FindWidgetToggle::MatchCase,
            ),
            ClickAction::FindWidgetToggleWord => find_widget::toggle_effects(
                *self,
                FindWidgetToggle::WholeWord,
            ),
            ClickAction::FindWidgetToggleRegex => find_widget::toggle_effects(
                *self,
                FindWidgetToggle::Regex,
            ),
            ClickAction::SettingsRow(idx) => if self.engine.view_mode == ViewMode::Settings {
                seq![
                    Effect::Run(AppCommand::SelectSettingsRow(idx)),
                    Effect::Then(Resume::SettingsRow),
                ]
            } else {
                nothing()
            },
            ClickAction::ConfirmModalPrimary => self.confirm_effects(),
            ClickAction::ConfirmModalCancel => run_only(AppCommand::DismissConfirm),
            ClickAction::ToggleFocusedPreviewFiles => run_only(
                AppCommand::ToggleFocusedPreviewFiles,
            ),
            ClickAction::PickFocusedPreviewFile(idx) => run_and_drain(
                AppCommand::PickFocusedPreviewFile {
                    idx,
                    dark,
                    uses_three_col: self.graph_uses_three_col(),
                },
            ),
            ClickAction::CloseFocusedPreviewFiles => run_only(AppCommand::CloseFocusedPreviewFiles),
        }
    }

    /// The state after a click on `action`.
    pub open spec fn after_action(self, action: ClickAction) -> TuiApp {
        match action {
            ClickAction::StartDragSplit => TuiApp { dragging_split: true, ..self },
            ClickAction::StartDragGraphDiffSplit => TuiApp {
                dragging_graph_diff_split: true,
                ..self
            },
            ClickAction::FindWidgetClose => find_widget::closed(self),
            _ => self,
        }
    }

    /// Does what a click on `action` asks for.
    pub fn handle_action(&mut self, action: ClickAction) -> (r: Vec<Effect>)
        ensures
            *final(self) == old(self).after_action(action),
            r@ == old(self).action_effects(action),
    {
        match action {
            ClickAction::StartDragSplit => {
                self.dragging_split = true;
                none()
            },
            ClickAction::StartDragGraphDiffSplit => {
                self.dragging_graph_diff_split = true;
                none()
            },
            ClickAction::FindWidgetClose => find_widget::close(self),
            other => self.run_action(other),
        }
    }

    fn run_action(&self, action: ClickAction) -> (r: Vec<Effect>)
        ensures
            r@ == self.action_effects(action),
    {
        let dark = self.theme.is_dark;
        let on_search_tab = self.engine.active_tab == Tab::Search;
        match action {
            ClickAction::SwitchTab(tab) => self.set_active_tab(tab),
            ClickAction::ToggleSidebar => self.toggle_sidebar(),
            ClickAction::OpenSettings => self.open_settings(),
            ClickAction::OpenHostsPicker => one(Effect::OpenHostsPicker),
            ClickAction::TreeClick(idx) => run(AppCommand::ActivateFileTreeEntryAtIndex(idx)),
            ClickAction::TreeClearSelection => run(AppCommand::ClearFileTreeSelectionAndEdit),
            ClickAction::SelectFile { path, staged } => self.select_file(path, staged),
            ClickAction::StageFile(path) => self.stage_file(path),
            ClickAction::UnstageFile(path) => self.unstage_file(path),
            ClickAction::StartDragSplit => none(),
            ClickAction::StartDragGraphDiffSplit => none(),
            ClickAction::GitCommand { command, oid: _, payload } => one(
                Effect::GitCommand { command, payload },
            ),
            ClickAction::QuickOpenSelect(_) => none(),
            ClickAction::GraphBranchPickerSelect(_) => none(),
            ClickAction::GlobalSearchSelect(idx) => {
                if on_search_tab {
                    two(
                        Effect::Run(
                            AppCommand::SelectGlobalSearchResult {
                                idx,
                                visible_rows: self.layout.global_search_last_view_h as usize,
                            },
                        ),
                        Effect::Run(AppCommand::SyncGlobalSearchPreviewToSelected),
                    )
                } else {
                    none()
                }
            },
            ClickAction::GlobalSearchFocusInput => {
                if on_search_tab {
                    run(AppCommand::FocusGlobalSearchFindInput)
                } else {
                    none()
                }
            },
            ClickAction::GlobalSearchFocusReplaceInput => {
                if on_search_tab && self.engine.global_search.replace_open {
                    run(AppCommand::FocusGlobalSearchReplaceInput)
                } else {
                    none()
                }
            },
            ClickAction::SearchToggleReplace => {
                if on_search_tab {
                    run(AppCommand::ToggleGlobalSearchReplaceForSearchTab)
                } else {
                    none()
                }
            },
            ClickAction::SearchToggleMatch(idx) => run(
                AppCommand::ToggleGlobalSearchMatchExcluded(idx),
            ),
            ClickAction::SearchApplyReplace => self.commit_replace_in_files(),
            ClickAction::PlaceModeFolder(idx) => self.place_on_row(idx),
            ClickAction::PlaceModeRoot => self.request_file_copy(
                CopySources::PlaceMode,
                self.engine.tree.root.clone(),
            ),
            ClickAction::FileTreeToolbarNewFile => self.toolbar_create(TreeEditMode::NewFile),
            ClickAction::FileTreeToolbarNewFolder => self.toolbar_create(TreeEditMode::NewFolder),
            ClickAction::FileTreeToolbarCollapse => self.collapse_all_tree_entries(),
            ClickAction::TreeContextMenuItem(item) => self.dispatch_context_menu_item(item),
            ClickAction::TreeContextMenuClose => self.close_tree_context_menu(),
            ClickAction::NavCandidateSelect(idx) => two(
                Effect::Run(AppCommand::SelectNavCandidate(idx)),
                Effect::NavPickCandidate,
            ),
            ClickAction::NavCandidateGroupToggle(idx) => one(Effect::NavToggleCandidateGroup(idx)),
            ClickAction::NavCandidatesClose => one(Effect::NavCloseCandidates),
            ClickAction::NavCandidatesCapture => none(),
            ClickAction::OpenMarkdownLink(target) => one(Effect::ResolveMarkdownLink(target)),
            ClickAction::HostsPickerSelect(idx) => two(
                Effect::Run(AppCommand::SelectHostsPickerRow(idx)),
                Effect::Run(AppCommand::EnterHostsPickerPathMode),
            ),
            ClickAction::DbPrevPage => self.db_navigate(DbNav::PrevPage),
            ClickAction::DbNextPage => self.db_navigate(DbNav::NextPage),
            ClickAction::DbGotoPage(page) => self.db_navigate_to_page(page),
            ClickAction::DbSelectObject { schema, name, kind } => run(
                AppCommand::DbSelectObject { schema, name, kind },
            ),
            ClickAction::DbToggleSchema(name) => self.db_toggle_schema(name),
            ClickAction::FindWidgetClose => run(AppCommand::CloseFindWidget { dark }),
            ClickAction::FindWidgetNext => {
                if self.engine.find_widget.has_matches {
                    find_widget::step(self, false)
                } else {
                    none()
                }
            },
            ClickAction::FindWidgetPrev => {
                if self.engine.find_widget.has_matches {
                    find_widget::step(self, true)
                } else {
                    none()
                }
            },
            ClickAction::FindWidgetToggleCase => find_widget::toggle_option(
                self,
                FindWidgetToggle::MatchCase,
            ),
            ClickAction::FindWidgetToggleWord => find_widget::toggle_option(
                self,
                FindWidgetToggle::WholeWord,
            ),
            ClickAction::FindWidgetToggleRegex => find_widget::toggle_option(
                self,
                FindWidgetToggle::Regex,
            ),
            ClickAction::SettingsRow(idx) => {
                if self.engine.view_mode == ViewMode::Settings {
                    two(
                        Effect::Run(AppCommand::SelectSettingsRow(idx)),
                        Effect::Then(Resume::SettingsRow),
                    )
                } else {
                    none()
                }
            },
            ClickAction::ConfirmModalPrimary => self.fire_confirm_primary(),
            ClickAction::ConfirmModalCancel => self.fire_confirm_cancel(),
            ClickAction::ToggleFocusedPreviewFiles => self.toggle_focused_preview_files(),
            ClickAction::PickFocusedPreviewFile(idx) => self.pick_focused_preview_file(idx),
            ClickAction::CloseFocusedPreviewFiles => self.close_focused_preview_files(),
        }
    }

    /// What a click on a settings row does once the row is selected: a language
    /// server's row is a button, the others wait for the keyboard.
    pub fn activate_selected_setting(&self) -> (r: Vec<Effect>)
        ensures
            r@ == (match self.engine.settings.selected {
                SettingItem::Lsp(lang) => seq![Effect::ActivateLspRow(lang)],
                _ => nothing(),
            }),
    {
        match self.engine.settings.selected {
            SettingItem::Lsp(lang) => one(Effect::ActivateLspRow(lang)),
            _ => none(),
        }
    }
}

/// What a Markdown link leads to.
#[derive(Debug)]
pub enum LinkTarget {
    Url,
    /// A file, relative to the tree's root.
    File(String),
    Missing,
}

impl TuiApp {
    /// What following a Markdown link asks for: a browser, or the file in the Files
    /// tab, with the way back remembered.
    pub open spec fn link_effects(&self, target: String, leads_to: LinkTarget) -> Seq<Effect> {
        match leads_to {
            LinkTarget::Url => run_only(AppCommand::OpenUrl(target)),
            LinkTarget::Missing => run_only(
                AppCommand::PushToast(Toast::warn(ToastText::MarkdownLinkNotFound(target))),
            ),
            LinkTarget::File(rel) => seq![
                Effect::PushLocationBeforeJump,
                Effect::Run(AppCommand::SetActiveTab(Tab::Files)),
                Effect::Then(Resume::RuntimeEvents),
                Effect::Run(AppCommand::RevealFileTreePath(rel)),
                Effect::Run(AppCommand::RefreshFileTreeWithTarget(Some(rel))),
                Effect::Run(AppCommand::LoadPreview(rel)),
            ],
        }
    }

    /// Follows a Markdown link. A file's preview starts with no `g` waiting.
    pub fn open_markdown_link(&mut self, target: String, leads_to: LinkTarget) -> (r: Vec<Effect>)
        ensures
            *final(self) == (if leads_to is File {
                TuiApp { g_pending_at: None, ..*old(self) }
            } else {
                *old(self)
            }),
            r@ == old(self).link_effects(target, leads_to),
    {
        match leads_to {
            LinkTarget::Url => run(AppCommand::OpenUrl(target)),
            LinkTarget::Missing => self.push_toast(
                Toast::warn(ToastText::MarkdownLinkNotFound(target)),
            ),
            LinkTarget::File(rel) => {
                self.clear_g_chord();
                vec![
                    Effect::PushLocationBeforeJump,
                    Effect::Run(AppCommand::SetActiveTab(Tab::Files)),
                    Effect::Then(Resume::RuntimeEvents),
                    Effect::Run(AppCommand::RevealFileTreePath(rel.clone())),
                    Effect::Run(AppCommand::RefreshFileTreeWithTarget(Some(rel.clone()))),
                    Effect::Run(AppCommand::LoadPreview(rel)),
                ]
            },
        }
    }
}

} // verus!
