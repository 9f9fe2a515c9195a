//! What the terminal does when the engine reports something.

use crate::app::events::{
    FileActionNotice, ImagePlan, PreviewArrival, ReplaceSummary, RuntimeEvent, TabChangeOutcome,
};
use crate::app::actions::LinkTarget;
use crate::app::tree::{any_lossy, lines_of, CopiedPath};
use crate::app::{FindWidgetUiState, TuiApp};
use crate::command::{
    AppCommand, Effect, PathSet, Resume, Toast, ToastLevel, ToastText, TreeEditMode,
};
use crate::engine::{ImageFacts, PreviewKind, SearchTarget, Tab};
use crate::tree_context_menu::ContextMenuItem;
use vstd::prelude::*;

verus! {

/// What a report of the engine asks for.
pub proof fn reports_are_followed(app: TuiApp, event: RuntimeEvent)
    ensures
        ({
            let asked = app.event_effects(event);
            &&& (event matches RuntimeEvent::SidebarToggled { hidden, show_hidden_hint, .. } ==> hidden && show_hidden_hint ==> asked
                == seq![
                Effect::Run(
                    AppCommand::PushToast(
                        Toast { level: ToastLevel::Info, text: ToastText::SidebarHiddenHint },
                    ),
                ),
            ])
            &&& (event matches RuntimeEvent::SidebarToggled { hidden, show_hidden_hint, .. } ==> !(hidden && show_hidden_hint) ==> asked
                == Seq::<Effect>::empty())
            &&& event is LoadPreviewSelected ==> asked == seq![Effect::Run(AppCommand::LoadSelectedPreview)]
            &&& event is LoadDiffRequested ==> asked == seq![
                Effect::Run(AppCommand::LoadDiff { dark: app.theme.is_dark }),
                Effect::Then(Resume::RuntimeEvents),
            ]
            &&& event is SyncSearchPreviewIfStale && app.engine.active_tab == Tab::Search
                && app.engine.global_search.preview_is_stale ==> asked == seq![Effect::Run(AppCommand::SyncGlobalSearchPreviewToSelected)]
            &&& event is SyncSearchPreviewIfStale && !(app.engine.active_tab == Tab::Search
                && app.engine.global_search.preview_is_stale) ==> asked == Seq::<Effect>::empty()
            &&& event is RecomputeVimSearch && app.engine.vim_search.target is Some ==> asked == seq![
                Effect::Run(
                    AppCommand::RecomputeVimSearch { target: app.engine.vim_search.target->0,
                    dark: app.theme.is_dark,
                    viewport: app.viewport() },
                ),
            ]
            &&& event is RecomputeVimSearch && app.engine.vim_search.target is None ==> asked == Seq::<Effect>::empty()
            &&& event is RecomputeFindWidget && app.engine.find_widget.target is Some ==> asked == seq![
                Effect::Run(
                    AppCommand::RecomputeFindWidget { target: app.engine.find_widget.target->0,
                    dark: app.theme.is_dark,
                    viewport: app.viewport() },
                ),
            ]
            &&& event is RecomputeFindWidget && app.engine.find_widget.target is None ==> asked == Seq::<Effect>::empty()
            &&& event is AcceptQuickOpenSelection && app.engine.quick_open.has_selection ==> asked == seq![
                Effect::PushLocationBeforeJump,
                Effect::Run(AppCommand::AcceptQuickOpenSelection { mru_cap: 50 }),
                Effect::Then(Resume::RuntimeEvents),
            ]
            &&& event is AcceptQuickOpenSelection && !app.engine.quick_open.has_selection ==> asked == seq![Effect::Run(AppCommand::CloseQuickOpen)]
            &&& event is AcceptGlobalSearchSelection
                && app.engine.global_search.has_selected_hit ==> asked == seq![
                Effect::PushLocationBeforeJump,
                Effect::Run(AppCommand::AcceptGlobalSearchHit),
                Effect::Then(Resume::RuntimeEvents),
            ]
            &&& event is AcceptGlobalSearchSelection
                && !app.engine.global_search.has_selected_hit ==> asked == seq![Effect::Run(AppCommand::CloseGlobalSearch)]
            &&& event is DismissConfirm ==> asked == seq![Effect::Run(AppCommand::DismissConfirm)]
            &&& event is ClearCommitGraphSearch ==> asked == seq![Effect::Run(AppCommand::ClearVimSearchIfTarget(SearchTarget::CommitGraph))]
            &&& (event matches RuntimeEvent::LspRefineJump { origin, location } ==> asked
                == seq![Effect::NavPushBackAndJump { origin, location }])
            &&& event is ResolvePendingHighlight ==> asked == seq![Effect::ResolvePendingHighlight]
            &&& (event matches RuntimeEvent::PersistQuickOpenMru(encoded) ==> asked
                == seq![Effect::SaveQuickOpenMru(encoded)])
            &&& (event matches RuntimeEvent::PersistHostsRecent(recent) ==> asked
                == seq![Effect::SaveHostsRecent(recent)])
            &&& event is PersistGraphScope ==> asked == seq![Effect::SaveGraphScope]
            &&& event is ClearPreviewSelection ==> asked == Seq::<Effect>::empty()
            &&& event is ClearCommitDetailSelection ==> asked == Seq::<Effect>::empty()
            &&& event is ClearDiffSelection ==> asked == Seq::<Effect>::empty()
            &&& (event matches RuntimeEvent::LocationJumped { restore_preview_cursor, .. } ==> restore_preview_cursor is Some ==> asked
                == seq![Effect::RestorePreviewCursor(restore_preview_cursor->0)])
            &&& (event matches RuntimeEvent::LocationJumped { restore_preview_cursor, .. } ==> restore_preview_cursor is None ==> asked
                == Seq::<Effect>::empty())
        }),
{
}

/// What the notice for a report of the engine says: whether the work was done, and why
/// not.
pub proof fn reports_are_shown(app: TuiApp, event: RuntimeEvent)
    ensures
        ({
            let asked = app.event_effects(event);
            &&& (event matches RuntimeEvent::FileActionNotice(notice) ==> notice == FileActionNotice::PlaceCopyInFlight ==> asked
                == seq![
                Effect::Run(
                    AppCommand::PushToast(
                        Toast { level: ToastLevel::Warn, text: ToastText::PlaceCopyInFlight },
                    ),
                ),
            ])
            &&& (event matches RuntimeEvent::FileActionNotice(notice) ==> notice == FileActionNotice::TreeOpInFlight ==> asked
                == seq![
                Effect::Run(
                    AppCommand::PushToast(
                        Toast { level: ToastLevel::Warn, text: ToastText::TreeOpInFlight },
                    ),
                ),
            ])
            &&& (event matches RuntimeEvent::FileActionNotice(notice) ==> notice == FileActionNotice::PasteClipboardEmpty ==> asked
                == seq![
                Effect::Run(
                    AppCommand::PushToast(
                        Toast { level: ToastLevel::Warn, text: ToastText::PasteClipboardEmpty },
                    ),
                ),
            ])
            &&& (event matches RuntimeEvent::FileActionNotice(notice) ==> notice == FileActionNotice::PasteSelfIntoDescendant ==> asked
                == seq![
                Effect::Run(
                    AppCommand::PushToast(
                        Toast {
                            level: ToastLevel::Warn,
                            text: ToastText::PasteSelfIntoDescendant,
                        },
                    ),
                ),
            ])
            &&& (event matches RuntimeEvent::FileActionNotice(notice) ==> notice == FileActionNotice::PasteNothingToDo ==> asked
                == seq![
                Effect::Run(
                    AppCommand::PushToast(
                        Toast { level: ToastLevel::Info, text: ToastText::PasteNothingToDo },
                    ),
                ),
            ])
            &&& (event matches RuntimeEvent::FileActionNotice(notice) ==> notice == FileActionNotice::PasteCancelled ==> asked
                == seq![
                Effect::Run(
                    AppCommand::PushToast(
                        Toast { level: ToastLevel::Info, text: ToastText::PasteCancelled },
                    ),
                ),
            ])
            &&& (event matches RuntimeEvent::FileCopyDone(outcome) ==> outcome is Ok ==> asked
                == seq![
                Effect::Run(
                    AppCommand::PushToast(
                        Toast {
                            level: ToastLevel::Info,
                            text: ToastText::PlaceModeCopied(outcome->Ok_0),
                        },
                    ),
                ),
            ])
            &&& (event matches RuntimeEvent::FileCopyDone(outcome) ==> outcome is Err ==> asked
                == seq![
                Effect::Run(
                    AppCommand::PushToast(
                        Toast {
                            level: ToastLevel::Error,
                            text: ToastText::PlaceModeCopyFailed(outcome->Err_0),
                        },
                    ),
                ),
            ])
            &&& (event matches RuntimeEvent::FsMutationDone { kind, outcome } ==> outcome is Ok ==> asked
                == seq![
                Effect::Run(
                    AppCommand::PushToast(
                        Toast {
                            level: ToastLevel::Info,
                            text: ToastText::FsMutationSuccess(kind),
                        },
                    ),
                ),
            ])
            &&& (event matches RuntimeEvent::FsMutationDone { kind, outcome } ==> outcome is Err ==> asked
                == seq![
                Effect::Run(
                    AppCommand::PushToast(
                        Toast {
                            level: ToastLevel::Error,
                            text: ToastText::FsMutationError(kind, outcome->Err_0),
                        },
                    ),
                ),
            ])
            &&& (event matches RuntimeEvent::CommitDone(outcome) ==> outcome is Ok ==> asked
                == seq![
                Effect::Run(
                    AppCommand::PushToast(
                        Toast { level: ToastLevel::Info, text: ToastText::CommitSuccess },
                    ),
                ),
            ])
            &&& (event matches RuntimeEvent::CommitDone(outcome) ==> outcome is Err ==> asked
                == seq![
                Effect::Run(
                    AppCommand::PushToast(
                        Toast {
                            level: ToastLevel::Error,
                            text: ToastText::CommitFailed(outcome->Err_0),
                        },
                    ),
                ),
            ])
            &&& (event matches RuntimeEvent::PushDone { force, outcome } ==> outcome is Ok && force ==> asked
                == seq![
                Effect::Run(
                    AppCommand::PushToast(
                        Toast { level: ToastLevel::Info, text: ToastText::ForcePushSuccess },
                    ),
                ),
            ])
            &&& (event matches RuntimeEvent::PushDone { force, outcome } ==> outcome is Ok && !force ==> asked
                == seq![
                Effect::Run(
                    AppCommand::PushToast(
                        Toast { level: ToastLevel::Info, text: ToastText::PushSuccess },
                    ),
                ),
            ])
            &&& (event matches RuntimeEvent::PushDone { force, outcome } ==> outcome is Err ==> asked
                == seq![
                Effect::Run(
                    AppCommand::PushToast(
                        Toast {
                            level: ToastLevel::Error,
                            text: ToastText::PushFailed(outcome->Err_0),
                        },
                    ),
                ),
            ])
            &&& (event matches RuntimeEvent::ReplaceDone(outcome) ==> outcome is Err ==> asked
                == seq![
                Effect::Run(
                    AppCommand::PushToast(
                        Toast {
                            level: ToastLevel::Error,
                            text: ToastText::ReplaceFailed(outcome->Err_0),
                        },
                    ),
                ),
            ])
            &&& (event matches RuntimeEvent::GraphScopeFallback(short_ref) ==> asked
                == seq![
                Effect::Run(
                    AppCommand::PushToast(
                        Toast {
                            level: ToastLevel::Info,
                            text: ToastText::GraphScopeStaleBranch(short_ref),
                        },
                    ),
                ),
                Effect::SaveGraphScope,
            ])
            &&& event is GraphBranchPickerNotReady ==> asked == seq![
                Effect::Run(
                    AppCommand::PushToast(
                        Toast { level: ToastLevel::Info, text: ToastText::GraphPickerNotReady },
                    ),
                ),
            ]
            &&& (event matches RuntimeEvent::GraphBranchPickerStaleBranch(short_ref) ==> asked
                == seq![
                Effect::Run(
                    AppCommand::PushToast(
                        Toast {
                            level: ToastLevel::Info,
                            text: ToastText::GraphScopeStaleBranch(short_ref),
                        },
                    ),
                ),
            ])
        }),
{
}

/// The notice for a batch of replacements counts what was replaced, and speaks of what was
/// skipped only where something was.
pub proof fn replacements_are_counted(app: TuiApp, summary: ReplaceSummary)
    ensures
        app.event_effects(RuntimeEvent::ReplaceDone(Ok(summary))) == seq![
            Effect::Run(
                AppCommand::PushToast(
                    Toast {
                        level: ToastLevel::Info,
                        text: ToastText::ReplaceDone {
                            lines: summary.lines_replaced,
                            files: summary.files_changed,
                            stale: if summary.skipped_stale == 0 {
                                None
                            } else {
                                Some(summary.skipped_stale)
                            },
                            too_large: if summary.skipped_too_large == 0 {
                                None
                            } else {
                                Some(summary.skipped_too_large)
                            },
                            errors: if summary.error_count == 0 {
                                None
                            } else {
                                Some(summary.error_count)
                            },
                        },
                    },
                ),
            ),
        ],
{
}

/// What a report makes the terminal forget: a hidden sidebar the drag of its edge, a loaded
/// preview the `g` that waits, and each selection that the engine says is gone together with
/// its count of clicks. Other reports change nothing here.
pub proof fn reports_clear_what_they_name(app: TuiApp, event: RuntimeEvent)
    ensures
        ({
            let after = app.after_event(event);
            &&& (event matches RuntimeEvent::SidebarToggled { hidden, cancel_split_drags, .. }
                ==> hidden && cancel_split_drags ==> after == (TuiApp {
                dragging_split: false,
                dragging_graph_diff_split: false,
                ..app
            }))
            &&& (event matches RuntimeEvent::SidebarToggled { hidden, cancel_split_drags, .. }
                ==> !(hidden && cancel_split_drags) ==> after == app)
            &&& event is LoadPreviewSelected ==> after == (TuiApp { g_pending_at: None, ..app })
            &&& event is ClearPreviewSelection ==> after == (TuiApp {
                preview_selection: None,
                preview_click_state: None,
                db_preview_layout: None,
                ..app
            })
            &&& event is ClearCommitDetailSelection ==> after == (TuiApp {
                commit_detail_selection: None,
                commit_detail_click_state: None,
                ..app
            })
            &&& event is ClearDiffSelection ==> after == (TuiApp {
                diff_selection: None,
                diff_click_state: None,
                ..app
            })
            &&& (event matches RuntimeEvent::LocationJumped {
                clear_commit_detail_selection,
                clear_diff_selection,
                ..
            } ==> {
                &&& clear_diff_selection ==> after.diff_selection is None
                    && after.diff_click_state is None
                &&& !clear_diff_selection ==> after.diff_selection == app.diff_selection
                &&& clear_commit_detail_selection ==> after.commit_detail_selection is None
                    && after.commit_detail_click_state is None
                &&& !clear_commit_detail_selection ==> after.commit_detail_selection
                    == app.commit_detail_selection
                &&& after.preview_selection == app.preview_selection
            })
            &&& event is LoadDiffRequested || event is RecomputeVimSearch || event is CommitDone
                || event is PushDone || event is FileCopyDone || event is FsMutationDone
                || event is ReplaceDone || event is FileActionNotice || event is PersistGraphScope
                || event is DismissConfirm || event is AcceptQuickOpenSelection
                || event is AcceptGlobalSearchSelection || event is LspRefineJump ==> after == app
        }),
{
}

/// Another tab forgets the chords that wait and what the engine says is gone; the tab that was
/// open already changes nothing and asks for nothing.
pub proof fn tab_changes_clear_what_they_name(app: TuiApp, outcome: TabChangeOutcome)
    ensures
        ({
            let after = app.after_tab_change(outcome);
            let asked = app.tab_change_effects(outcome);
            &&& !outcome.changed ==> after == app && asked == Seq::<Effect>::empty()
            &&& outcome.changed ==> {
                &&& after.space_leader_at is None && after.g_pending_at is None
                &&& after.preview_selection == (if outcome.clear_preview_selection {
                    None
                } else {
                    app.preview_selection
                })
                &&& after.commit_detail_selection == (if outcome.clear_commit_detail_selection {
                    None
                } else {
                    app.commit_detail_selection
                })
                &&& after.diff_selection == (if outcome.clear_diff_selection {
                    None
                } else {
                    app.diff_selection
                })
                &&& outcome.clear_preview_selection ==> after.preview_click_state is None
                &&& outcome.clear_commit_detail_selection
                    ==> after.commit_detail_click_state is None
                &&& outcome.clear_diff_selection ==> after.diff_click_state is None
                &&& outcome.close_find_widget ==> after.find_widget_ui == (FindWidgetUiState {
                    last_widget_rect: None,
                    space_leader_at: None,
                })
                &&& after.engine == app.engine && after.layout == app.layout
                &&& asked.contains(Effect::Run(AppCommand::DismissConfirm))
                    == outcome.dismiss_confirm
                &&& asked.contains(
                    Effect::Run(AppCommand::CloseFindWidget { dark: app.theme.is_dark }),
                ) == outcome.close_find_widget
                &&& asked.contains(Effect::Run(AppCommand::SyncGlobalSearchPreviewToSelected)) == (
                outcome.sync_search_preview && app.engine.active_tab == Tab::Search
                    && app.engine.global_search.preview_is_stale)
            }
        }),
{
    let asked = app.tab_change_effects(outcome);
    if outcome.changed {
        let a: int = if outcome.dismiss_confirm {
            1
        } else {
            0
        };
        let b: int = if outcome.close_find_widget {
            1
        } else {
            0
        };
        if outcome.dismiss_confirm {
            assert(asked[0] == Effect::Run(AppCommand::DismissConfirm));
        }
        if outcome.close_find_widget {
            assert(asked[a] == Effect::Run(
                AppCommand::CloseFindWidget { dark: app.theme.is_dark },
            ));
        }
        if outcome.sync_search_preview && app.engine.active_tab == Tab::Search
            && app.engine.global_search.preview_is_stale {
            assert(asked[a + b] == Effect::Run(AppCommand::SyncGlobalSearchPreviewToSelected));
        }
    }
}

/// The same image of the same file that arrives again stays as it is shown; another one is
/// built where it came decoded and the terminal shows images; and anything else drops the
/// image.
pub proof fn images_are_built_once(
    app: TuiApp,
    path: String,
    image: ImageFacts,
    decoded: bool,
    shown: ImageFacts,
)
    requires
        app.engine.preview.image == Some(shown),
        app.engine.preview.kind == PreviewKind::Image,
    ensures
        ({
            let plan = app.image_plan(
                PreviewArrival::Document { path, image: Some(image), decoded },
            );
            let same = app.engine.preview.path@ == path@ && shown.bytes_on_disk
                == image.bytes_on_disk && shown.width_px == image.width_px && shown.height_px
                == image.height_px && shown.format@ == image.format@;
            &&& same && app.has_image_protocol ==> plan == ImagePlan::Keep
            &&& !(same && app.has_image_protocol) && app.has_image_picker && decoded ==> plan
                == ImagePlan::Build
            &&& !(same && app.has_image_protocol) && !(app.has_image_picker && decoded) ==> plan
                == ImagePlan::Drop
        }),
        app.image_plan(PreviewArrival::Document { path, image: None, decoded }) == ImagePlan::Drop,
        app.image_plan(PreviewArrival::Empty) == ImagePlan::Drop,
{
}

/// A loaded preview first sees to the image and is handed to the engine then; one that failed
/// to load leaves the image alone.
pub proof fn previews_are_handed_on(app: TuiApp, generation: u64, arrival: PreviewArrival)
    ensures
        ({
            let got = app.preview_result_spec(generation, arrival);
            let apply = Effect::ApplyPreviewResult {
                generation,
                preview_view_h: app.layout.last_preview_view_h as usize,
            };
            let drain = Effect::Then(Resume::RuntimeEvents);
            &&& arrival is Failed ==> got == (app, seq![apply, drain])
            &&& !(arrival is Failed) && app.image_plan(arrival) == ImagePlan::Keep ==> got == (
                app,
                seq![Effect::KeepImageProtocol(generation), apply, drain],
            )
            &&& !(arrival is Failed) && app.image_plan(arrival) == ImagePlan::Build ==> got.1
                == seq![Effect::BuildImageProtocol(generation), apply, drain]
                && got.0.has_image_protocol
            &&& !(arrival is Failed) && app.image_plan(arrival) == ImagePlan::Drop ==> got.1
                == seq![Effect::DropImageProtocol, apply, drain] && !got.0.has_image_protocol
        }),
{
}

/// A Markdown link to an address opens it; one to a file shows the file in the Files tab, with
/// the way back remembered; and one that leads nowhere says so.
pub proof fn links_lead_where_they_say(app: TuiApp, target: String, rel: String)
    ensures
        app.link_effects(target, LinkTarget::Url) == seq![Effect::Run(AppCommand::OpenUrl(target))],
        app.link_effects(target, LinkTarget::Missing) == seq![
            Effect::Run(
                AppCommand::PushToast(
                    Toast {
                        level: ToastLevel::Warn,
                        text: ToastText::MarkdownLinkNotFound(target),
                    },
                ),
            ),
        ],
        app.link_effects(target, LinkTarget::File(rel)) == seq![
            Effect::PushLocationBeforeJump,
            Effect::Run(AppCommand::SetActiveTab(Tab::Files)),
            Effect::Then(Resume::RuntimeEvents),
            Effect::Run(AppCommand::RevealFileTreePath(rel)),
            Effect::Run(AppCommand::RefreshFileTreeWithTarget(Some(rel))),
            Effect::Run(AppCommand::LoadPreview(rel)),
        ],
{
}

/// An action on a row of the tree is meant for the whole selection where the row belongs to
/// it, for the row alone where it does not, and for nothing where there is no such row.
pub proof fn actions_are_meant_for_the_selection(app: TuiApp, idx: usize)
    ensures
        ({
            let tree = app.engine.tree;
            let meant = tree.paths_at(Some(idx));
            let selected = exists|k: int|
                0 <= k < tree.selection@.len() && (#[trigger] tree.selection@[k])@
                    == tree.entries@[idx as int].path@;
            &&& idx >= tree.entries@.len() ==> meant == PathSet::Nothing
            &&& idx < tree.entries@.len() && selected ==> meant == PathSet::Selection
            &&& idx < tree.entries@.len() && !selected ==> meant == PathSet::Entry(idx)
            &&& tree.paths_at(None) == PathSet::Nothing
            &&& tree.selected == idx ==> app.action_set() == meant
        }),
{
}

/// A paste on a folder goes into it, a paste on a file goes beside it, and a paste on no row
/// goes into the root.
pub proof fn pastes_go_into_the_folder(app: TuiApp)
    ensures
        ({
            let tree = app.engine.tree;
            let entry = tree.entries@[tree.selected as int];
            &&& tree.selected < tree.entries@.len() && entry.is_dir ==> app.paste_dest_spec()
                == Some(entry.path)
            &&& tree.selected < tree.entries@.len() && !entry.is_dir ==> app.paste_dest_spec()
                == Some(entry.parent)
            &&& tree.selected >= tree.entries@.len() ==> app.paste_dest_spec() is None
        }),
{
}

/// What each item of the context menu asks for, on the row that the menu is up over.
pub proof fn menu_items_act_on_their_row(app: TuiApp, idx: usize)
    requires
        app.engine.tree.menu_target == Some(idx),
        idx < app.engine.tree.entries@.len(),
    ensures
        ({
            let entry = app.engine.tree.entries@[idx as int];
            let paths = app.engine.tree.paths_at(Some(idx));
            let folder = if entry.is_dir {
                entry.path
            } else {
                entry.parent
            };
            &&& app.menu_item_effects(ContextMenuItem::Cut) == seq![
                Effect::Run(AppCommand::MarkCut(paths)),
            ]
            &&& app.menu_item_effects(ContextMenuItem::Copy) == seq![
                Effect::Run(AppCommand::MarkCopy(paths)),
            ]
            &&& app.menu_item_effects(ContextMenuItem::Paste) == seq![
                Effect::Run(AppCommand::PasteInto(Some(folder))),
                Effect::Then(Resume::RuntimeEvents),
            ]
            &&& app.menu_item_effects(ContextMenuItem::Duplicate) == seq![
                Effect::Run(AppCommand::DuplicatePaths(paths)),
                Effect::Then(Resume::RuntimeEvents),
            ]
            &&& app.menu_item_effects(ContextMenuItem::CopyPath) == seq![
                Effect::CopyPaths { paths, relative: false },
            ]
            &&& app.menu_item_effects(ContextMenuItem::CopyRelativePath) == seq![
                Effect::CopyPaths { paths, relative: true },
            ]
            &&& app.menu_item_effects(ContextMenuItem::Rename) == seq![
                Effect::Run(
                    AppCommand::BeginTreeEdit {
                        mode: TreeEditMode::Rename,
                        parent_dir: Some(entry.parent),
                        rename_target: Some(entry.path),
                        anchor_idx: Some(idx),
                    },
                ),
                Effect::Then(Resume::RuntimeEvents),
            ]
            &&& app.menu_item_effects(ContextMenuItem::Delete) == seq![
                Effect::Run(AppCommand::CloseTreeContextMenu),
                Effect::Run(
                    AppCommand::RequestTreeDeleteConfirm {
                        path: entry.abs_path,
                        is_dir: entry.is_dir,
                        hard: false,
                    },
                ),
            ]
            &&& !app.engine.backend_is_remote ==> app.menu_item_effects(
                ContextMenuItem::RevealInFinder,
            ) == seq![Effect::RevealPath(entry.abs_path)]
            &&& app.engine.backend_is_remote ==> app.menu_item_effects(
                ContextMenuItem::RevealInFinder,
            ) == seq![
                Effect::Run(
                    AppCommand::PushToast(
                        Toast { level: ToastLevel::Warn, text: ToastText::RevealNotOnRemote },
                    ),
                ),
            ]
        }),
{
}

/// A new file or folder goes into the folder that it is created on, which is opened first, and
/// beside a file.
pub proof fn new_entries_go_into_the_folder(app: TuiApp, idx: usize, folder: bool)
    requires
        app.engine.tree.menu_target == Some(idx),
        idx < app.engine.tree.entries@.len(),
    ensures
        ({
            let entry = app.engine.tree.entries@[idx as int];
            let asked = app.menu_item_effects(
                if folder {
                    ContextMenuItem::NewFolder
                } else {
                    ContextMenuItem::NewFile
                },
            );
            let edit = Effect::Run(
                AppCommand::BeginTreeEdit {
                    mode: if folder {
                        TreeEditMode::NewFolder
                    } else {
                        TreeEditMode::NewFile
                    },
                    parent_dir: Some(
                        if entry.is_dir {
                            entry.path
                        } else {
                            entry.parent
                        },
                    ),
                    rename_target: None,
                    anchor_idx: Some(idx),
                },
            );
            let drain = Effect::Then(Resume::RuntimeEvents);
            &&& entry.is_dir && !entry.is_expanded ==> asked == seq![
                Effect::Run(AppCommand::ToggleFileTreeExpand(idx)),
                edit,
                drain,
            ]
            &&& !(entry.is_dir && !entry.is_expanded) ==> asked == seq![edit, drain]
            &&& app.engine.tree.selected == idx ==> app.toolbar_create_effects(
                if folder {
                    TreeEditMode::NewFolder
                } else {
                    TreeEditMode::NewFile
                },
            ) == asked
        }),
{
}

/// Over the root, a paste goes into it, a new entry too, and the desktop shows the root itself;
/// there is nothing to rename or delete.
pub proof fn menu_items_act_on_the_root(app: TuiApp)
    requires
        app.engine.tree.menu_target is None,
    ensures
        app.menu_item_effects(ContextMenuItem::Paste) == seq![
            Effect::Run(AppCommand::PasteInto(None)),
            Effect::Then(Resume::RuntimeEvents),
        ],
        app.menu_item_effects(ContextMenuItem::NewFile) == seq![
            Effect::Run(
                AppCommand::BeginTreeEdit {
                    mode: TreeEditMode::NewFile,
                    parent_dir: None,
                    rename_target: None,
                    anchor_idx: None,
                },
            ),
            Effect::Then(Resume::RuntimeEvents),
        ],
        app.menu_item_effects(ContextMenuItem::NewFolder) == seq![
            Effect::Run(
                AppCommand::BeginTreeEdit {
                    mode: TreeEditMode::NewFolder,
                    parent_dir: None,
                    rename_target: None,
                    anchor_idx: None,
                },
            ),
            Effect::Then(Resume::RuntimeEvents),
        ],
        app.menu_item_effects(ContextMenuItem::Rename) == Seq::<Effect>::empty(),
        app.menu_item_effects(ContextMenuItem::Delete) == Seq::<Effect>::empty(),
        !app.engine.backend_is_remote ==> app.menu_item_effects(ContextMenuItem::RevealInFinder)
            == seq![Effect::RevealPath(app.engine.tree.root)],
{
}

/// An item that is picked takes the menu down before it does its work; one that is greyed out
/// only takes it down.
pub proof fn picked_items_close_the_menu(app: TuiApp, item: ContextMenuItem)
    ensures
        ({
            let close = Effect::Run(AppCommand::CloseTreeContextMenu);
            let asked = app.picked_effects(item);
            &&& item == ContextMenuItem::Paste && app.engine.tree.clipboard_is_empty ==> asked
                == seq![close]
            &&& item != ContextMenuItem::Paste || !app.engine.tree.clipboard_is_empty ==> asked
                == seq![close] + app.menu_item_effects(item)
        }),
{
}

/// The paths on the clipboard stand one below the other, in order: the text is the paths with
/// a line break between each two.
pub proof fn copied_paths_stand_one_per_line(paths: Seq<CopiedPath>, last: CopiedPath)
    requires
        forall|i: int| 0 <= i < paths.len() ==> (#[trigger] paths[i]).text@.len() > 0,
        last.text@.len() > 0,
    ensures
        paths.len() == 0 ==> lines_of(paths.push(last)) == last.text@,
        paths.len() > 0 ==> lines_of(paths.push(last)) == lines_of(paths) + seq!['\n'] + last.text@,
        lines_of(paths.push(last)).len() > 0,
        any_lossy(paths.push(last)) <==> any_lossy(paths) || last.lossy,
{
    let all = paths.push(last);
    assert(all.drop_last() =~= paths);
    lemma_lines_are_not_empty(paths);
    if any_lossy(paths) {
        let i = choose|i: int| 0 <= i < paths.len() && #[trigger] paths[i].lossy;
        assert(all[i].lossy);
    }
    if last.lossy {
        assert(all[paths.len() as int].lossy);
    }
    if any_lossy(all) {
        let i = choose|i: int| 0 <= i < all.len() && #[trigger] all[i].lossy;
        if i < paths.len() {
            assert(paths[i].lossy);
        }
    }
    if paths.len() > 0 {
        assert(lines_of(all) =~= lines_of(paths) + seq!['\n'] + last.text@);
    }
}

proof fn lemma_lines_are_not_empty(paths: Seq<CopiedPath>)
    requires
        forall|i: int| 0 <= i < paths.len() ==> (#[trigger] paths[i]).text@.len() > 0,
    ensures
        paths.len() > 0 ==> lines_of(paths).len() > 0,
    decreases paths.len(),
{
    if paths.len() > 0 {
        lemma_lines_are_not_empty(paths.drop_last());
        assert(paths[paths.len() - 1].text@.len() > 0);
    }
}

} // verus!
