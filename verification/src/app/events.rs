//! What the terminal does when the engine reports something.

use crate::app::{FindWidgetUiState, TuiApp};
use crate::command::{
    join, none, nothing, one, run, run_and_drain, run_only, two, AppCommand, Effect, FilePlace,
    FsMutationKind, Resume, Toast, ToastText,
};
use crate::engine::{ImageFacts, PreviewKind, SearchTarget, Tab};
use crate::find_widget;
use crate::global_search;
use crate::quick_open;
use crate::search;
use crate::settings::no_diff_selection;
use vstd::prelude::*;

verus! {

/// What became of a tab change.
#[derive(Clone, Copy, Debug, PartialEq, Eq, Structural)]
pub struct TabChangeOutcome {
    pub changed: bool,
    pub dismiss_confirm: bool,
    pub clear_preview_selection: bool,
    pub clear_commit_detail_selection: bool,
    pub clear_diff_selection: bool,
    pub close_find_widget: bool,
    pub sync_search_preview: bool,
}

/// Why a file action did not go ahead, or ended without a change.
#[derive(Clone, Copy, Debug, PartialEq, Eq, Structural)]
pub enum FileActionNotice {
    PlaceCopyInFlight,
    TreeOpInFlight,
    PasteClipboardEmpty,
    PasteSelfIntoDescendant,
    PasteNothingToDo,
    PasteCancelled,
}

/// What a batch of replacements did.
#[derive(Clone, Copy, Debug, PartialEq, Eq, Structural)]
pub struct ReplaceSummary {
    pub lines_replaced: usize,
    pub files_changed: usize,
    pub skipped_stale: usize,
    pub skipped_too_large: usize,
    pub error_count: usize,
}

/// A preview that a worker has loaded.
#[derive(Debug)]
pub enum PreviewArrival {
    Failed,
    Empty,
    /// A document, with the facts of its image if it is one and whether the image came
    /// decoded.
    Document { path: String, image: Option<ImageFacts>, decoded: bool },
}

/// What the engine reports.
#[derive(Debug)]
pub enum RuntimeEvent {
    PreviewResult { generation: u64, arrival: PreviewArrival },
    TabChanged(TabChangeOutcome),
    SidebarToggled { hidden: bool, cancel_split_drags: bool, show_hidden_hint: bool },
    LoadPreviewSelected,
    LoadDiffRequested,
    SyncSearchPreviewIfStale,
    RecomputeVimSearch,
    RecomputeFindWidget,
    AcceptQuickOpenSelection,
    AcceptGlobalSearchSelection,
    FileActionNotice(FileActionNotice),
    FileCopyDone(Result<usize, String>),
    FsMutationDone { kind: FsMutationKind, outcome: Result<(), String> },
    CommitDone(Result<(), String>),
    PushDone { force: bool, outcome: Result<(), String> },
    ReplaceDone(Result<ReplaceSummary, String>),
    DismissConfirm,
    ClearCommitGraphSearch,
    LocationJumped {
        restore_preview_cursor: Option<FilePlace>,
        clear_commit_detail_selection: bool,
        clear_diff_selection: bool,
    },
    ClearPreviewSelection,
    /// The place that a jump from `origin` leads to is known now.
    LspRefineJump { origin: FilePlace, location: FilePlace },
    ResolvePendingHighlight,
    ClearCommitDetailSelection,
    ClearDiffSelection,
    PersistQuickOpenMru(String),
    PersistHostsRecent(Vec<String>),
    PersistGraphScope,
    GraphScopeFallback(String),
    GraphBranchPickerNotReady,
    GraphBranchPickerStaleBranch(String),
}

/// `value`, unless it is to be cleared.
pub open spec fn unless<T>(clear: bool, value: Option<T>) -> Option<T> {
    if clear {
        None
    } else {
        value
    }
}

fn keep_unless<T>(clear: bool, value: Option<T>) -> (r: Option<T>)
    ensures
        r == unless(clear, value),
{
    if clear {
        None
    } else {
        value
    }
}

/// What becomes of the terminal image when a preview arrives.
#[derive(Clone, Copy, Debug, PartialEq, Eq, Structural)]
pub enum ImagePlan {
    Keep,
    Build,
    Drop,
}

/// Whether two images are the same as far as their facts tell.
pub open spec fn same_image(old: ImageFacts, new: ImageFacts) -> bool {
    &&& old.bytes_on_disk == new.bytes_on_disk
    &&& old.width_px == new.width_px
    &&& old.height_px == new.height_px
    &&& old.format@ == new.format@
}

fn images_match(old: &ImageFacts, new: &ImageFacts) -> (r: bool)
    ensures
        r == same_image(*old, *new),
{
    old.bytes_on_disk == new.bytes_on_disk && old.width_px == new.width_px && old.height_px
        == new.height_px && old.format == new.format
}

impl TuiApp {
    /// What becomes of the terminal image: it stays where the same image of the same file
    /// arrives again, and is built anew where a decoded image arrives and the terminal
    /// can show one.
    pub open spec fn image_plan(&self, arrival: PreviewArrival) -> ImagePlan {
        match arrival {
            PreviewArrival::Document { path, image: Some(new), decoded } => {
                let same_file = self.engine.preview.kind != PreviewKind::Empty
                    && self.engine.preview.path@ == path@;
                let same = match self.engine.preview.image {
                    Some(old) => same_image(old, new),
                    None => false,
                };
                if same_file && self.has_image_protocol && same {
                    ImagePlan::Keep
                } else if self.has_image_picker && decoded {
                    ImagePlan::Build
                } else {
                    ImagePlan::Drop
                }
            },
            _ => ImagePlan::Drop,
        }
    }

    /// What becomes of the terminal image when a preview arrives.
    pub fn plan_image(&self, arrival: &PreviewArrival) -> (r: ImagePlan)
        ensures
            r == self.image_plan(*arrival),
    {
        match arrival {
            PreviewArrival::Document { path, image, decoded } => {
                match image {
                    Some(new) => {
                        let same_file = self.engine.preview.kind != PreviewKind::Empty
                            && self.engine.preview.path == *path;
                        let same = match &self.engine.preview.image {
                            Some(old) => images_match(old, new),
                            None => false,
                        };
                        if same_file && self.has_image_protocol && same {
                            ImagePlan::Keep
                        } else if self.has_image_picker && *decoded {
                            ImagePlan::Build
                        } else {
                            ImagePlan::Drop
                        }
                    },
                    None => ImagePlan::Drop,
                }
            },
            _ => ImagePlan::Drop,
        }
    }

    /// What a loaded preview does: the terminal image is seen to first, and the engine
    /// gets the document.
    pub open spec fn preview_result_spec(self, generation: u64, arrival: PreviewArrival) -> (
        TuiApp,
        Seq<Effect>,
    ) {
        let apply = seq![
            Effect::ApplyPreviewResult {
                generation,
                preview_view_h: self.layout.last_preview_view_h as usize,
            },
            Effect::Then(Resume::RuntimeEvents),
        ];
        if arrival is Failed {
            (self, apply)
        } else {
            match self.image_plan(arrival) {
                ImagePlan::Keep => (self, seq![Effect::KeepImageProtocol(generation)] + apply),
                ImagePlan::Build => (
                    TuiApp {
                        has_image_protocol: true,
                        image_protocol_builds: (self.image_protocol_builds + 1) as u64,
                        ..self
                    },
                    seq![Effect::BuildImageProtocol(generation)] + apply,
                ),
                ImagePlan::Drop => (
                    TuiApp { has_image_protocol: false, ..self },
                    seq![Effect::DropImageProtocol] + apply,
                ),
            }
        }
    }

    fn apply_preview_result(&mut self, generation: u64, arrival: PreviewArrival) -> (r: Vec<Effect>)
        requires
            old(self).image_protocol_builds < u64::MAX,
        ensures
            *final(self) == old(self).preview_result_spec(generation, arrival).0,
            r@ == old(self).preview_result_spec(generation, arrival).1,
    {
        let apply = two(
            Effect::ApplyPreviewResult {
                generation,
                preview_view_h: self.layout.last_preview_view_h as usize,
            },
            Effect::Then(Resume::RuntimeEvents),
        );
        if let PreviewArrival::Failed = arrival {
            return apply;
        }
        match self.plan_image(&arrival) {
            ImagePlan::Keep => join(one(Effect::KeepImageProtocol(generation)), apply),
            ImagePlan::Build => {
                self.has_image_protocol = true;
                self.image_protocol_builds = self.image_protocol_builds + 1;
                join(one(Effect::BuildImageProtocol(generation)), apply)
            },
            ImagePlan::Drop => {
                self.has_image_protocol = false;
                join(one(Effect::DropImageProtocol), apply)
            },
        }
    }

    /// Whether a terminal image that was built for `generation` is still wanted.
    pub fn wants_built_image(&self, generation: u64) -> (r: bool)
        ensures
            r == (generation == self.engine.preview.generation && self.has_image_protocol),
    {
        generation == self.engine.preview.generation && self.has_image_protocol
    }

    /// What keeping the Search tab's preview up to date asks for.
    pub open spec fn sync_preview_effects(&self) -> Seq<Effect> {
        if self.engine.active_tab == Tab::Search && self.engine.global_search.preview_is_stale {
            run_only(AppCommand::SyncGlobalSearchPreviewToSelected)
        } else {
            nothing()
        }
    }

    /// Loads the preview of the selected hit, where the Search tab shows another one.
    pub fn sync_search_preview_if_stale(&self) -> (r: Vec<Effect>)
        ensures
            r@ == self.sync_preview_effects(),
    {
        if self.engine.active_tab != Tab::Search {
            return none();
        }
        if !self.engine.global_search.preview_is_stale {
            return none();
        }
        run(AppCommand::SyncGlobalSearchPreviewToSelected)
    }

    /// The state after a tab change: nothing waits for a second key, and what the
    /// outcome names is cleared.
    pub open spec fn after_tab_change(self, outcome: TabChangeOutcome) -> TuiApp {
        if !outcome.changed {
            self
        } else {
            TuiApp {
                space_leader_at: None,
                g_pending_at: None,
                preview_selection: unless(outcome.clear_preview_selection, self.preview_selection),
                preview_click_state: unless(
                    outcome.clear_preview_selection,
                    self.preview_click_state,
                ),
                commit_detail_selection: unless(
                    outcome.clear_commit_detail_selection,
                    self.commit_detail_selection,
                ),
                commit_detail_click_state: unless(
                    outcome.clear_commit_detail_selection,
                    self.commit_detail_click_state,
                ),
                diff_selection: unless(outcome.clear_diff_selection, self.diff_selection),
                diff_click_state: unless(outcome.clear_diff_selection, self.diff_click_state),
                find_widget_ui: if outcome.close_find_widget {
                    FindWidgetUiState { last_widget_rect: None, space_leader_at: None }
                } else {
                    self.find_widget_ui
                },
                ..self
            }
        }
    }

    /// What a tab change asks for.
    pub open spec fn tab_change_effects(&self, outcome: TabChangeOutcome) -> Seq<Effect> {
        if !outcome.changed {
            nothing()
        } else {
            (if outcome.dismiss_confirm {
                run_only(AppCommand::DismissConfirm)
            } else {
                nothing()
            }) + (if outcome.close_find_widget {
                run_only(AppCommand::CloseFindWidget { dark: self.theme.is_dark })
            } else {
                nothing()
            }) + (if outcome.sync_search_preview {
                self.sync_preview_effects()
            } else {
                nothing()
            })
        }
    }

    /// Follows a tab change.
    pub fn apply_tab_change_outcome(&mut self, outcome: TabChangeOutcome) -> (r: Vec<Effect>)
        ensures
            *final(self) == old(self).after_tab_change(outcome),
            r@ == old(self).tab_change_effects(outcome),
    {
        if !outcome.changed {
            return none();
        }
        let effects = self.tab_change_work(outcome);
        self.clear_input_chords();
        self.preview_selection = keep_unless(
            outcome.clear_preview_selection,
            self.preview_selection,
        );
        self.preview_click_state = keep_unless(
            outcome.clear_preview_selection,
            self.preview_click_state,
        );
        self.commit_detail_selection = keep_unless(
            outcome.clear_commit_detail_selection,
            self.commit_detail_selection,
        );
        self.commit_detail_click_state = keep_unless(
            outcome.clear_commit_detail_selection,
            self.commit_detail_click_state,
        );
        self.diff_selection = keep_unless(outcome.clear_diff_selection, self.diff_selection);
        self.diff_click_state = keep_unless(outcome.clear_diff_selection, self.diff_click_state);
        self.find_widget_ui = if outcome.close_find_widget {
            FindWidgetUiState::default()
        } else {
            self.find_widget_ui
        };
        effects
    }

    fn tab_change_work(&self, outcome: TabChangeOutcome) -> (r: Vec<Effect>)
        requires
            outcome.changed,
        ensures
            r@ == self.tab_change_effects(outcome),
    {
        let dismiss = if outcome.dismiss_confirm {
            self.dismiss_confirm()
        } else {
            none()
        };
        let close = if outcome.close_find_widget {
            run(AppCommand::CloseFindWidget { dark: self.theme.is_dark })
        } else {
            none()
        };
        let sync = if outcome.sync_search_preview {
            self.sync_search_preview_if_stale()
        } else {
            none()
        };
        join(join(dismiss, close), sync)
    }

    /// What losing the middle column asks of the terminal, once the engine has moved the
    /// focus: a diff selection whose rows are gone is dropped.
    pub fn after_panel_normalized(&mut self, clear_diff_selection: bool)
        ensures
            *final(self) == (if clear_diff_selection && old(self).diff_selection is Some {
                no_diff_selection(*old(self))
            } else {
                *old(self)
            }),
    {
        if clear_diff_selection && self.diff_selection.is_some() {
            self.clear_diff_selection();
        }
    }
}

/// The toast for a file action that did not go ahead.
pub open spec fn notice_toast(notice: FileActionNotice) -> Toast {
    match notice {
        FileActionNotice::PlaceCopyInFlight => Toast::warn(ToastText::PlaceCopyInFlight),
        FileActionNotice::TreeOpInFlight => Toast::warn(ToastText::TreeOpInFlight),
        FileActionNotice::PasteClipboardEmpty => Toast::warn(ToastText::PasteClipboardEmpty),
        FileActionNotice::PasteSelfIntoDescendant => Toast::warn(
            ToastText::PasteSelfIntoDescendant,
        ),
        FileActionNotice::PasteNothingToDo => Toast::info(ToastText::PasteNothingToDo),
        FileActionNotice::PasteCancelled => Toast::info(ToastText::PasteCancelled),
    }
}

fn file_action_notice(notice: FileActionNotice) -> (r: Toast)
    ensures
        r == notice_toast(notice),
{
    match notice {
        FileActionNotice::PlaceCopyInFlight => Toast::warn(ToastText::PlaceCopyInFlight),
        FileActionNotice::TreeOpInFlight => Toast::warn(ToastText::TreeOpInFlight),
        FileActionNotice::PasteClipboardEmpty => Toast::warn(ToastText::PasteClipboardEmpty),
        FileActionNotice::PasteSelfIntoDescendant => Toast::warn(
            ToastText::PasteSelfIntoDescendant,
        ),
        FileActionNotice::PasteNothingToDo => Toast::info(ToastText::PasteNothingToDo),
        FileActionNotice::PasteCancelled => Toast::info(ToastText::PasteCancelled),
    }
}

/// `n` where there is anything to report, and nothing otherwise.
pub open spec fn reported(n: usize) -> Option<usize> {
    if n > 0 {
        Some(n)
    } else {
        None
    }
}

fn report(n: usize) -> (r: Option<usize>)
    ensures
        r == reported(n),
{
    if n > 0 {
        Some(n)
    } else {
        None
    }
}

/// The toast for a batch of replacements. What was skipped is only spoken of where
/// something was.
pub open spec fn replace_toast(outcome: Result<ReplaceSummary, String>) -> Toast {
    match outcome {
        Ok(summary) => Toast::info(
            ToastText::ReplaceDone {
                lines: summary.lines_replaced,
                files: summary.files_changed,
                stale: reported(summary.skipped_stale),
                too_large: reported(summary.skipped_too_large),
                errors: reported(summary.error_count),
            },
        ),
        Err(error) => Toast::error(ToastText::ReplaceFailed(error)),
    }
}

fn replace_done_toast(outcome: Result<ReplaceSummary, String>) -> (r: Toast)
    ensures
        r == replace_toast(outcome),
{
    match outcome {
        Ok(summary) => Toast::info(
            ToastText::ReplaceDone {
                lines: summary.lines_replaced,
                files: summary.files_changed,
                stale: report(summary.skipped_stale),
                too_large: report(summary.skipped_too_large),
                errors: report(summary.error_count),
            },
        ),
        Err(error) => Toast::error(ToastText::ReplaceFailed(error)),
    }
}

/// A toast on its way.
pub open spec fn toasted(toast: Toast) -> Seq<Effect> {
    run_only(AppCommand::PushToast(toast))
}

fn push_toast(toast: Toast) -> (r: Vec<Effect>)
    ensures
        r@ == toasted(toast),
{
    run(AppCommand::PushToast(toast))
}

/// What a report clears of the terminal's own state.
#[derive(Clone, Copy, Debug, PartialEq, Eq, Structural)]
pub struct Clearing {
    pub drags: bool,
    pub g_chord: bool,
    pub preview: bool,
    pub commit_detail: bool,
    pub diff: bool,
}

impl Clearing {
    #[verifier::allow_in_spec]
    pub fn nothing() -> Clearing
        returns
            (Clearing {
                drags: false,
                g_chord: false,
                preview: false,
                commit_detail: false,
                diff: false,
            }),
    {
        Clearing { drags: false, g_chord: false, preview: false, commit_detail: false, diff: false }
    }
}

impl TuiApp {
    /// The state with what `clearing` names cleared: splits that are dragged, a `g`
    /// that waits, and the selections together with their click counters.
    pub open spec fn cleared(self, clearing: Clearing) -> TuiApp {
        TuiApp {
            dragging_split: self.dragging_split && !clearing.drags,
            dragging_graph_diff_split: self.dragging_graph_diff_split && !clearing.drags,
            g_pending_at: unless(clearing.g_chord, self.g_pending_at),
            preview_selection: unless(clearing.preview, self.preview_selection),
            preview_click_state: unless(clearing.preview, self.preview_click_state),
            db_preview_layout: unless(clearing.preview, self.db_preview_layout),
            commit_detail_selection: unless(clearing.commit_detail, self.commit_detail_selection),
            commit_detail_click_state: unless(
                clearing.commit_detail,
                self.commit_detail_click_state,
            ),
            diff_selection: unless(clearing.diff, self.diff_selection),
            diff_click_state: unless(clearing.diff, self.diff_click_state),
            ..self
        }
    }

    fn clear(&mut self, clearing: Clearing)
        ensures
            *final(self) == old(self).cleared(clearing),
    {
        self.dragging_split = self.dragging_split && !clearing.drags;
        self.dragging_graph_diff_split = self.dragging_graph_diff_split && !clearing.drags;
        self.g_pending_at = keep_unless(clearing.g_chord, self.g_pending_at);
        self.preview_selection = keep_unless(clearing.preview, self.preview_selection);
        self.preview_click_state = keep_unless(clearing.preview, self.preview_click_state);
        if clearing.preview {
            self.db_preview_layout = None;
        }
        self.commit_detail_selection = keep_unless(
            clearing.commit_detail,
            self.commit_detail_selection,
        );
        self.commit_detail_click_state = keep_unless(
            clearing.commit_detail,
            self.commit_detail_click_state,
        );
        self.diff_selection = keep_unless(clearing.diff, self.diff_selection);
        self.diff_click_state = keep_unless(clearing.diff, self.diff_click_state);
    }

    /// The state after the engine reported `event`.
    pub open spec fn after_event(self, event: RuntimeEvent) -> TuiApp {
        match event {
            RuntimeEvent::PreviewResult { generation, arrival } => self.preview_result_spec(
                generation,
                arrival,
            ).0,
            RuntimeEvent::TabChanged(outcome) => self.after_tab_change(outcome),
            RuntimeEvent::SidebarToggled { hidden, cancel_split_drags, .. } => self.cleared(
                Clearing { drags: hidden && cancel_split_drags, ..Clearing::nothing() },
            ),
            RuntimeEvent::LoadPreviewSelected => self.cleared(
                Clearing { g_chord: true, ..Clearing::nothing() },
            ),
            RuntimeEvent::LocationJumped {
                clear_commit_detail_selection,
                clear_diff_selection,
                ..
            } => self.cleared(
                Clearing {
                    commit_detail: clear_commit_detail_selection,
                    diff: clear_diff_selection,
                    ..Clearing::nothing()
                },
            ),
            RuntimeEvent::ClearPreviewSelection => self.cleared(
                Clearing { preview: true, ..Clearing::nothing() },
            ),
            RuntimeEvent::ClearCommitDetailSelection => self.cleared(
                Clearing { commit_detail: true, ..Clearing::nothing() },
            ),
            RuntimeEvent::ClearDiffSelection => self.cleared(
                Clearing { diff: true, ..Clearing::nothing() },
            ),
            _ => self,
        }
    }

    /// What `event` asks for.
    pub open spec fn event_effects(self, event: RuntimeEvent) -> Seq<Effect> {
        match event {
            RuntimeEvent::PreviewResult { generation, arrival } => self.preview_result_spec(
                generation,
                arrival,
            ).1,
            RuntimeEvent::TabChanged(outcome) => self.tab_change_effects(outcome),
            RuntimeEvent::SidebarToggled { hidden, show_hidden_hint, .. } => if hidden
                && show_hidden_hint {
                toasted(Toast::info(ToastText::SidebarHiddenHint))
            } else {
                nothing()
            },
            RuntimeEvent::LoadPreviewSelected => run_only(AppCommand::LoadSelectedPreview),
            RuntimeEvent::LoadDiffRequested => run_and_drain(
                AppCommand::LoadDiff { dark: self.theme.is_dark },
            ),
            RuntimeEvent::SyncSearchPreviewIfStale => self.sync_preview_effects(),
            RuntimeEvent::RecomputeVimSearch => search::recompute_effects(self),
            RuntimeEvent::RecomputeFindWidget => find_widget::recompute_effects(self),
            RuntimeEvent::AcceptQuickOpenSelection => quick_open::accept_effects(self),
            RuntimeEvent::AcceptGlobalSearchSelection => global_search::accept_effects(self),
            RuntimeEvent::FileActionNotice(notice) => toasted(notice_toast(notice)),
            RuntimeEvent::FileCopyDone(outcome) => toasted(
                match outcome {
                    Ok(count) => Toast::info(ToastText::PlaceModeCopied(count)),
                    Err(error) => Toast::error(ToastText::PlaceModeCopyFailed(error)),
                },
            ),
            RuntimeEvent::FsMutationDone { kind, outcome } => toasted(
                match outcome {
                    Ok(_) => Toast::info(ToastText::FsMutationSuccess(kind)),
                    Err(error) => Toast::error(ToastText::FsMutationError(kind, error)),
                },
            ),
            RuntimeEvent::CommitDone(outcome) => toasted(
                match outcome {
                    Ok(_) => Toast::info(ToastText::CommitSuccess),
                    Err(error) => Toast::error(ToastText::CommitFailed(error)),
                },
            ),
            RuntimeEvent::PushDone { force, outcome } => toasted(
                match outcome {
                    Ok(_) => Toast::info(
                        if force {
                            ToastText::ForcePushSuccess
                        } else {
                            ToastText::PushSuccess
                        },
                    ),
                    Err(error) => Toast::error(ToastText::PushFailed(error)),
                },
            ),
            RuntimeEvent::ReplaceDone(outcome) => toasted(replace_toast(outcome)),
            RuntimeEvent::DismissConfirm => run_only(AppCommand::DismissConfirm),
            RuntimeEvent::ClearCommitGraphSearch => run_only(
                AppCommand::ClearVimSearchIfTarget(SearchTarget::CommitGraph),
            ),
            RuntimeEvent::LocationJumped { restore_preview_cursor, .. } =>
                match restore_preview_cursor {
                    Some(place) => seq![Effect::RestorePreviewCursor(place)],
                    None => nothing(),
                },
            RuntimeEvent::ClearPreviewSelection => nothing(),
            RuntimeEvent::LspRefineJump { origin, location } => seq![
                Effect::NavPushBackAndJump { origin, location },
            ],
            RuntimeEvent::ResolvePendingHighlight => seq![Effect::ResolvePendingHighlight],
            RuntimeEvent::ClearCommitDetailSelection => nothing(),
            RuntimeEvent::ClearDiffSelection => nothing(),
            RuntimeEvent::PersistQuickOpenMru(encoded) => seq![Effect::SaveQuickOpenMru(encoded)],
            RuntimeEvent::PersistHostsRecent(recent) => seq![Effect::SaveHostsRecent(recent)],
            RuntimeEvent::PersistGraphScope => seq![Effect::SaveGraphScope],
            RuntimeEvent::GraphScopeFallback(short_ref) => toasted(
                Toast::info(ToastText::GraphScopeStaleBranch(short_ref)),
            ) + seq![Effect::SaveGraphScope],
            RuntimeEvent::GraphBranchPickerNotReady => toasted(
                Toast::info(ToastText::GraphPickerNotReady),
            ),
            RuntimeEvent::GraphBranchPickerStaleBranch(short_ref) => toasted(
                Toast::info(ToastText::GraphScopeStaleBranch(short_ref)),
            ),
        }
    }

    /// Follows one report of the engine.
    pub fn apply_runtime_event(&mut self, event: RuntimeEvent) -> (r: Vec<Effect>)
        requires
            old(self).image_protocol_builds < u64::MAX,
        ensures
            *final(self) == old(self).after_event(event),
            r@ == old(self).event_effects(event),
    {
        let clearing = match &event {
            RuntimeEvent::SidebarToggled { hidden, cancel_split_drags, .. } => Clearing {
                drags: *hidden && *cancel_split_drags,
                ..Clearing::nothing()
            },
            RuntimeEvent::LoadPreviewSelected => Clearing { g_chord: true, ..Clearing::nothing() },
            RuntimeEvent::LocationJumped {
                clear_commit_detail_selection,
                clear_diff_selection,
                ..
            } => Clearing {
                commit_detail: *clear_commit_detail_selection,
                diff: *clear_diff_selection,
                ..Clearing::nothing()
            },
            RuntimeEvent::ClearPreviewSelection => Clearing { preview: true, ..Clearing::nothing() },
            RuntimeEvent::ClearCommitDetailSelection => Clearing {
                commit_detail: true,
                ..Clearing::nothing()
            },
            RuntimeEvent::ClearDiffSelection => Clearing { diff: true, ..Clearing::nothing() },
            _ => Clearing::nothing(),
        };
        match event {
            RuntimeEvent::PreviewResult { generation, arrival } => self.apply_preview_result(
                generation,
                arrival,
            ),
            RuntimeEvent::TabChanged(outcome) => self.apply_tab_change_outcome(outcome),
            other => {
                let effects = self.event_work(other);
                self.clear(clearing);
                effects
            },
        }
    }

    fn event_work(&self, event: RuntimeEvent) -> (r: Vec<Effect>)
        requires
            !(event is PreviewResult),
            !(event is TabChanged),
        ensures
            r@ == self.event_effects(event),
    {
        match event {
            RuntimeEvent::PreviewResult { .. } => none(),
            RuntimeEvent::TabChanged(_) => none(),
            RuntimeEvent::SidebarToggled { hidden, show_hidden_hint, .. } => {
                if hidden && show_hidden_hint {
                    push_toast(Toast::info(ToastText::SidebarHiddenHint))
                } else {
                    none()
                }
            },
            RuntimeEvent::LoadPreviewSelected => run(AppCommand::LoadSelectedPreview),
            RuntimeEvent::LoadDiffRequested => self.load_diff(),
            RuntimeEvent::SyncSearchPreviewIfStale => self.sync_search_preview_if_stale(),
            RuntimeEvent::RecomputeVimSearch => search::recompute_and_jump(self),
            RuntimeEvent::RecomputeFindWidget => find_widget::recompute(self),
            RuntimeEvent::AcceptQuickOpenSelection => quick_open::accept(self),
            RuntimeEvent::AcceptGlobalSearchSelection => global_search::accept(self),
            RuntimeEvent::FileActionNotice(notice) => push_toast(file_action_notice(notice)),
            RuntimeEvent::FileCopyDone(outcome) => push_toast(
                match outcome {
                    Ok(count) => Toast::info(ToastText::PlaceModeCopied(count)),
                    Err(error) => Toast::error(ToastText::PlaceModeCopyFailed(error)),
                },
            ),
            RuntimeEvent::FsMutationDone { kind, outcome } => push_toast(
                match outcome {
                    Ok(_) => Toast::info(ToastText::FsMutationSuccess(kind)),
                    Err(error) => Toast::error(ToastText::FsMutationError(kind, error)),
                },
            ),
            RuntimeEvent::CommitDone(outcome) => push_toast(
                match outcome {
                    Ok(_) => Toast::info(ToastText::CommitSuccess),
                    Err(error) => Toast::error(ToastText::CommitFailed(error)),
                },
            ),
            RuntimeEvent::PushDone { force, outcome } => push_toast(
                match outcome {
                    Ok(_) => Toast::info(
                        if force {
                            ToastText::ForcePushSuccess
                        } else {
                            ToastText::PushSuccess
                        },
                    ),
                    Err(error) => Toast::error(ToastText::PushFailed(error)),
                },
            ),
            RuntimeEvent::ReplaceDone(outcome) => push_toast(replace_done_toast(outcome)),
            RuntimeEvent::DismissConfirm => self.dismiss_confirm(),
            RuntimeEvent::ClearCommitGraphSearch => run(
                AppCommand::ClearVimSearchIfTarget(SearchTarget::CommitGraph),
            ),
            RuntimeEvent::LocationJumped { restore_preview_cursor, .. } => {
                match restore_preview_cursor {
                    Some(place) => one(Effect::RestorePreviewCursor(place)),
                    None => none(),
                }
            },
            RuntimeEvent::ClearPreviewSelection => none(),
            RuntimeEvent::LspRefineJump { origin, location } => one(
                Effect::NavPushBackAndJump { origin, location },
            ),
            RuntimeEvent::ResolvePendingHighlight => one(Effect::ResolvePendingHighlight),
            RuntimeEvent::ClearCommitDetailSelection => none(),
            RuntimeEvent::ClearDiffSelection => none(),
            RuntimeEvent::PersistQuickOpenMru(encoded) => one(Effect::SaveQuickOpenMru(encoded)),
            RuntimeEvent::PersistHostsRecent(recent) => one(Effect::SaveHostsRecent(recent)),
            RuntimeEvent::PersistGraphScope => one(Effect::SaveGraphScope),
            RuntimeEvent::GraphScopeFallback(short_ref) => two(
                Effect::Run(
                    AppCommand::PushToast(Toast::info(ToastText::GraphScopeStaleBranch(short_ref))),
                ),
                Effect::SaveGraphScope,
            ),
            RuntimeEvent::GraphBranchPickerNotReady => push_toast(
                Toast::info(ToastText::GraphPickerNotReady),
            ),
            RuntimeEvent::GraphBranchPickerStaleBranch(short_ref) => push_toast(
                Toast::info(ToastText::GraphScopeStaleBranch(short_ref)),
            ),
        }
    }
}

/// A tab change leaves no key waiting for a second one, and what it leaves alone stays
/// as it was.
pub proof fn tab_changes_drop_pending_chords(app: TuiApp, outcome: TabChangeOutcome)
    ensures
        outcome.changed ==> app.after_tab_change(outcome).space_leader_at is None
            && app.after_tab_change(outcome).g_pending_at is None,
        !outcome.changed ==> app.after_tab_change(outcome) == app && app.tab_change_effects(
            outcome,
        ) == nothing(),
        outcome.changed && !outcome.clear_diff_selection ==> app.after_tab_change(
            outcome,
        ).diff_selection == app.diff_selection,
        outcome.changed && !outcome.clear_preview_selection ==> app.after_tab_change(
            outcome,
        ).preview_selection == app.preview_selection,
{
}

} // verus!
