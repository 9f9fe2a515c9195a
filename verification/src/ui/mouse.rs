//! Where a click lands: the zones that the panels registered while drawing.

use crate::engine::Tab;
use crate::geometry::{point_in_rect, Rect};
use crate::tree_context_menu::ContextMenuItem;
use vstd::prelude::*;

verus! {

/// What a click on a zone asks for.
#[derive(Debug)]
pub enum ClickAction {
    SwitchTab(Tab),
    ToggleSidebar,
    OpenSettings,
    OpenHostsPicker,
    TreeClick(usize),
    TreeClearSelection,
    SelectFile { path: String, staged: bool },
    StageFile(String),
    UnstageFile(String),
    StartDragSplit,
    StartDragGraphDiffSplit,
    /// A command of the git panels, with the commit it names if it names one. The
    /// rest of its arguments is kept by the panel under `payload`.
    GitCommand { command: String, oid: Option<String>, payload: usize },
    QuickOpenSelect(usize),
    GraphBranchPickerSelect(usize),
    GlobalSearchSelect(usize),
    GlobalSearchFocusInput,
    GlobalSearchFocusReplaceInput,
    SearchToggleReplace,
    SearchToggleMatch(usize),
    SearchApplyReplace,
    PlaceModeFolder(usize),
    PlaceModeRoot,
    FileTreeToolbarNewFile,
    FileTreeToolbarNewFolder,
    FileTreeToolbarCollapse,
    TreeContextMenuItem(ContextMenuItem),
    TreeContextMenuClose,
    NavCandidateSelect(usize),
    NavCandidateGroupToggle(usize),
    NavCandidatesClose,
    /// The frame of the popup, which keeps clicks from what lies under it.
    NavCandidatesCapture,
    OpenMarkdownLink(String),
    HostsPickerSelect(usize),
    DbPrevPage,
    DbNextPage,
    DbGotoPage(u64),
    DbSelectObject { schema: String, name: String, kind: u8 },
    DbToggleSchema(String),
    FindWidgetClose,
    FindWidgetNext,
    FindWidgetPrev,
    FindWidgetToggleCase,
    FindWidgetToggleWord,
    FindWidgetToggleRegex,
    SettingsRow(usize),
    ConfirmModalPrimary,
    ConfirmModalCancel,
    ToggleFocusedPreviewFiles,
    PickFocusedPreviewFile(usize),
    CloseFocusedPreviewFiles,
}

impl Clone for ClickAction {
    fn clone(&self) -> (r: Self)
        ensures
            r == *self,
    {
        match self {
            ClickAction::SwitchTab(tab) => ClickAction::SwitchTab(*tab),
            ClickAction::ToggleSidebar => ClickAction::ToggleSidebar,
            ClickAction::OpenSettings => ClickAction::OpenSettings,
            ClickAction::OpenHostsPicker => ClickAction::OpenHostsPicker,
            ClickAction::TreeClick(idx) => ClickAction::TreeClick(*idx),
            ClickAction::TreeClearSelection => ClickAction::TreeClearSelection,
            ClickAction::SelectFile { path, staged } => ClickAction::SelectFile {
                path: path.clone(),
                staged: *staged,
            },
            ClickAction::StageFile(path) => ClickAction::StageFile(path.clone()),
            ClickAction::UnstageFile(path) => ClickAction::UnstageFile(path.clone()),
            ClickAction::StartDragSplit => ClickAction::StartDragSplit,
            ClickAction::StartDragGraphDiffSplit => ClickAction::StartDragGraphDiffSplit,
            ClickAction::GitCommand { command, oid, payload } => ClickAction::GitCommand {
                command: command.clone(),
                oid: match oid {
                    Some(oid) => Some(oid.clone()),
                    None => None,
                },
                payload: *payload,
            },
            ClickAction::QuickOpenSelect(idx) => ClickAction::QuickOpenSelect(*idx),
            ClickAction::GraphBranchPickerSelect(idx) => ClickAction::GraphBranchPickerSelect(*idx),
            ClickAction::GlobalSearchSelect(idx) => ClickAction::GlobalSearchSelect(*idx),
            ClickAction::GlobalSearchFocusInput => ClickAction::GlobalSearchFocusInput,
            ClickAction::GlobalSearchFocusReplaceInput =>
                ClickAction::GlobalSearchFocusReplaceInput,
            ClickAction::SearchToggleReplace => ClickAction::SearchToggleReplace,
            ClickAction::SearchToggleMatch(idx) => ClickAction::SearchToggleMatch(*idx),
            ClickAction::SearchApplyReplace => ClickAction::SearchApplyReplace,
            ClickAction::PlaceModeFolder(idx) => ClickAction::PlaceModeFolder(*idx),
            ClickAction::PlaceModeRoot => ClickAction::PlaceModeRoot,
            ClickAction::FileTreeToolbarNewFile => ClickAction::FileTreeToolbarNewFile,
            ClickAction::FileTreeToolbarNewFolder => ClickAction::FileTreeToolbarNewFolder,
            ClickAction::FileTreeToolbarCollapse => ClickAction::FileTreeToolbarCollapse,
            ClickAction::TreeContextMenuItem(item) => ClickAction::TreeContextMenuItem(*item),
            ClickAction::TreeContextMenuClose => ClickAction::TreeContextMenuClose,
            ClickAction::NavCandidateSelect(idx) => ClickAction::NavCandidateSelect(*idx),
            ClickAction::NavCandidateGroupToggle(idx) => ClickAction::NavCandidateGroupToggle(*idx),
            ClickAction::NavCandidatesClose => ClickAction::NavCandidatesClose,
            ClickAction::NavCandidatesCapture => ClickAction::NavCandidatesCapture,
            ClickAction::OpenMarkdownLink(target) => ClickAction::OpenMarkdownLink(target.clone()),
            ClickAction::HostsPickerSelect(idx) => ClickAction::HostsPickerSelect(*idx),
            ClickAction::DbPrevPage => ClickAction::DbPrevPage,
            ClickAction::DbNextPage => ClickAction::DbNextPage,
            ClickAction::DbGotoPage(page) => ClickAction::DbGotoPage(*page),
            ClickAction::DbSelectObject { schema, name, kind } => ClickAction::DbSelectObject {
                schema: schema.clone(),
                name: name.clone(),
                kind: *kind,
            },
            ClickAction::DbToggleSchema(name) => ClickAction::DbToggleSchema(name.clone()),
            ClickAction::FindWidgetClose => ClickAction::FindWidgetClose,
            ClickAction::FindWidgetNext => ClickAction::FindWidgetNext,
            ClickAction::FindWidgetPrev => ClickAction::FindWidgetPrev,
            ClickAction::FindWidgetToggleCase => ClickAction::FindWidgetToggleCase,
            ClickAction::FindWidgetToggleWord => ClickAction::FindWidgetToggleWord,
            ClickAction::FindWidgetToggleRegex => ClickAction::FindWidgetToggleRegex,
            ClickAction::SettingsRow(idx) => ClickAction::SettingsRow(*idx),
            ClickAction::ConfirmModalPrimary => ClickAction::ConfirmModalPrimary,
            ClickAction::ConfirmModalCancel => ClickAction::ConfirmModalCancel,
            ClickAction::ToggleFocusedPreviewFiles => ClickAction::ToggleFocusedPreviewFiles,
            ClickAction::PickFocusedPreviewFile(idx) => ClickAction::PickFocusedPreviewFile(*idx),
            ClickAction::CloseFocusedPreviewFiles => ClickAction::CloseFocusedPreviewFiles,
        }
    }
}

/// A zone and what a click on it asks for.
#[derive(Debug)]
pub struct HitZone {
    pub rect: Rect,
    pub action: ClickAction,
}

/// The action of the last zone that holds the cell.
pub open spec fn topmost(zones: Seq<HitZone>, col: int, row: int) -> Option<ClickAction>
    decreases zones.len(),
{
    if zones.len() == 0 {
        None
    } else if zones.last().rect.holds(col, row) {
        Some(zones.last().action)
    } else {
        topmost(zones.drop_last(), col, row)
    }
}

/// The zones of a frame, in the order in which they were drawn. What is drawn
/// later lies on top.
#[derive(Debug)]
pub struct HitTestRegistry {
    pub zones: Vec<HitZone>,
}

impl HitTestRegistry {
    /// What a click on the cell asks for.
    pub open spec fn hit(&self, col: u16, row: u16) -> Option<ClickAction> {
        topmost(self.zones@, col as int, row as int)
    }

    pub fn new() -> (r: HitTestRegistry)
        ensures
            r.zones@ == Seq::<HitZone>::empty(),
    {
        HitTestRegistry { zones: Vec::new() }
    }

    /// Puts a zone on top of the others.
    pub fn register(&mut self, rect: Rect, action: ClickAction)
        ensures
            final(self).zones@ == old(self).zones@.push(HitZone { rect, action }),
    {
        self.zones.push(HitZone { rect, action });
    }

    /// Puts a zone that is one row high on top of the others.
    pub fn register_row(&mut self, x: u16, y: u16, width: u16, action: ClickAction)
        ensures
            final(self).zones@ == old(self).zones@.push(
                HitZone { rect: Rect::new(x, y, width, 1), action },
            ),
    {
        self.zones.push(HitZone { rect: Rect::new(x, y, width, 1), action });
    }

    /// What a click on the cell asks for.
    pub fn hit_test(&self, col: u16, row: u16) -> (r: Option<ClickAction>)
        ensures
            r == self.hit(col, row),
    {
        let mut n: usize = self.zones.len();
        assert(self.zones@.take(n as int) =~= self.zones@);
        while n > 0
            invariant
                n <= self.zones.len(),
                self.hit(col, row) == topmost(self.zones@.take(n as int), col as int, row as int),
            decreases n,
        {
            let ghost shown = self.zones@.take(n as int);
            assert(shown.last() == self.zones@[n - 1]);
            assert(shown.drop_last() =~= self.zones@.take(n - 1));
            if point_in_rect(self.zones[n - 1].rect, col, row) {
                return Some(self.zones[n - 1].action.clone());
            }
            n -= 1;
        }
        None
    }
}

/// A zone drawn last gets every click inside it, and none outside it.
pub proof fn later_zones_lie_on_top(zones: Seq<HitZone>, zone: HitZone, col: int, row: int)
    ensures
        topmost(zones.push(zone), col, row) == (if zone.rect.holds(col, row) {
            Some(zone.action)
        } else {
            topmost(zones, col, row)
        }),
{
    assert(zones.push(zone).drop_last() =~= zones);
}

} // verus!
