//! The terminal's own state, and what it does on a click or when the engine reports.

use crate::command::{
    none, nothing, run, run_and_drain, run_only, AppCommand, Effect, SearchViewport,
};
use crate::engine::{Engine, Panel, PreviewKind, Tab};
use crate::geometry::Rect;
use crate::layout::{
    compute_sidebar_width, compute_three_col_widths, compute_uses_three_col, diff_column_width,
    sidebar_width,
};
use crate::scroll::{AxisLock, ScrollPacer};
use crate::selection::{
    ClickState, DiffHit, DiffHover, DiffSelection, LastClick, PreviewSelection,
};
use crate::settings::Msg;
use crate::time::Timestamp;
use crate::ui::mouse::HitTestRegistry;
use vstd::prelude::*;

pub mod actions;
pub mod commands;
pub mod events;
pub mod startup;
pub mod tick;
pub mod tree;

verus! {

/// What the last frame measured.
#[derive(Clone, Copy, Debug, PartialEq, Eq, Structural)]
pub struct TuiLayoutCache {
    pub last_total_width: u16,
    pub last_preview_view_h: u16,
    pub last_diff_view_h: u16,
    pub last_commit_detail_view_h: u16,
    pub last_rendered_tree_selected: Option<usize>,
    pub last_rendered_graph_selected: Option<usize>,
    pub quick_open_last_view_h: u16,
    pub global_search_last_view_h: u16,
}

impl Default for TuiLayoutCache {
    fn default() -> (r: TuiLayoutCache)
        ensures
            r == (TuiLayoutCache {
                last_total_width: 0,
                last_preview_view_h: 0,
                last_diff_view_h: 0,
                last_commit_detail_view_h: 0,
                last_rendered_tree_selected: None,
                last_rendered_graph_selected: None,
                quick_open_last_view_h: 0,
                global_search_last_view_h: 0,
            }),
    {
        TuiLayoutCache {
            last_total_width: 0,
            last_preview_view_h: 0,
            last_diff_view_h: 0,
            last_commit_detail_view_h: 0,
            last_rendered_tree_selected: None,
            last_rendered_graph_selected: None,
            quick_open_last_view_h: 0,
            global_search_last_view_h: 0,
        }
    }
}

/// The colors in use.
#[derive(Clone, Copy, Debug, PartialEq, Eq, Structural)]
pub struct Theme {
    pub is_dark: bool,
}

/// What the find widget remembers between two frames.
#[derive(Clone, Copy, Debug, PartialEq, Eq, Structural)]
pub struct FindWidgetUiState {
    pub last_widget_rect: Option<Rect>,
    pub space_leader_at: Option<Timestamp>,
}

impl Default for FindWidgetUiState {
    fn default() -> (r: FindWidgetUiState)
        ensures
            r == (FindWidgetUiState { last_widget_rect: None, space_leader_at: None }),
    {
        FindWidgetUiState { last_widget_rect: None, space_leader_at: None }
    }
}

/// The measured columns of the database table that was drawn last.
#[derive(Debug)]
pub struct DbPreviewLayoutCache {
    pub path: String,
    pub selection: DbObjectKey,
    pub page: u64,
    pub rows_len: usize,
    pub col_widths: Vec<usize>,
    pub total_table_w: usize,
}

/// A table, view, index or trigger of a database.
#[derive(Debug)]
pub struct DbObjectKey {
    pub schema: String,
    pub name: String,
    pub kind: u8,
}

/// The name of a tab.
#[verifier::allow_in_spec]
pub fn tab_label(tab: Tab) -> Msg
    returns
        (match tab {
            Tab::Files => Msg::TabFiles,
            Tab::Search => Msg::TabSearch,
            Tab::Git => Msg::TabGit,
            Tab::Graph => Msg::TabGraph,
        }),
{
    match tab {
        Tab::Files => Msg::TabFiles,
        Tab::Search => Msg::TabSearch,
        Tab::Git => Msg::TabGit,
        Tab::Graph => Msg::TabGraph,
    }
}

impl DbPreviewLayoutCache {
    /// Whether the measurements were taken of this page of this object.
    pub open spec fn is_of(
        self,
        path: Seq<char>,
        selection: DbObjectKey,
        page: u64,
        rows_len: usize,
    ) -> bool {
        &&& self.path@ == path
        &&& self.selection.schema@ == selection.schema@
        &&& self.selection.name@ == selection.name@
        &&& self.selection.kind == selection.kind
        &&& self.page == page
        &&& self.rows_len == rows_len
    }

    /// Remembers what was measured of a page, which holds until another one is shown.
    pub fn rebuild(
        path: &str,
        selection: &DbObjectKey,
        page: u64,
        rows_len: usize,
        col_widths: Vec<usize>,
        total_table_w: usize,
    ) -> (r: DbPreviewLayoutCache)
        ensures
            r.is_of(path@, *selection, page, rows_len),
            r.col_widths == col_widths,
            r.total_table_w == total_table_w,
    {
        DbPreviewLayoutCache {
            path: path.to_string(),
            selection: DbObjectKey {
                schema: selection.schema.clone(),
                name: selection.name.clone(),
                kind: selection.kind,
            },
            page,
            rows_len,
            col_widths,
            total_table_w,
        }
    }

    /// Whether the measurements still hold for what is shown now.
    pub fn matches(&self, path: &String, selection: &DbObjectKey, page: u64, rows_len: usize) -> (r:
        bool)
        ensures
            r == self.is_of(path@, *selection, page, rows_len),
    {
        self.path == *path && self.selection.schema == selection.schema && self.selection.name
            == selection.name && self.selection.kind == selection.kind && self.page == page
            && self.rows_len == rows_len
    }
}

/// The terminal's own state, beside what it reads of the engine.
#[derive(Debug)]
pub struct TuiApp {
    pub engine: Engine,
    pub layout: TuiLayoutCache,
    pub theme: Theme,
    pub has_image_picker: bool,
    pub has_image_protocol: bool,
    pub image_protocol_builds: u64,
    pub preview_selection: Option<PreviewSelection>,
    pub last_preview_rect: Option<Rect>,
    pub db_preview_layout: Option<DbPreviewLayoutCache>,
    pub vertical_scroll_lock: AxisLock,
    pub horizontal_scroll_lock: AxisLock,
    pub vertical_scroll_pacer: ScrollPacer,
    pub horizontal_scroll_pacer: ScrollPacer,
    pub last_preview_content_origin: Option<(u16, u16, u16)>,
    pub last_markdown_content_origin: Option<(u16, u16)>,
    pub preview_click_state: Option<ClickState>,
    pub diff_selection: Option<DiffSelection>,
    pub last_diff_rect: Option<Rect>,
    pub last_diff_hit: Option<DiffHit>,
    pub diff_click_state: Option<ClickState>,
    pub commit_detail_selection: Option<PreviewSelection>,
    pub last_commit_detail_rect: Option<Rect>,
    pub has_commit_detail_hit: bool,
    pub commit_detail_click_state: Option<ClickState>,
    pub last_drag_mouse: Option<(u16, u16)>,
    pub preview_autoscroll_at: Option<Timestamp>,
    pub diff_autoscroll_at: Option<Timestamp>,
    pub dragging_split: bool,
    pub dragging_graph_diff_split: bool,
    pub hit_registry: HitTestRegistry,
    pub hover_row: Option<u16>,
    pub hover_col: Option<u16>,
    pub last_click: Option<LastClick>,
    pub space_leader_at: Option<Timestamp>,
    pub g_pending_at: Option<Timestamp>,
    pub quick_open_leader_at: Option<Timestamp>,
    pub global_search_leader_at: Option<Timestamp>,
    pub find_widget_ui: FindWidgetUiState,
    pub quick_open_popup_area: Option<Rect>,
    pub global_search_popup_area: Option<Rect>,
    pub hosts_picker_popup_area: Option<Rect>,
    pub graph_branch_picker_popup_area: Option<Rect>,
    pub diff_ctrl_hover: Option<DiffHover>,
}


/// Far enough to reach the end of any list, and safe to negate.
pub const NAV_FAR: i32 = 1_000_000;

impl TuiApp {
    /// Width of the sidebar on a terminal of `total_width` columns; none while it is
    /// hidden.
    pub open spec fn sidebar(&self, total_width: u16) -> int {
        if self.engine.columns.sidebar_hidden {
            0
        } else {
            sidebar_width(total_width as int, self.engine.columns.split_percent as int)
        }
    }

    /// Width of the sidebar on a terminal of `total_width` columns.
    pub fn graph_sidebar_width(&self, total_width: u16) -> (r: u16)
        ensures
            r == self.sidebar(total_width),
            r <= total_width,
    {
        if self.engine.columns.sidebar_hidden {
            0
        } else {
            compute_sidebar_width(total_width, self.engine.columns.split_percent)
        }
    }

    /// Widths of the Graph tab's three columns: graph, commit, diff.
    pub fn graph_three_col_widths(&self, total_width: u16) -> (r: (u16, u16, u16))
        ensures
            r.0 == self.sidebar(total_width),
            r.2 == diff_column_width(
                total_width - self.sidebar(total_width),
                self.engine.columns.graph_diff_split_percent as int,
            ),
            r.0 + r.1 + r.2 == total_width,
    {
        let sidebar_w: u16 = self.graph_sidebar_width(total_width);
        compute_three_col_widths(
            total_width,
            sidebar_w,
            self.engine.columns.graph_diff_split_percent,
        )
    }

    /// Whether the Graph tab shows three columns in the frame that was drawn last.
    #[verifier::allow_in_spec]
    pub fn graph_uses_three_col(&self) -> bool
        returns
            compute_uses_three_col(
                self.engine.active_tab,
                self.layout.last_total_width,
                self.engine.graph.file_diff_loaded,
                self.engine.graph.file_diff_loading,
            ),
    {
        compute_uses_three_col(
            self.engine.active_tab,
            self.layout.last_total_width,
            self.engine.graph.file_diff_loaded,
            self.engine.graph.file_diff_loading,
        )
    }

    /// Whether the focused preview shows the button that lists the changed files: on
    /// the Git tab, and on the Graph tab with three columns.
    #[verifier::allow_in_spec]
    pub fn focused_preview_chip_visible(&self) -> bool
        returns
            self.engine.active_tab == Tab::Git || self.graph_uses_three_col(),
    {
        self.engine.active_tab == Tab::Git || self.graph_uses_three_col()
    }

    /// Whether the preview shows a database and bare `g` asks for a page of it.
    #[verifier::allow_in_spec]
    pub fn is_sqlite_preview(&self) -> bool
        returns
            self.engine.active_panel == Panel::Diff && self.engine.active_tab == Tab::Files
                && self.engine.preview.kind == PreviewKind::Database,
    {
        self.engine.active_panel == Panel::Diff && self.engine.active_tab == Tab::Files
            && self.engine.preview.kind == PreviewKind::Database
    }

    /// The rows of each content panel that are on screen.
    #[verifier::allow_in_spec]
    pub fn viewport(&self) -> SearchViewport
        returns
            (SearchViewport {
                preview_view_h: self.layout.last_preview_view_h as usize,
                diff_view_h: self.layout.last_diff_view_h as usize,
                commit_detail_view_h: self.layout.last_commit_detail_view_h as usize,
            }),
    {
        SearchViewport {
            preview_view_h: self.layout.last_preview_view_h as usize,
            diff_view_h: self.layout.last_diff_view_h as usize,
            commit_detail_view_h: self.layout.last_commit_detail_view_h as usize,
        }
    }

    /// Rows of the file list that keyboard navigation runs over.
    #[verifier::allow_in_spec]
    pub fn visible_file_count(&self) -> usize
        returns
            self.engine.git_file_count,
    {
        self.engine.git_file_count
    }

    /// Drops the diff selection together with its click counter.
    pub fn clear_diff_selection(&mut self)
        ensures
            *final(self) == (TuiApp { diff_selection: None, diff_click_state: None, ..*old(self) }),
    {
        self.diff_selection = None;
        self.diff_click_state = None;
    }

    /// Drops the selection in the commit's details together with its click counter.
    pub fn clear_commit_detail_selection(&mut self)
        ensures
            *final(self) == (TuiApp {
                commit_detail_selection: None,
                commit_detail_click_state: None,
                ..*old(self)
            }),
    {
        self.commit_detail_selection = None;
        self.commit_detail_click_state = None;
    }

    /// Forgets a leader key and a `g` that wait for their second key.
    pub fn clear_input_chords(&mut self)
        ensures
            *final(self) == (TuiApp { space_leader_at: None, g_pending_at: None, ..*old(self) }),
    {
        self.space_leader_at = None;
        self.g_pending_at = None;
    }

    /// Forgets a `g` that waits for its second key.
    pub fn clear_g_chord(&mut self)
        ensures
            *final(self) == (TuiApp { g_pending_at: None, ..*old(self) }),
    {
        self.g_pending_at = None;
    }

    /// What jumping to one end of the active panel asks for: lists move their
    /// selection by `far` rows, and contents scroll to `edge`.
    pub open spec fn jump_effects(&self, far: i32, edge: usize) -> Seq<Effect> {
        if self.is_sqlite_preview() {
            nothing()
        } else {
            match (self.engine.active_tab, self.engine.active_panel) {
                (Tab::Files, Panel::Files) => if self.engine.tree.entries@.len() == 0 {
                    nothing()
                } else {
                    run_only(AppCommand::NavigateFileTree(far))
                },
                (Tab::Files, Panel::Diff) => run_only(AppCommand::SetPreviewVerticalScroll(edge)),
                (Tab::Search, Panel::Diff) => run_only(AppCommand::SetPreviewVerticalScroll(edge)),
                (Tab::Git, Panel::Files) => run_only(AppCommand::NavigateGitFiles(far)),
                (Tab::Git, Panel::Diff) => run_only(AppCommand::SetDiffVerticalScroll(edge)),
                (Tab::Graph, Panel::Files) => if self.engine.graph.has_range_anchor {
                    run_and_drain(AppCommand::ExtendGraphSelection(far))
                } else {
                    run_and_drain(AppCommand::MoveGraphSelection(far))
                },
                (Tab::Graph, Panel::Commit) => run_only(
                    AppCommand::SetCommitDetailVerticalScroll(edge),
                ),
                (Tab::Graph, Panel::Diff) => run_only(
                    AppCommand::SetCommitDetailFileDiffVerticalScroll(edge),
                ),
                _ => nothing(),
            }
        }
    }

    fn jump_to_edge(&self, far: i32, edge: usize) -> (r: Vec<Effect>)
        ensures
            r@ == self.jump_effects(far, edge),
    {
        if self.is_sqlite_preview() {
            return none();
        }
        match (self.engine.active_tab, self.engine.active_panel) {
            (Tab::Files, Panel::Files) => {
                if self.engine.tree.entries.is_empty() {
                    none()
                } else {
                    run(AppCommand::NavigateFileTree(far))
                }
            },
            (Tab::Files, Panel::Diff) => run(AppCommand::SetPreviewVerticalScroll(edge)),
            (Tab::Search, Panel::Diff) => run(AppCommand::SetPreviewVerticalScroll(edge)),
            (Tab::Git, Panel::Files) => self.navigate_files(far),
            (Tab::Git, Panel::Diff) => run(AppCommand::SetDiffVerticalScroll(edge)),
            (Tab::Graph, Panel::Files) => {
                if self.engine.graph.has_range_anchor {
                    self.extend_graph_selection(far)
                } else {
                    self.move_graph_selection(far)
                }
            },
            (Tab::Graph, Panel::Commit) => run(AppCommand::SetCommitDetailVerticalScroll(edge)),
            (Tab::Graph, Panel::Diff) => run(
                AppCommand::SetCommitDetailFileDiffVerticalScroll(edge),
            ),
            _ => none(),
        }
    }

    /// `gg`: jumps the active panel to its top.
    pub fn scroll_active_preview_to_top(&self) -> (r: Vec<Effect>)
        ensures
            r@ == self.jump_effects((-NAV_FAR) as i32, 0),
    {
        self.jump_to_edge(-NAV_FAR, 0)
    }

    /// `G`: jumps the active panel to its bottom. Contents scroll as far as they can
    /// count, and the renderer stops them at their last screenful.
    pub fn scroll_active_preview_to_bottom(&self) -> (r: Vec<Effect>)
        ensures
            r@ == self.jump_effects(NAV_FAR, usize::MAX),
    {
        self.jump_to_edge(NAV_FAR, usize::MAX)
    }
}

/// Every tab is called by its own name.
pub proof fn tabs_are_called_by_their_name()
    ensures
        tab_label(Tab::Files) == Msg::TabFiles,
        tab_label(Tab::Search) == Msg::TabSearch,
        tab_label(Tab::Git) == Msg::TabGit,
        tab_label(Tab::Graph) == Msg::TabGraph,
{
}

/// A sidebar that is hidden takes no column, and the rows of each panel are told as drawn.
pub proof fn columns_are_told_as_drawn(app: TuiApp, total_width: u16)
    ensures
        app.engine.columns.sidebar_hidden ==> app.sidebar(total_width) == 0,
        app.viewport().preview_view_h == app.layout.last_preview_view_h,
        app.viewport().diff_view_h == app.layout.last_diff_view_h,
        app.viewport().commit_detail_view_h == app.layout.last_commit_detail_view_h,
        app.visible_file_count() == app.engine.git_file_count,
{
}

/// What was measured of a page of a database holds for that page alone.
pub proof fn measurements_hold_for_one_page(
    cache: DbPreviewLayoutCache,
    path: Seq<char>,
    selection: DbObjectKey,
    page: u64,
    rows_len: usize,
)
    requires
        cache.is_of(path, selection, page, rows_len),
    ensures
        cache.path@ == path,
        cache.selection.schema@ == selection.schema@,
        cache.selection.name@ == selection.name@,
        cache.selection.kind == selection.kind,
        cache.page == page,
        cache.rows_len == rows_len,
{
}

} // verus!
