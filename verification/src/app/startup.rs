//! The terminal's state at the start.

use crate::app::{FindWidgetUiState, Theme, TuiApp, TuiLayoutCache};
use crate::command::{AppCommand, Effect};
use crate::engine::Engine;
use crate::scroll::{AxisLock, ScrollPacer};
use crate::ui::mouse::{HitTestRegistry, HitZone};
use vstd::prelude::*;

verus! {

/// Nothing has been drawn, clicked, typed or selected yet.
pub open spec fn fresh(
    engine: Engine,
    theme: Theme,
    has_image_picker: bool,
    hit_registry: HitTestRegistry,
) -> TuiApp {
    let lock = AxisLock { last_at: None, streak: 0 };
    let pacer = ScrollPacer { last_at: None, dense_streak: 0 };
    TuiApp {
        engine,
        layout: TuiLayoutCache {
            last_total_width: 0,
            last_preview_view_h: 0,
            last_diff_view_h: 0,
            last_commit_detail_view_h: 0,
            last_rendered_tree_selected: None,
            last_rendered_graph_selected: None,
            quick_open_last_view_h: 0,
            global_search_last_view_h: 0,
        },
        theme,
        has_image_picker,
        has_image_protocol: false,
        image_protocol_builds: 0,
        preview_selection: None,
        last_preview_rect: None,
        db_preview_layout: None,
        vertical_scroll_lock: lock,
        horizontal_scroll_lock: lock,
        vertical_scroll_pacer: pacer,
        horizontal_scroll_pacer: pacer,
        last_preview_content_origin: None,
        last_markdown_content_origin: None,
        preview_click_state: None,
        diff_selection: None,
        last_diff_rect: None,
        last_diff_hit: None,
        diff_click_state: None,
        commit_detail_selection: None,
        last_commit_detail_rect: None,
        has_commit_detail_hit: false,
        commit_detail_click_state: None,
        last_drag_mouse: None,
        preview_autoscroll_at: None,
        diff_autoscroll_at: None,
        dragging_split: false,
        dragging_graph_diff_split: false,
        hit_registry,
        hover_row: None,
        hover_col: None,
        last_click: None,
        space_leader_at: None,
        g_pending_at: None,
        quick_open_leader_at: None,
        global_search_leader_at: None,
        find_widget_ui: FindWidgetUiState { last_widget_rect: None, space_leader_at: None },
        quick_open_popup_area: None,
        global_search_popup_area: None,
        hosts_picker_popup_area: None,
        graph_branch_picker_popup_area: None,
        diff_ctrl_hover: None,
    }
}

impl TuiApp {
    /// The state at the start, over an engine that was just opened.
    pub fn new(engine: Engine, theme: Theme, has_image_picker: bool) -> (r: TuiApp)
        ensures
            r == fresh(engine, theme, has_image_picker, r.hit_registry),
            r.hit_registry.zones@ == Seq::<HitZone>::empty(),
    {
        TuiApp {
            engine,
            layout: TuiLayoutCache::default(),
            theme,
            has_image_picker,
            has_image_protocol: false,
            image_protocol_builds: 0,
            preview_selection: None,
            last_preview_rect: None,
            db_preview_layout: None,
            vertical_scroll_lock: AxisLock::new(),
            horizontal_scroll_lock: AxisLock::new(),
            vertical_scroll_pacer: ScrollPacer::new(),
            horizontal_scroll_pacer: ScrollPacer::new(),
            last_preview_content_origin: None,
            last_markdown_content_origin: None,
            preview_click_state: None,
            diff_selection: None,
            last_diff_rect: None,
            last_diff_hit: None,
            diff_click_state: None,
            commit_detail_selection: None,
            last_commit_detail_rect: None,
            has_commit_detail_hit: false,
            commit_detail_click_state: None,
            last_drag_mouse: None,
            preview_autoscroll_at: None,
            diff_autoscroll_at: None,
            dragging_split: false,
            dragging_graph_diff_split: false,
            hit_registry: HitTestRegistry::new(),
            hover_row: None,
            hover_col: None,
            last_click: None,
            space_leader_at: None,
            g_pending_at: None,
            quick_open_leader_at: None,
            global_search_leader_at: None,
            find_widget_ui: FindWidgetUiState::default(),
            quick_open_popup_area: None,
            global_search_popup_area: None,
            hosts_picker_popup_area: None,
            graph_branch_picker_popup_area: None,
            diff_ctrl_hover: None,
        }
    }

    /// The state at the start, and what is to be done first: the repository and the files
    /// are read, the symbols are indexed, and the language servers are looked for.
    pub fn new_with_backend(engine: Engine, theme: Theme, has_image_picker: bool) -> (r: (
        TuiApp,
        Vec<Effect>,
    ))
        ensures
            r.0 == fresh(engine, theme, has_image_picker, r.0.hit_registry),
            r.0.hit_registry.zones@ == Seq::<HitZone>::empty(),
            r.1@ == seq![
                Effect::Run(AppCommand::RefreshStatus),
                Effect::Run(AppCommand::RefreshFileTree),
                Effect::BuildSymbolIndex,
                Effect::Run(AppCommand::RefreshLspInstalled),
            ],
    {
        let app = TuiApp::new(engine, theme, has_image_picker);
        (
            app,
            vec![
                Effect::Run(AppCommand::RefreshStatus),
                Effect::Run(AppCommand::RefreshFileTree),
                Effect::BuildSymbolIndex,
                Effect::Run(AppCommand::RefreshLspInstalled),
            ],
        )
    }
}

/// At the start nothing is selected, dragged, clicked or typed, no chord waits, and nothing has
/// been drawn; the engine and the theme are those that were given.
pub proof fn everything_starts_empty(
    engine: Engine,
    theme: Theme,
    has_image_picker: bool,
    hit_registry: HitTestRegistry,
)
    ensures
        ({
            let app = fresh(engine, theme, has_image_picker, hit_registry);
            &&& app.engine == engine && app.theme == theme && app.has_image_picker
                == has_image_picker
            &&& app.preview_selection is None && app.diff_selection is None
                && app.commit_detail_selection is None
            &&& app.preview_click_state is None && app.diff_click_state is None
                && app.commit_detail_click_state is None && app.last_click is None
            &&& app.last_drag_mouse is None && !app.dragging_split
                && !app.dragging_graph_diff_split
            &&& app.space_leader_at is None && app.g_pending_at is None
                && app.quick_open_leader_at is None && app.global_search_leader_at is None
                && app.find_widget_ui.space_leader_at is None
            &&& app.last_preview_rect is None && app.last_diff_rect is None && app.last_diff_hit
                is None && app.last_commit_detail_rect is None && !app.has_commit_detail_hit
            &&& app.last_preview_content_origin is None && app.last_markdown_content_origin is None
            &&& app.quick_open_popup_area is None && app.global_search_popup_area is None
                && app.hosts_picker_popup_area is None && app.graph_branch_picker_popup_area is None
                && app.find_widget_ui.last_widget_rect is None
            &&& app.hover_row is None && app.hover_col is None && app.diff_ctrl_hover is None
            &&& app.layout.last_total_width == 0 && app.layout.last_preview_view_h == 0
                && app.layout.last_diff_view_h == 0 && app.layout.last_commit_detail_view_h == 0
            &&& !app.has_image_protocol && app.image_protocol_builds == 0
        }),
{
}

} // verus!
