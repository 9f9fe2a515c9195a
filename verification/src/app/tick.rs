//! What happens at every frame, and what the status bar says is going on.

use crate::app::TuiApp;
use crate::command::{
    join, none, nothing, run, run_only, AppCommand, Effect, Resume, TickOptions,
};
use crate::engine::Tab;
use crate::input::scrolling::{
    diff_rests, diff_tick_spec, panels_at_rest_do_not_scroll, preview_rests, preview_tick_spec,
    tick_drag_autoscroll,
};
use crate::text::concat;
use crate::time::Timestamp;
use vstd::prelude::*;

verus! {

/// Background work of a tab: what it is, whether it runs, and why it failed if it did.
#[derive(Debug)]
pub struct Activity {
    pub label: String,
    pub loading: bool,
    pub error: Option<String>,
}

/// Background work in words.
pub open spec fn activity_words(activity: Activity) -> Seq<char> {
    if activity.loading {
        activity.label@ + " refreshing…"@
    } else {
        match activity.error {
            Some(error) => activity.label@ + " error: "@ + error@,
            None => activity.label@ + " stale"@,
        }
    }
}

/// Background work in words.
pub fn activity_text(activity: &Activity) -> (r: String)
    ensures
        r@ == activity_words(*activity),
{
    if activity.loading {
        return concat(activity.label.as_str(), " refreshing…");
    }
    match &activity.error {
        Some(error) => {
            let mut out = concat(activity.label.as_str(), " error: ");
            out.push_str(error.as_str());
            out
        },
        None => concat(activity.label.as_str(), " stale"),
    }
}

impl TuiApp {
    /// What the engine is told at every tick.
    #[verifier::allow_in_spec]
    pub fn tick_options(&self) -> TickOptions
        returns
            (TickOptions {
                dark: self.theme.is_dark,
                wants_decoded_image: self.has_image_picker,
                uses_three_col: self.graph_uses_three_col(),
            }),
    {
        TickOptions {
            dark: self.theme.is_dark,
            wants_decoded_image: self.has_image_picker,
            uses_three_col: self.graph_uses_three_col(),
        }
    }

    /// Moves everything on to `now`: first the engine, then what the terminal keeps
    /// itself.
    pub fn tick(&self, now: Timestamp) -> (r: Vec<Effect>)
        ensures
            r@ == seq![
                Effect::EngineTick { now, options: self.tick_options() },
                Effect::Then(Resume::RuntimeEvents),
                Effect::FadePreviewHighlight,
                Effect::Run(AppCommand::DrainGlobalSearchPreviewSyncDebounce { now }),
                Effect::Then(Resume::PreviewSyncIfDue),
                Effect::TakeResizedImages,
                Effect::TakeBuiltImages,
                Effect::Run(AppCommand::AutoExpandPlaceModeHover { now }),
                Effect::Then(Resume::FinishTick),
            ],
    {
        vec![
            Effect::EngineTick { now, options: self.tick_options() },
            Effect::Then(Resume::RuntimeEvents),
            Effect::FadePreviewHighlight,
            Effect::Run(AppCommand::DrainGlobalSearchPreviewSyncDebounce { now }),
            Effect::Then(Resume::PreviewSyncIfDue),
            Effect::TakeResizedImages,
            Effect::TakeBuiltImages,
            Effect::Run(AppCommand::AutoExpandPlaceModeHover { now }),
            Effect::Then(Resume::FinishTick),
        ]
    }

    /// What opening the folder under a drag asks for, where there is a drag.
    pub open spec fn drag_expand_effects(&self, now: Timestamp) -> Seq<Effect> {
        if self.engine.overlays.tree_drag {
            run_only(AppCommand::AutoExpandTreeDragHover { now })
        } else {
            nothing()
        }
    }

    /// Opens the folder that a drag rests on.
    pub fn tick_tree_drag_auto_expand(&self, now: Timestamp) -> (r: Vec<Effect>)
        ensures
            r@ == self.drag_expand_effects(now),
    {
        if !self.engine.overlays.tree_drag {
            return none();
        }
        run(AppCommand::AutoExpandTreeDragHover { now })
    }

    /// The end of a tick: drags open folders and scroll.
    pub fn finish_tick(&mut self, now: Timestamp) -> (r: Vec<Effect>)
        ensures
            *final(self) == diff_tick_spec(preview_tick_spec(*old(self), now).0, now).0,
            r@ == old(self).drag_expand_effects(now) + preview_tick_spec(*old(self), now).1
                + diff_tick_spec(preview_tick_spec(*old(self), now).0, now).1,
    {
        let expand = self.tick_tree_drag_auto_expand(now);
        let scroll = tick_drag_autoscroll(self, now);
        proof {
            let a = old(self).drag_expand_effects(now);
            let b = preview_tick_spec(*old(self), now).1;
            let c = diff_tick_spec(preview_tick_spec(*old(self), now).0, now).1;
            assert(a + (b + c) =~= a + b + c);
        }
        join(expand, scroll)
    }

    /// What the status bar says is going on, given the active tab's background work. A
    /// search that runs says so before anything else.
    pub fn activity_message(&self, activity: Option<&Activity>) -> (r: Option<String>)
        ensures
            match r {
                Some(text) => if self.engine.active_tab == Tab::Search
                    && self.engine.global_search.loading {
                    text@ == "search scanning…"@
                } else {
                    activity is Some && text@ == activity_words(*activity->0)
                },
                None => activity is None && !(self.engine.active_tab == Tab::Search
                    && self.engine.global_search.loading),
            },
    {
        if self.engine.active_tab == Tab::Search && self.engine.global_search.loading {
            return Some("search scanning…".to_string());
        }
        match activity {
            Some(work) => Some(activity_text(work)),
            None => None,
        }
    }
}

/// The end of a tick without a drag changes nothing and asks for nothing.
pub proof fn ticks_without_a_drag_do_nothing(app: TuiApp, now: Timestamp)
    requires
        !app.engine.overlays.tree_drag,
        preview_rests(app),
        diff_rests(app),
    ensures
        diff_tick_spec(preview_tick_spec(app, now).0, now).0 == app,
        app.drag_expand_effects(now) + preview_tick_spec(app, now).1 + diff_tick_spec(
            preview_tick_spec(app, now).0,
            now,
        ).1 == nothing(),
{
    panels_at_rest_do_not_scroll(app, now);
}

/// Work that runs is said to run whatever failed before it; work that does not says why it
/// failed, or that what is shown is old.
pub proof fn work_is_named_in_words(activity: Activity)
    ensures
        activity.loading ==> activity_words(activity) == activity.label@ + " refreshing…"@,
        !activity.loading && activity.error is Some ==> activity_words(activity)
            == activity.label@ + " error: "@ + activity.error->0@,
        !activity.loading && activity.error is None ==> activity_words(activity)
            == activity.label@ + " stale"@,
{
}

/// The engine is told whether the theme is dark, whether pictures can be shown, and whether
/// the Graph tab shows three columns.
pub proof fn ticks_tell_what_is_shown(app: TuiApp)
    ensures
        app.tick_options().dark == app.theme.is_dark,
        app.tick_options().wants_decoded_image == app.has_image_picker,
        app.tick_options().uses_three_col <==> app.engine.active_tab == Tab::Graph
            && app.layout.last_total_width >= 100 && (app.engine.graph.file_diff_loaded
            || app.engine.graph.file_diff_loading),
{
}

/// A folder under a drag is opened while there is a drag, and none otherwise.
pub proof fn drags_open_folders(app: TuiApp, now: Timestamp)
    ensures
        app.engine.overlays.tree_drag ==> app.drag_expand_effects(now) == seq![
            Effect::Run(AppCommand::AutoExpandTreeDragHover { now }),
        ],
        !app.engine.overlays.tree_drag ==> app.drag_expand_effects(now).len() == 0,
{
}

} // verus!
