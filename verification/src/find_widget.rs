//! The find widget over the preview and the diff panels.

use crate::app::{FindWidgetUiState, TuiApp};
use crate::command::{
    none, nothing, run, run_and_drain, run_only, run_then_drain, two, AppCommand, Effect,
    FindWidgetToggle, Resume,
};
use crate::engine::{DiffSide, FindPlace, Panel, Tab};
use crate::event::{KeyCode, KeyEvent};
use crate::input::leader::{leader_decision, leader_verdict, LeaderVerdict, LEADER_TIMEOUT_MILLIS};
use crate::input_edit::{op_for_key, single_line_op};
use crate::keymap::{resolved, Command, InputScope, Keymap};
use crate::time::{millis, Duration, Timestamp};
use vstd::prelude::*;

verus! {

impl TuiApp {
    /// Where the find widget would open with `panel` in focus.
    pub open spec fn find_place(&self, panel: Panel) -> Option<FindPlace> {
        let side = match self.diff_selection {
            Some(selection) => Some(selection.side),
            None => None,
        };
        let layout = self.engine.diff_layout;
        if panel != Panel::Diff {
            None
        } else {
            match self.engine.active_tab {
                Tab::Files => Some(FindPlace::FilePreview),
                Tab::Search => Some(FindPlace::FilePreview),
                Tab::Git => Some(FindPlace::Diff { layout, side, graph: false }),
                Tab::Graph => if self.graph_uses_three_col() {
                    Some(FindPlace::Diff { layout, side, graph: true })
                } else {
                    None
                },
            }
        }
    }

    /// Where the find widget would open now.
    pub fn resolve_find_place(&self) -> (r: Option<FindPlace>)
        ensures
            r == self.find_place(self.engine.active_panel),
    {
        let side: Option<DiffSide> = match self.diff_selection {
            Some(selection) => Some(selection.side),
            None => None,
        };
        let layout = self.engine.diff_layout;
        match (self.engine.active_tab, self.engine.active_panel) {
            (Tab::Files, Panel::Diff) => Some(FindPlace::FilePreview),
            (Tab::Search, Panel::Diff) => Some(FindPlace::FilePreview),
            (Tab::Git, Panel::Diff) => Some(FindPlace::Diff { layout, side, graph: false }),
            (Tab::Graph, Panel::Diff) => {
                if self.graph_uses_three_col() {
                    Some(FindPlace::Diff { layout, side, graph: true })
                } else {
                    None
                }
            },
            _ => None,
        }
    }
}

/// Whether opening the find widget first moves the focus to the content column: the
/// focus is on a list, and not on the row where a search is typed.
pub open spec fn find_moves_focus(app: TuiApp) -> bool {
    &&& !(app.engine.active_tab == Tab::Search && app.engine.active_panel == Panel::Files)
    &&& app.find_place(app.engine.active_panel) is None
    &&& app.engine.active_panel != Panel::Diff
}

/// What opening the find widget asks for.
pub open spec fn begin_selection_effects(app: TuiApp, selected_text: Option<String>) -> Seq<
    Effect,
> {
    if find_moves_focus(app) {
        seq![
            Effect::Run(AppCommand::SetActivePanel(Panel::Diff)),
            Effect::Then(Resume::BeginFind),
        ]
    } else {
        begin_find_effects(app, selected_text)
    }
}

/// Opens the find widget on the content that is on screen. Where the focus is on a
/// list it is moved first, and the widget opens once the engine has done so.
pub fn begin_with_selection(app: &TuiApp, selected_text: Option<String>) -> (r: Vec<Effect>)
    ensures
        r@ == begin_selection_effects(*app, selected_text),
{
    let on_search_input = app.engine.active_tab == Tab::Search && app.engine.active_panel
        == Panel::Files;
    if !on_search_input && app.resolve_find_place().is_none() && app.engine.active_panel
        != Panel::Diff {
        return two(
            Effect::Run(AppCommand::SetActivePanel(Panel::Diff)),
            Effect::Then(Resume::BeginFind),
        );
    }
    begin_resolved(app, selected_text)
}

/// What opening the find widget asks for, with the focus where it is.
pub open spec fn begin_find_effects(app: TuiApp, selected_text: Option<String>) -> Seq<Effect> {
    match app.find_place(app.engine.active_panel) {
        Some(place) => run_and_drain(AppCommand::BeginFindWidget { place, query: selected_text }),
        None => nothing(),
    }
}

/// Opens the find widget, seeded with the selected text, where the focused panel has
/// something to find in.
pub fn begin_resolved(app: &TuiApp, selected_text: Option<String>) -> (r: Vec<Effect>)
    ensures
        r@ == begin_find_effects(*app, selected_text),
{
    match app.resolve_find_place() {
        Some(place) => run_then_drain(
            AppCommand::BeginFindWidget { place, query: selected_text },
        ),
        None => none(),
    }
}

/// Closes the widget.
pub fn close(app: &mut TuiApp) -> (r: Vec<Effect>)
    ensures
        r@ == run_only(AppCommand::CloseFindWidget { dark: old(app).theme.is_dark }),
        *final(app) == closed(*old(app)),
{
    app.find_widget_ui = FindWidgetUiState::default();
    run(AppCommand::CloseFindWidget { dark: app.theme.is_dark })
}

/// The state once the widget has forgotten what it remembered.
pub open spec fn closed(app: TuiApp) -> TuiApp {
    TuiApp {
        find_widget_ui: FindWidgetUiState { last_widget_rect: None, space_leader_at: None },
        ..app
    }
}

/// What moving to the next match, or the one before, asks for.
pub open spec fn step_effects(app: TuiApp, reverse: bool) -> Seq<Effect> {
    run_only(AppCommand::StepFindWidget { reverse, viewport: app.viewport() })
}

/// Moves to the next match, or to the one before it.
pub fn step(app: &TuiApp, reverse: bool) -> (r: Vec<Effect>)
    ensures
        r@ == step_effects(*app, reverse),
{
    run(AppCommand::StepFindWidget { reverse, viewport: app.viewport() })
}

/// What flipping a switch of the widget asks for.
pub open spec fn toggle_effects(app: TuiApp, option: FindWidgetToggle) -> Seq<Effect> {
    if app.engine.find_widget.active {
        run_and_drain(AppCommand::ToggleFindWidgetOption(option))
    } else {
        nothing()
    }
}

/// Flips a switch of the widget while it is open.
pub fn toggle_option(app: &TuiApp, option: FindWidgetToggle) -> (r: Vec<Effect>)
    ensures
        r@ == toggle_effects(*app, option),
{
    if app.engine.find_widget.active {
        run_then_drain(AppCommand::ToggleFindWidgetOption(option))
    } else {
        none()
    }
}

/// What the widget makes of a key once its leader has had its say: a binding, or an
/// edit of the query.
pub open spec fn widget_key_effects(key: KeyEvent, app: TuiApp) -> (TuiApp, Seq<Effect>) {
    match resolved(InputScope::FindWidget, key) {
        Some(Command::Close) => (
            closed(app),
            run_only(AppCommand::CloseFindWidget { dark: app.theme.is_dark }),
        ),
        Some(Command::Quit) => (
            closed(app),
            run_only(AppCommand::CloseFindWidget { dark: app.theme.is_dark }),
        ),
        Some(Command::Confirm) => (
            app,
            if app.engine.find_widget.has_matches {
                step_effects(app, key.modifiers.shift)
            } else {
                nothing()
            },
        ),
        Some(Command::MoveDown) => (app, step_effects(app, false)),
        Some(Command::MoveUp) => (app, step_effects(app, true)),
        Some(Command::ToggleCase) => (app, toggle_effects(app, FindWidgetToggle::MatchCase)),
        Some(Command::ToggleWholeWord) => (app, toggle_effects(app, FindWidgetToggle::WholeWord)),
        Some(Command::ToggleRegex) => (app, toggle_effects(app, FindWidgetToggle::Regex)),
        _ => (
            app,
            match single_line_op(key) {
                Some(op) => run_and_drain(AppCommand::EditFindWidgetInput(op)),
                None => nothing(),
            },
        ),
    }
}

/// What the widget makes of a key. Space and then `f` closes it while the query is
/// empty; any other chord letter is typed.
pub open spec fn handle_key_spec(key: KeyEvent, app: TuiApp, now: Timestamp) -> (
    TuiApp,
    Seq<Effect>,
) {
    let leader = |at: Option<Timestamp>|
        TuiApp {
            find_widget_ui: FindWidgetUiState { space_leader_at: at, ..app.find_widget_ui },
            ..app
        };
    match leader_verdict(
        key,
        app.engine.find_widget.query_is_empty,
        app.find_widget_ui.space_leader_at,
        now,
        millis(LEADER_TIMEOUT_MILLIS as int),
    ) {
        LeaderVerdict::Arm => (leader(Some(now)), nothing()),
        LeaderVerdict::Fire => if key.code == KeyCode::Char('f') {
            (closed(app), run_only(AppCommand::CloseFindWidget { dark: app.theme.is_dark }))
        } else {
            widget_key_effects(key, leader(None))
        },
        LeaderVerdict::Consume => widget_key_effects(key, leader(None)),
        LeaderVerdict::Pass => widget_key_effects(key, app),
    }
}

/// Gives a key to the widget, which owns the keyboard while it is open.
pub fn handle_key(key: KeyEvent, app: &mut TuiApp, now: Timestamp) -> (r: Vec<Effect>)
    ensures
        *final(app) == handle_key_spec(key, *old(app), now).0,
        r@ == handle_key_spec(key, *old(app), now).1,
{
    match leader_decision(
        &key,
        app.engine.find_widget.query_is_empty,
        app.find_widget_ui.space_leader_at,
        now,
        Duration::from_millis(LEADER_TIMEOUT_MILLIS),
    ) {
        LeaderVerdict::Arm => {
            app.find_widget_ui.space_leader_at = Some(now);
            return none();
        },
        LeaderVerdict::Fire => {
            app.find_widget_ui.space_leader_at = None;
            if key.code == KeyCode::Char('f') && !key.modifiers.control && !key.modifiers.alt {
                return close(app);
            }
        },
        LeaderVerdict::Consume => {
            app.find_widget_ui.space_leader_at = None;
        },
        LeaderVerdict::Pass => {},
    }
    widget_key(key, app)
}

fn widget_key(key: KeyEvent, app: &mut TuiApp) -> (r: Vec<Effect>)
    ensures
        *final(app) == widget_key_effects(key, *old(app)).0,
        r@ == widget_key_effects(key, *old(app)).1,
{
    match Keymap::resolve(InputScope::FindWidget, &key) {
        Some(Command::Close) => close(app),
        Some(Command::Quit) => close(app),
        Some(Command::Confirm) => {
            if app.engine.find_widget.has_matches {
                step(app, key.modifiers.shift)
            } else {
                none()
            }
        },
        Some(Command::MoveDown) => step(app, false),
        Some(Command::MoveUp) => step(app, true),
        Some(Command::ToggleCase) => toggle_option(app, FindWidgetToggle::MatchCase),
        Some(Command::ToggleWholeWord) => toggle_option(app, FindWidgetToggle::WholeWord),
        Some(Command::ToggleRegex) => toggle_option(app, FindWidgetToggle::Regex),
        _ => match op_for_key(&key) {
            Some(op) => run_then_drain(AppCommand::EditFindWidgetInput(op)),
            None => none(),
        },
    }
}

/// What searching the widget's target again asks for.
pub open spec fn recompute_effects(app: TuiApp) -> Seq<Effect> {
    match app.engine.find_widget.target {
        Some(target) => run_only(
            AppCommand::RecomputeFindWidget {
                target,
                dark: app.theme.is_dark,
                viewport: app.viewport(),
            },
        ),
        None => nothing(),
    }
}

/// Searches the widget's target again, for the query and the switches it has now.
pub fn recompute(app: &TuiApp) -> (r: Vec<Effect>)
    ensures
        r@ == recompute_effects(*app),
{
    match app.engine.find_widget.target {
        Some(target) => run(
            AppCommand::RecomputeFindWidget {
                target,
                dark: app.theme.is_dark,
                viewport: app.viewport(),
            },
        ),
        None => none(),
    }
}

/// Pastes into the widget's query.
pub fn handle_paste(s: String) -> (r: Vec<Effect>)
    ensures
        r@ == run_and_drain(AppCommand::PasteFindWidgetInput(s)),
{
    run_then_drain(AppCommand::PasteFindWidgetInput(s))
}

} // verus!
