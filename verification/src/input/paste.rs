//! Where a pasted text goes.

use crate::app::TuiApp;
use crate::command::{
    join, none, nothing, run, run_and_drain, run_only, run_then_drain, AppCommand, Effect,
};
use crate::engine::{Panel, Tab};
use crate::find_widget;
use crate::global_search;
use crate::input::drops::{is_drop_of, parse_dropped_paths};
use crate::input::keys::{commit_input_focused, search_input_focused};
use crate::keymap::{keyboard_owner, scope_for_app, InputScope};
use crate::quick_open;
use crate::search;
use crate::text::views;
use crate::time::Timestamp;
use vstd::prelude::*;

verus! {

/// What entering place mode with dropped files asks for. A search that is typed is
/// called off.
pub open spec fn place_mode_entry(app: TuiApp, paths: Vec<String>) -> Seq<Effect> {
    (if app.engine.vim_search.active {
        run_only(AppCommand::CancelVimSearch { dark: app.theme.is_dark })
    } else {
        nothing()
    }) + run_and_drain(AppCommand::EnterPlaceMode(paths))
}

impl TuiApp {
    /// Lets dropped files wait for a destination.
    pub fn enter_place_mode(&self, sources: Vec<String>) -> (r: Vec<Effect>)
        ensures
            r@ == place_mode_entry(*self, sources),
    {
        let cancel = if self.engine.vim_search.active {
            search::exit_cancel(self)
        } else {
            none()
        };
        join(cancel, run_then_drain(AppCommand::EnterPlaceMode(sources)))
    }
}

/// What pasting into the text of the active tab asks for, where one is typed.
pub open spec fn tab_paste_effects(s: String, app: TuiApp, now: Timestamp) -> Seq<Effect> {
    if search_input_focused(app) {
        run_only(AppCommand::PasteGlobalSearchTab { text: s, now })
    } else if commit_input_focused(app) {
        run_only(AppCommand::PasteCommitMessage(s))
    } else {
        nothing()
    }
}

/// What a pasted text asks for that is no drop of files: it goes into the text that the
/// owner of the keyboard types, and nowhere if that owner types none.
pub open spec fn text_paste_effects(s: String, app: TuiApp, now: Timestamp) -> Seq<Effect> {
    match keyboard_owner(app) {
        InputScope::DbGoto => run_only(AppCommand::PasteDbGoto(s)),
        InputScope::HostsPicker => run_only(AppCommand::PasteHostsPicker(s)),
        InputScope::GraphBranchPicker => run_only(AppCommand::PasteGraphBranchPicker(s)),
        InputScope::FindWidget => run_and_drain(AppCommand::PasteFindWidgetInput(s)),
        InputScope::GlobalSearch => run_only(AppCommand::PasteGlobalSearchOverlay { text: s, now }),
        InputScope::QuickOpen => run_only(AppCommand::PasteQuickOpen(s)),
        InputScope::VimSearch => run_and_drain(AppCommand::PasteVimSearchInput(s)),
        InputScope::TreeEdit => run_only(AppCommand::PasteTreeEdit(s)),
        InputScope::Settings => if app.engine.settings.editing_editor_command {
            run_only(AppCommand::PasteSettingsEditorCommand(s))
        } else {
            nothing()
        },
        InputScope::Normal => tab_paste_effects(s, app, now),
        InputScope::CommitEditor => tab_paste_effects(s, app, now),
        InputScope::SearchInput => tab_paste_effects(s, app, now),
        InputScope::FocusedPreview => tab_paste_effects(s, app, now),
        InputScope::TreeContextMenu => nothing(),
        InputScope::NavCandidates => nothing(),
        InputScope::ConfirmModal => nothing(),
        InputScope::PasteConflict => nothing(),
        InputScope::PlaceMode => nothing(),
        InputScope::TreeDrag => nothing(),
    }
}

/// What a pasted text asks for, where `paths` are the files that it is a drop of.
pub open spec fn paste_effects(
    s: String,
    app: TuiApp,
    paths: Vec<String>,
    now: Timestamp,
) -> Seq<Effect> {
    if paths@.len() > 0 {
        place_mode_entry(app, paths)
    } else {
        text_paste_effects(s, app, now)
    }
}

fn paste_into_tab(s: String, app: &TuiApp, now: Timestamp) -> (r: Vec<Effect>)
    ensures
        r@ == tab_paste_effects(s, *app, now),
{
    let on_sidebar = app.engine.active_panel == Panel::Files;
    if app.engine.active_tab == Tab::Search && on_sidebar && app.engine.overlays.search_input {
        global_search::handle_paste_search_tab(s, now)
    } else if app.engine.active_tab == Tab::Git && on_sidebar && app.engine.commit_editing {
        run(AppCommand::PasteCommitMessage(s))
    } else {
        none()
    }
}

/// Routes a pasted text: files that it is a drop of wait for a destination, and anything
/// else goes into the text that is typed.
pub fn route_paste(s: String, app: &TuiApp, paths: Vec<String>, now: Timestamp) -> (r: Vec<Effect>)
    ensures
        r@ == paste_effects(s, *app, paths, now),
{
    if !paths.is_empty() {
        return app.enter_place_mode(paths);
    }
    match scope_for_app(app) {
        InputScope::DbGoto => run(AppCommand::PasteDbGoto(s)),
        InputScope::HostsPicker => run(AppCommand::PasteHostsPicker(s)),
        InputScope::GraphBranchPicker => run(AppCommand::PasteGraphBranchPicker(s)),
        InputScope::FindWidget => find_widget::handle_paste(s),
        InputScope::GlobalSearch => global_search::handle_paste_overlay(s, now),
        InputScope::QuickOpen => quick_open::handle_paste(s),
        InputScope::VimSearch => search::handle_paste(s),
        InputScope::TreeEdit => run(AppCommand::PasteTreeEdit(s)),
        InputScope::Settings => {
            if app.engine.settings.editing_editor_command {
                run(AppCommand::PasteSettingsEditorCommand(s))
            } else {
                none()
            }
        },
        InputScope::Normal
        | InputScope::CommitEditor
        | InputScope::SearchInput
        | InputScope::FocusedPreview => paste_into_tab(s, app, now),
        _ => none(),
    }
}

/// Takes a pasted text. Terminals paste the paths of files that are dropped on them, so
/// those are looked for first.
pub fn handle_paste(s: String, app: &TuiApp, now: Timestamp) -> (r: Vec<Effect>)
    ensures
        exists|paths: Vec<String>|
            is_drop_of(views(paths@), s@) && r@ == #[trigger] paste_effects(s, *app, paths, now),
{
    let paths = parse_dropped_paths(s.as_str());
    route_paste(s, app, paths, now)
}

/// A paste that is no drop goes where a key would: into the text that the owner of the
/// keyboard types, and into nothing else. Under an owner that takes keys but types no text
/// it is dropped, whatever may be typed behind it.
pub proof fn pastes_follow_the_keyboard(s: String, app: TuiApp, paths: Vec<String>, now: Timestamp)
    requires
        paths@.len() == 0,
    ensures
        paste_effects(s, app, paths, now) == (match keyboard_owner(app) {
            InputScope::TreeContextMenu => nothing(),
            InputScope::NavCandidates => nothing(),
            InputScope::ConfirmModal => nothing(),
            InputScope::PasteConflict => nothing(),
            InputScope::PlaceMode => nothing(),
            InputScope::TreeDrag => nothing(),
            InputScope::DbGoto => run_only(AppCommand::PasteDbGoto(s)),
            InputScope::HostsPicker => run_only(AppCommand::PasteHostsPicker(s)),
            InputScope::GraphBranchPicker => run_only(AppCommand::PasteGraphBranchPicker(s)),
            InputScope::FindWidget => run_and_drain(AppCommand::PasteFindWidgetInput(s)),
            InputScope::GlobalSearch => run_only(
                AppCommand::PasteGlobalSearchOverlay { text: s, now },
            ),
            InputScope::QuickOpen => run_only(AppCommand::PasteQuickOpen(s)),
            InputScope::VimSearch => run_and_drain(AppCommand::PasteVimSearchInput(s)),
            InputScope::TreeEdit => run_only(AppCommand::PasteTreeEdit(s)),
            InputScope::Settings => if app.engine.settings.editing_editor_command {
                run_only(AppCommand::PasteSettingsEditorCommand(s))
            } else {
                nothing()
            },
            _ => if search_input_focused(app) {
                run_only(AppCommand::PasteGlobalSearchTab { text: s, now })
            } else if commit_input_focused(app) {
                run_only(AppCommand::PasteCommitMessage(s))
            } else {
                nothing()
            },
        }),
{
}

/// Whether something is up that takes keys but types no text.
pub open spec fn modal_is_up(app: TuiApp) -> bool {
    let overlays = app.engine.overlays;
    overlays.tree_context_menu || app.engine.confirm is Some || overlays.paste_conflict
        || overlays.place_mode || overlays.tree_drag
}

/// Whether a text field that comes before any modal has the keyboard.
pub open spec fn field_is_up(app: TuiApp) -> bool {
    let overlays = app.engine.overlays;
    overlays.db_goto || overlays.hosts_picker || overlays.graph_branch_picker
        || app.engine.find_widget.active || overlays.global_search || overlays.quick_open
        || app.engine.vim_search.active || overlays.tree_edit
}

/// A modal swallows a paste that is no drop: it reaches neither the commit message nor the
/// search behind it. Only a text field that has the keyboard in spite of the modal gets it.
pub proof fn modals_swallow_pastes(s: String, app: TuiApp, paths: Vec<String>, now: Timestamp)
    requires
        paths@.len() == 0,
        modal_is_up(app),
        !field_is_up(app),
    ensures
        paste_effects(s, app, paths, now) == nothing(),
{
}

/// Dropped files wait for a destination whatever owns the keyboard.
pub proof fn drops_always_enter_place_mode(s: String, app: TuiApp, paths: Vec<String>, now: Timestamp)
    requires
        paths@.len() > 0,
    ensures
        paste_effects(s, app, paths, now) == place_mode_entry(app, paths),
{
}

} // verus!
