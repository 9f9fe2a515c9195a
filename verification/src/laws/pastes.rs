//! Which text a paste goes into.

use crate::app::TuiApp;
use crate::command::{AppCommand, Effect, Resume};
use crate::engine::{Panel, Tab};
use crate::input::paste::paste_effects;
use crate::keymap::{keyboard_owner, InputScope};
use crate::time::Timestamp;
use vstd::prelude::*;

verus! {

/// A paste that is no drop of files goes into the text that the owner of the keyboard types.
pub proof fn pastes_go_into_the_text_that_is_typed(
    s: String,
    app: TuiApp,
    paths: Vec<String>,
    now: Timestamp,
)
    requires
        paths@.len() == 0,
    ensures
        ({
            let owner = keyboard_owner(app);
            let asked = paste_effects(s, app, paths, now);
            &&& owner == InputScope::DbGoto ==> asked == seq![
                Effect::Run(AppCommand::PasteDbGoto(s)),
            ]
            &&& owner == InputScope::HostsPicker ==> asked == seq![
                Effect::Run(AppCommand::PasteHostsPicker(s)),
            ]
            &&& owner == InputScope::GraphBranchPicker ==> asked == seq![
                Effect::Run(AppCommand::PasteGraphBranchPicker(s)),
            ]
            &&& owner == InputScope::FindWidget ==> asked == seq![
                Effect::Run(AppCommand::PasteFindWidgetInput(s)),
                Effect::Then(Resume::RuntimeEvents),
            ]
            &&& owner == InputScope::GlobalSearch ==> asked == seq![
                Effect::Run(AppCommand::PasteGlobalSearchOverlay { text: s, now }),
            ]
            &&& owner == InputScope::QuickOpen ==> asked == seq![
                Effect::Run(AppCommand::PasteQuickOpen(s)),
            ]
            &&& owner == InputScope::VimSearch ==> asked == seq![
                Effect::Run(AppCommand::PasteVimSearchInput(s)),
                Effect::Then(Resume::RuntimeEvents),
            ]
            &&& owner == InputScope::TreeEdit ==> asked == seq![
                Effect::Run(AppCommand::PasteTreeEdit(s)),
            ]
            &&& owner == InputScope::Settings ==> asked == (
            if app.engine.settings.editing_editor_command {
                seq![Effect::Run(AppCommand::PasteSettingsEditorCommand(s))]
            } else {
                Seq::<Effect>::empty()
            })
        }),
{
}

/// Where a tab has the keyboard, a paste goes into its search or its commit message while one
/// is typed, and nowhere otherwise.
pub proof fn pastes_go_into_the_field_of_the_tab(
    s: String,
    app: TuiApp,
    paths: Vec<String>,
    now: Timestamp,
)
    requires
        paths@.len() == 0,
        ({
            let owner = keyboard_owner(app);
            owner == InputScope::Normal || owner == InputScope::CommitEditor || owner
                == InputScope::SearchInput || owner == InputScope::FocusedPreview
        }),
    ensures
        ({
            let on_list = app.engine.active_panel == Panel::Files;
            let asked = paste_effects(s, app, paths, now);
            let searching = app.engine.active_tab == Tab::Search && on_list
                && app.engine.overlays.search_input;
            let writing = app.engine.active_tab == Tab::Git && on_list && app.engine.commit_editing;
            &&& searching ==> asked == seq![
                Effect::Run(AppCommand::PasteGlobalSearchTab { text: s, now }),
            ]
            &&& writing ==> asked == seq![Effect::Run(AppCommand::PasteCommitMessage(s))]
            &&& !searching && !writing ==> asked.len() == 0
        }),
{
}

/// Dropped files wait for a folder, and a search that is typed is called off first.
pub proof fn drops_wait_for_a_folder(s: String, app: TuiApp, paths: Vec<String>, now: Timestamp)
    requires
        paths@.len() > 0,
    ensures
        ({
            let asked = paste_effects(s, app, paths, now);
            &&& !app.engine.vim_search.active ==> asked == seq![
                Effect::Run(AppCommand::EnterPlaceMode(paths)),
                Effect::Then(Resume::RuntimeEvents),
            ]
            &&& app.engine.vim_search.active ==> asked == seq![
                Effect::Run(AppCommand::CancelVimSearch { dark: app.theme.is_dark }),
                Effect::Run(AppCommand::EnterPlaceMode(paths)),
                Effect::Then(Resume::RuntimeEvents),
            ]
        }),
{
    let asked = paste_effects(s, app, paths, now);
    if app.engine.vim_search.active {
        assert(asked =~= seq![
            Effect::Run(AppCommand::CancelVimSearch { dark: app.theme.is_dark }),
            Effect::Run(AppCommand::EnterPlaceMode(paths)),
            Effect::Then(Resume::RuntimeEvents),
        ]);
    } else {
        assert(asked =~= seq![
            Effect::Run(AppCommand::EnterPlaceMode(paths)),
            Effect::Then(Resume::RuntimeEvents),
        ]);
    }
}

} // verus!
