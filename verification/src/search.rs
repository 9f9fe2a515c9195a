//! The in-panel search.

use crate::app::TuiApp;
use crate::command::{
    none, nothing, run, run_and_drain, run_only, run_then_drain, AppCommand, Effect,
};
use crate::engine::SearchTarget;
use crate::event::KeyEvent;
use crate::input_edit::{op_for_key, single_line_op};
use crate::keymap::{resolved, Command, InputScope, Keymap};
use vstd::prelude::*;

verus! {

/// What a search begun now would look through: it depends on the focused panel, and on
/// the Graph tab on how many columns it shows.
#[verifier::allow_in_spec]
pub fn resolve_target(app: &TuiApp) -> Option<SearchTarget>
    returns
        (if app.graph_uses_three_col() {
            app.engine.vim_search.three_column_target
        } else {
            app.engine.vim_search.other_target
        }),
{
    if app.graph_uses_three_col() {
        app.engine.vim_search.three_column_target
    } else {
        app.engine.vim_search.other_target
    }
}

/// What beginning a search asks for, where the focused panel can be searched.
pub open spec fn begin_effects(app: TuiApp, backwards: bool) -> Seq<Effect> {
    match resolve_target(&app) {
        Some(target) => run_only(AppCommand::BeginVimSearch { target, backwards }),
        None => nothing(),
    }
}

/// Begins a search in the focused panel.
pub fn begin(app: &TuiApp, backwards: bool) -> (r: Vec<Effect>)
    ensures
        r@ == begin_effects(*app, backwards),
{
    match resolve_target(app) {
        Some(target) => run(AppCommand::BeginVimSearch { target, backwards }),
        None => none(),
    }
}

/// What the search prompt makes of a key.
pub open spec fn search_key_effects(key: KeyEvent, app: TuiApp) -> Seq<Effect> {
    match resolved(InputScope::VimSearch, key) {
        Some(Command::Close) => run_only(AppCommand::CancelVimSearch { dark: app.theme.is_dark }),
        Some(Command::Quit) => run_only(AppCommand::CancelVimSearch { dark: app.theme.is_dark }),
        Some(Command::Confirm) => run_only(AppCommand::ConfirmVimSearch),
        _ => match single_line_op(key) {
            Some(op) => run_and_drain(AppCommand::EditVimSearchInput(op)),
            None => nothing(),
        },
    }
}

/// Gives a key to the search prompt, which owns the keyboard while it is up.
pub fn handle_key_in_search_mode(key: KeyEvent, app: &TuiApp) -> (r: Vec<Effect>)
    ensures
        r@ == search_key_effects(key, *app),
{
    match Keymap::resolve(InputScope::VimSearch, &key) {
        Some(Command::Close) => exit_cancel(app),
        Some(Command::Quit) => exit_cancel(app),
        Some(Command::Confirm) => exit_confirm(),
        _ => match op_for_key(&key) {
            Some(op) => run_then_drain(AppCommand::EditVimSearchInput(op)),
            None => none(),
        },
    }
}

/// Keeps the match that was found and closes the prompt.
pub fn exit_confirm() -> (r: Vec<Effect>)
    ensures
        r@ == run_only(AppCommand::ConfirmVimSearch),
{
    run(AppCommand::ConfirmVimSearch)
}

/// Goes back to where the search began and closes the prompt.
pub fn exit_cancel(app: &TuiApp) -> (r: Vec<Effect>)
    ensures
        r@ == run_only(AppCommand::CancelVimSearch { dark: app.theme.is_dark }),
{
    run(AppCommand::CancelVimSearch { dark: app.theme.is_dark })
}

/// What moving to another match asks for.
pub open spec fn step_effects(app: TuiApp, reverse: bool) -> Seq<Effect> {
    run_only(
        AppCommand::StepVimSearch { reverse, dark: app.theme.is_dark, viewport: app.viewport() },
    )
}

/// Moves to the next match, or to the one before it.
pub fn step(app: &TuiApp, reverse: bool) -> (r: Vec<Effect>)
    ensures
        r@ == step_effects(*app, reverse),
{
    run(
        AppCommand::StepVimSearch { reverse, dark: app.theme.is_dark, viewport: app.viewport() },
    )
}

/// What searching the target again asks for.
pub open spec fn recompute_effects(app: TuiApp) -> Seq<Effect> {
    match app.engine.vim_search.target {
        Some(target) => run_only(
            AppCommand::RecomputeVimSearch {
                target,
                dark: app.theme.is_dark,
                viewport: app.viewport(),
            },
        ),
        None => nothing(),
    }
}

/// Searches the target again, for the query as it is now.
pub fn recompute_and_jump(app: &TuiApp) -> (r: Vec<Effect>)
    ensures
        r@ == recompute_effects(*app),
{
    match app.engine.vim_search.target {
        Some(target) => run(
            AppCommand::RecomputeVimSearch {
                target,
                dark: app.theme.is_dark,
                viewport: app.viewport(),
            },
        ),
        None => none(),
    }
}

/// Pastes into the search prompt.
pub fn handle_paste(s: String) -> (r: Vec<Effect>)
    ensures
        r@ == run_and_drain(AppCommand::PasteVimSearchInput(s)),
{
    run_then_drain(AppCommand::PasteVimSearchInput(s))
}

} // verus!
