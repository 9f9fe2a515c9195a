//! What a key does: the overlays' owners first, then chords, then the keymap, then the
//! tab.

use crate::app::TuiApp;
use crate::command::{
    join, none, nothing, one, run, run_and_drain, run_only, run_then_drain, two, AppCommand,
    Effect, NavAnchor, Resume,
};
use crate::engine::{Panel, SearchPanelFocus, Tab};
use crate::event::{KeyCode, KeyEvent};
use crate::find_widget;
use crate::global_search;
use crate::input::files::{files_key_effects, handle_key_files};
use crate::input::focused_preview::{focused_preview_spec, handle_key_focused_preview};
use crate::input::git::{git_key_spec, handle_key_git};
use crate::input::graph::{graph_key_effects, handle_key_graph};
use crate::input::leader::{
    is_bare_space, is_fresh, leader_decision, leader_verdict, still_waits, LeaderVerdict,
    G_CHORD_TIMEOUT_MILLIS, LEADER_TIMEOUT_MILLIS,
};
use crate::input::overlays;
use crate::input::search_tab::{handle_key_search, search_tab_effects};
use crate::input_edit::TextEditOp;
use crate::keymap::{
    control_c, control_c_is_quit_nearly_everywhere, keyboard_owner, lemma_chord_unbound, resolved,
    resolved_chord, scope_for_app, text_fields_bind_no_plain_character, Command, InputScope,
    Keymap,
};
use crate::quick_open;
use crate::search;
use crate::time::{Duration, Timestamp};
use vstd::prelude::*;

verus! {

/// What a command does where a text is typed, or nothing where it is left to the text.
pub fn dispatch_input_scope_command(command: Command) -> (r: Option<Vec<Effect>>)
    ensures
        match r {
            Some(effects) => command == Command::Quit && effects@ == run_only(AppCommand::Quit),
            None => command != Command::Quit,
        },
{
    match command {
        Command::Quit => Some(run(AppCommand::Quit)),
        _ => None,
    }
}

/// Whether the Git tab waits for a yes or no, so that `n` keeps that meaning.
#[verifier::allow_in_spec]
pub fn has_pending_confirm(app: &TuiApp) -> bool
    returns
        app.engine.git_confirm_prompt,
{
    app.engine.git_confirm_prompt
}

/// The tab after this one, in the order of the tab bar and round its end.
pub open spec fn tab_after(tab: Tab) -> Tab {
    match tab {
        Tab::Files => Tab::Search,
        Tab::Search => Tab::Git,
        Tab::Git => Tab::Graph,
        Tab::Graph => Tab::Files,
    }
}

/// The tab that a command means: the next one, or the one at a position of the tab bar.
pub open spec fn wanted_tab(active: Tab, idx: usize) -> Option<Tab> {
    if idx == usize::MAX {
        Some(tab_after(active))
    } else if idx < 4 {
        Some(Tab::ALL[idx as int])
    } else {
        None
    }
}

/// The tab that a command means.
pub fn target_tab(active: Tab, idx: usize) -> (r: Option<Tab>)
    ensures
        r == wanted_tab(active, idx),
{
    let tabs: [Tab; 4] = Tab::ALL;
    if idx == usize::MAX {
        let mut cur: usize = 0;
        while cur < 4 && tabs[cur] != active
            invariant
                cur <= 4,
                tabs == Tab::ALL,
                forall|k: int| 0 <= k < cur ==> tabs[k] != active,
            decreases 4 - cur,
        {
            cur += 1;
        }
        proof {
            assert(tabs[0] == Tab::Files && tabs[1] == Tab::Search && tabs[2] == Tab::Git && tabs[3]
                == Tab::Graph);
            assert(cur < 4);
        }
        Some(tabs[(cur + 1) % 4])
    } else if idx < 4 {
        Some(tabs[idx])
    } else {
        None
    }
}

/// What switching to a tab asks for. The search belongs to the tab that is left.
pub open spec fn switch_tab_effects(app: TuiApp, tab: Tab) -> Seq<Effect> {
    (if app.engine.active_tab != tab {
        run_only(AppCommand::ClearVimSearch)
    } else {
        nothing()
    }) + run_and_drain(AppCommand::SetActiveTab(tab))
}

/// What moving the focus to another column asks for.
pub open spec fn cycle_panel_effects(app: TuiApp, reverse: bool) -> Seq<Effect> {
    seq![
        Effect::Run(
            AppCommand::CyclePanel { reverse, uses_three_col: app.graph_uses_three_col() },
        ),
        Effect::Run(AppCommand::ClearVimSearch),
    ]
}

/// What a command of the keymap does, or nothing where the key is left to the tab.
pub open spec fn command_effects(
    command: Command,
    app: TuiApp,
    search_input_focused: bool,
) -> Option<Seq<Effect>> {
    let can_step = app.engine.vim_search.can_step && !has_pending_confirm(&app);
    match command {
        Command::Quit => Some(run_only(AppCommand::Quit)),
        Command::OpenHelp => Some(run_only(AppCommand::OpenHelp)),
        Command::ToggleSidebar => Some(run_and_drain(AppCommand::ToggleSidebar)),
        Command::OpenSettings => Some(app.open_settings_effects()),
        Command::OpenHostsPicker => Some(seq![Effect::OpenHostsPicker]),
        Command::LocationBack => Some(seq![Effect::LocationBack]),
        Command::LocationForward => Some(seq![Effect::LocationForward]),
        Command::BeginSearchForward => Some(
            if app.engine.active_tab == Tab::Search && app.engine.active_panel == Panel::Files {
                run_only(AppCommand::FocusGlobalSearchFindInput)
            } else {
                search::begin_effects(app, false)
            },
        ),
        Command::BeginSearchBackward => Some(search::begin_effects(app, true)),
        Command::NextSearchMatch => if can_step {
            Some(search::step_effects(app, false))
        } else {
            None
        },
        Command::PrevSearchMatch => if can_step {
            Some(search::step_effects(app, true))
        } else {
            None
        },
        Command::SwitchTab(idx) => match wanted_tab(app.engine.active_tab, idx) {
            Some(tab) => Some(switch_tab_effects(app, tab)),
            None => None,
        },
        Command::CyclePanelForward => if search_input_focused {
            None
        } else {
            Some(cycle_panel_effects(app, false))
        },
        Command::CyclePanelBackward => if search_input_focused {
            None
        } else {
            Some(cycle_panel_effects(app, true))
        },
        _ => None,
    }
}

fn cycle_panel(app: &TuiApp, reverse: bool) -> (r: Vec<Effect>)
    ensures
        r@ == cycle_panel_effects(*app, reverse),
{
    two(
        Effect::Run(
            AppCommand::CyclePanel { reverse, uses_three_col: app.graph_uses_three_col() },
        ),
        Effect::Run(AppCommand::ClearVimSearch),
    )
}

fn switch_tab(app: &TuiApp, tab: Tab) -> (r: Vec<Effect>)
    ensures
        r@ == switch_tab_effects(*app, tab),
{
    let first = if app.engine.active_tab != tab {
        run(AppCommand::ClearVimSearch)
    } else {
        none()
    };
    join(first, app.set_active_tab(tab))
}

/// Does what a command of the keymap asks for. The result is nothing where the key is
/// left to the tab.
pub fn dispatch_keymap_command(command: Command, app: &TuiApp, search_input_focused: bool) -> (r:
    Option<Vec<Effect>>)
    ensures
        match r {
            Some(effects) => command_effects(command, *app, search_input_focused) == Some(
                effects@,
            ),
            None => command_effects(command, *app, search_input_focused) is None,
        },
{
    let can_step = app.engine.vim_search.can_step && !has_pending_confirm(app);
    match command {
        Command::Quit => Some(app.quit()),
        Command::OpenHelp => Some(app.open_help()),
        Command::ToggleSidebar => Some(app.toggle_sidebar()),
        Command::OpenSettings => Some(app.open_settings()),
        Command::OpenHostsPicker => Some(one(Effect::OpenHostsPicker)),
        Command::LocationBack => Some(one(Effect::LocationBack)),
        Command::LocationForward => Some(one(Effect::LocationForward)),
        Command::BeginSearchForward => {
            if app.engine.active_tab == Tab::Search && app.engine.active_panel == Panel::Files {
                Some(run(AppCommand::FocusGlobalSearchFindInput))
            } else {
                Some(search::begin(app, false))
            }
        },
        Command::BeginSearchBackward => Some(search::begin(app, true)),
        Command::NextSearchMatch if can_step => Some(search::step(app, false)),
        Command::PrevSearchMatch if can_step => Some(search::step(app, true)),
        Command::SwitchTab(idx) => match target_tab(app.engine.active_tab, idx) {
            Some(tab) => Some(switch_tab(app, tab)),
            None => None,
        },
        Command::CyclePanelForward if !search_input_focused => Some(cycle_panel(app, false)),
        Command::CyclePanelBackward if !search_input_focused => Some(cycle_panel(app, true)),
        _ => None,
    }
}

/// Whether the Search tab's query or replacement is typed.
pub open spec fn search_input_focused(app: TuiApp) -> bool {
    app.engine.active_tab == Tab::Search && app.engine.active_panel == Panel::Files
        && app.engine.overlays.search_input
}

/// Whether the Git tab's commit message is typed.
pub open spec fn commit_input_focused(app: TuiApp) -> bool {
    app.engine.active_tab == Tab::Git && app.engine.active_panel == Panel::Files
        && app.engine.commit_editing
}

/// Whether a text is typed on the active tab.
pub open spec fn in_input_mode(app: TuiApp) -> bool {
    search_input_focused(app) || commit_input_focused(app)
}

/// Whether Space begins a chord. In a text it does so only while the text is empty, and
/// not in the list of replacements, where it ticks a row.
pub open spec fn leader_allowed(app: TuiApp) -> bool {
    if search_input_focused(app) {
        app.engine.global_search.query_is_empty
    } else if commit_input_focused(app) {
        app.engine.commit_message_is_empty
    } else {
        !(app.engine.active_tab == Tab::Search && app.engine.active_panel == Panel::Files
            && app.engine.global_search.replace_open)
    }
}

/// Whether `g` and `G` are left to what is on screen: a text, an overlay or a database.
pub open spec fn g_is_literal(app: TuiApp) -> bool {
    let overlays = app.engine.overlays;
    in_input_mode(app) || app.engine.vim_search.active || app.engine.find_widget.active
        || overlays.global_search || overlays.quick_open || overlays.hosts_picker
        || overlays.graph_branch_picker || overlays.tree_edit || overlays.db_goto
        || app.is_sqlite_preview()
}

fn is_search_input_focused(app: &TuiApp) -> (r: bool)
    ensures
        r == search_input_focused(*app),
{
    app.engine.active_tab == Tab::Search && app.engine.active_panel == Panel::Files
        && app.engine.overlays.search_input
}

fn is_commit_input_focused(app: &TuiApp) -> (r: bool)
    ensures
        r == commit_input_focused(*app),
{
    app.engine.active_tab == Tab::Git && app.engine.active_panel == Panel::Files
        && app.engine.commit_editing
}

fn is_leader_allowed(app: &TuiApp) -> (r: bool)
    ensures
        r == leader_allowed(*app),
{
    if is_search_input_focused(app) {
        app.engine.global_search.query_is_empty
    } else if is_commit_input_focused(app) {
        app.engine.commit_message_is_empty
    } else {
        !(app.engine.active_tab == Tab::Search && app.engine.active_panel == Panel::Files
            && app.engine.global_search.replace_open)
    }
}

fn takes_g_literally(app: &TuiApp) -> (r: bool)
    ensures
        r == g_is_literal(*app),
{
    let overlays = app.engine.overlays;
    is_search_input_focused(app) || is_commit_input_focused(app) || app.engine.vim_search.active
        || app.engine.find_widget.active || overlays.global_search || overlays.quick_open
        || overlays.hosts_picker || overlays.graph_branch_picker || overlays.tree_edit
        || overlays.db_goto || app.is_sqlite_preview()
}

/// What a Space chord does. Whatever palette is open closes first.
pub open spec fn chord_spec(key: KeyEvent, app: TuiApp, selected_text: Option<String>) -> (
    TuiApp,
    Seq<Effect>,
) {
    let close = run_only(AppCommand::CloseActivePalettes);
    let disarmed = TuiApp { space_leader_at: None, ..app };
    match resolved_chord(InputScope::Normal, KeyCode::Char(' '), key) {
        Some(Command::OpenQuickOpen) => (
            quick_open::without_leader(disarmed),
            close + run_only(AppCommand::OpenQuickOpen),
        ),
        Some(Command::OpenFindWidget) => (
            disarmed,
            close + find_widget::begin_selection_effects(disarmed, selected_text),
        ),
        Some(Command::OpenGlobalSearch) => (
            global_search::without_leader(disarmed),
            close + run_only(AppCommand::OpenGlobalSearch { seed: selected_text }),
        ),
        Some(Command::OpenGlobalReplace) => (
            disarmed,
            close + run_and_drain(AppCommand::OpenGlobalReplaceTab),
        ),
        Some(Command::ToggleFocusedPreview) => (
            TuiApp { g_pending_at: None, ..disarmed },
            close + run_only(
                AppCommand::ToggleFocusedPreview { uses_three_col: app.graph_uses_three_col() },
            ),
        ),
        _ => (disarmed, close),
    }
}

fn fire_chord(key: KeyEvent, app: &mut TuiApp, selected_text: Option<String>) -> (r: Vec<Effect>)
    ensures
        *final(app) == chord_spec(key, *old(app), selected_text).0,
        r@ == chord_spec(key, *old(app), selected_text).1,
{
    app.space_leader_at = None;
    let close = run(AppCommand::CloseActivePalettes);
    let effects = match Keymap::resolve_chord(InputScope::Normal, KeyCode::Char(' '), &key) {
        Some(Command::OpenQuickOpen) => quick_open::begin(app),
        Some(Command::OpenFindWidget) => find_widget::begin_with_selection(app, selected_text),
        Some(Command::OpenGlobalSearch) => global_search::begin(app, selected_text),
        Some(Command::OpenGlobalReplace) => run_then_drain(AppCommand::OpenGlobalReplaceTab),
        Some(Command::ToggleFocusedPreview) => {
            app.clear_input_chords();
            run(AppCommand::ToggleFocusedPreview { uses_three_col: app.graph_uses_three_col() })
        },
        _ => none(),
    };
    join(close, effects)
}

/// What a key does once no chord has taken it: the keymap's global commands, then
/// Escape's way back, then the tab.
pub open spec fn tab_key_spec(key: KeyEvent, app: TuiApp, now: Timestamp) -> (TuiApp, Seq<Effect>) {
    let global = if in_input_mode(app) {
        None
    } else {
        match resolved(InputScope::Normal, key) {
            Some(command) => command_effects(command, app, search_input_focused(app)),
            None => None,
        }
    };
    let vim = app.engine.vim_search;
    if global is Some {
        (app, global->0)
    } else if key.code == KeyCode::Esc && vim.has_matches && search::resolve_target(&app) == vim.target {
        (app, run_only(AppCommand::ClearVimSearch))
    } else if key.code == KeyCode::Esc && app.engine.active_panel != Panel::Files {
        (
            app,
            seq![
                Effect::Run(AppCommand::SetActivePanel(Panel::Files)),
                Effect::Run(AppCommand::ClearVimSearch),
            ],
        )
    } else {
        match app.engine.active_tab {
            Tab::Git => git_key_spec(key, app),
            Tab::Files => (app, files_key_effects(key, app)),
            Tab::Search => (app, search_tab_effects(key, app, now)),
            Tab::Graph => (app, graph_key_effects(key, app)),
        }
    }
}

fn give_to_tab(key: KeyEvent, app: &mut TuiApp, now: Timestamp) -> (r: Vec<Effect>)
    ensures
        *final(app) == tab_key_spec(key, *old(app), now).0,
        r@ == tab_key_spec(key, *old(app), now).1,
{
    let searching = is_search_input_focused(app);
    if !searching && !is_commit_input_focused(app) {
        if let Some(command) = Keymap::resolve(InputScope::Normal, &key) {
            if let Some(effects) = dispatch_keymap_command(command, app, searching) {
                return effects;
            }
        }
    }
    if key.code == KeyCode::Esc {
        let vim = app.engine.vim_search;
        if vim.has_matches && same_target(search::resolve_target(app), vim.target) {
            return run(AppCommand::ClearVimSearch);
        }
        if app.engine.active_panel != Panel::Files {
            return two(
                Effect::Run(AppCommand::SetActivePanel(Panel::Files)),
                Effect::Run(AppCommand::ClearVimSearch),
            );
        }
    }
    match app.engine.active_tab {
        Tab::Git => handle_key_git(key, app),
        Tab::Files => handle_key_files(key, app),
        Tab::Search => handle_key_search(key, app, now),
        Tab::Graph => handle_key_graph(key, app),
    }
}

fn same_target(
    a: Option<crate::engine::SearchTarget>,
    b: Option<crate::engine::SearchTarget>,
) -> (r: bool)
    ensures
        r == (a == b),
{
    match (a, b) {
        (Some(x), Some(y)) => x == y,
        (None, None) => true,
        _ => false,
    }
}

/// Whether the diff has the focus, so that a jump starts from its text.
pub open spec fn nav_in_diff(app: TuiApp) -> bool {
    (app.engine.active_tab == Tab::Git || app.engine.active_tab == Tab::Graph)
        && app.engine.active_panel == Panel::Diff
}

/// What a key does once the Space leader is done with it: `gg`, `G`, `gd` and `gr`.
pub open spec fn g_key_spec(key: KeyEvent, app: TuiApp, now: Timestamp) -> (TuiApp, Seq<Effect>) {
    let unmodified = !key.modifiers.control && !key.modifiers.alt;
    let dropped = TuiApp { g_pending_at: None, ..app };
    let top = app.jump_effects((-crate::app::NAV_FAR) as i32, 0);
    let fresh = match app.g_pending_at {
        Some(t) => is_fresh(t, now, G_CHORD_TIMEOUT_MILLIS as int),
        None => false,
    };
    if g_is_literal(app) {
        tab_key_spec(key, app, now)
    } else if key.code == KeyCode::Char('G') && unmodified {
        (dropped, app.jump_effects(crate::app::NAV_FAR, usize::MAX))
    } else if key.code == KeyCode::Char('g') && unmodified && !key.modifiers.shift {
        if fresh {
            (dropped, top)
        } else {
            (TuiApp { g_pending_at: Some(now), ..app }, nothing())
        }
    } else if fresh {
        match resolved_chord(InputScope::Normal, KeyCode::Char('g'), key) {
            Some(Command::ScrollTop) => (dropped, top),
            Some(Command::GotoDefinition) => (
                dropped,
                seq![
                    Effect::GotoDefinition {
                        in_diff: nav_in_diff(app),
                        anchor: NavAnchor::Keyboard,
                    },
                ],
            ),
            Some(Command::FindReferences) => (
                dropped,
                seq![
                    Effect::FindReferences {
                        in_diff: nav_in_diff(app),
                        anchor: NavAnchor::Keyboard,
                    },
                ],
            ),
            _ => tab_key_spec(key, dropped, now),
        }
    } else {
        tab_key_spec(key, dropped, now)
    }
}

fn is_nav_in_diff(app: &TuiApp) -> (r: bool)
    ensures
        r == nav_in_diff(*app),
{
    (app.engine.active_tab == Tab::Git || app.engine.active_tab == Tab::Graph)
        && app.engine.active_panel == Panel::Diff
}

fn give_to_g_chord(key: KeyEvent, app: &mut TuiApp, now: Timestamp) -> (r: Vec<Effect>)
    ensures
        *final(app) == g_key_spec(key, *old(app), now).0,
        r@ == g_key_spec(key, *old(app), now).1,
{
    if takes_g_literally(app) {
        return give_to_tab(key, app, now);
    }
    let unmodified = !key.modifiers.control && !key.modifiers.alt;
    if key.code == KeyCode::Char('G') && unmodified {
        let effects = app.scroll_active_preview_to_bottom();
        app.clear_g_chord();
        return effects;
    }
    let fresh = match app.g_pending_at {
        Some(t) => still_waits(t, now, G_CHORD_TIMEOUT_MILLIS),
        None => false,
    };
    if key.code == KeyCode::Char('g') && unmodified && !key.modifiers.shift {
        if fresh {
            let effects = app.scroll_active_preview_to_top();
            app.clear_g_chord();
            return effects;
        }
        app.g_pending_at = Some(now);
        return none();
    }
    if fresh {
        let in_diff = is_nav_in_diff(app);
        match Keymap::resolve_chord(InputScope::Normal, KeyCode::Char('g'), &key) {
            Some(Command::ScrollTop) => {
                let effects = app.scroll_active_preview_to_top();
                app.clear_g_chord();
                return effects;
            },
            Some(Command::GotoDefinition) => {
                app.clear_g_chord();
                return one(Effect::GotoDefinition { in_diff, anchor: NavAnchor::Keyboard });
            },
            Some(Command::FindReferences) => {
                app.clear_g_chord();
                return one(Effect::FindReferences { in_diff, anchor: NavAnchor::Keyboard });
            },
            _ => {},
        }
    }
    app.clear_g_chord();
    give_to_tab(key, app, now)
}

/// What a key does once no overlay has taken it.
pub open spec fn normal_key_spec(
    key: KeyEvent,
    app: TuiApp,
    now: Timestamp,
    selected_text: Option<String>,
) -> (TuiApp, Seq<Effect>) {
    let verdict = leader_verdict(
        key,
        leader_allowed(app),
        app.space_leader_at,
        now,
        crate::time::millis(LEADER_TIMEOUT_MILLIS as int),
    );
    if in_input_mode(app) && resolved(keyboard_owner(app), key) == Some(Command::Quit) {
        (app, run_only(AppCommand::Quit))
    } else {
        match verdict {
            LeaderVerdict::Arm => (TuiApp { space_leader_at: Some(now), ..app }, nothing()),
            LeaderVerdict::Fire => chord_spec(key, app, selected_text),
            LeaderVerdict::Consume => g_key_spec(
                key,
                TuiApp { space_leader_at: None, ..app },
                now,
            ),
            LeaderVerdict::Pass => g_key_spec(key, app, now),
        }
    }
}

fn give_to_leader(
    key: KeyEvent,
    app: &mut TuiApp,
    now: Timestamp,
    selected_text: Option<String>,
    scope: InputScope,
) -> (r: Vec<Effect>)
    requires
        scope == keyboard_owner(*old(app)),
    ensures
        *final(app) == normal_key_spec(key, *old(app), now, selected_text).0,
        r@ == normal_key_spec(key, *old(app), now, selected_text).1,
{
    if is_search_input_focused(app) || is_commit_input_focused(app) {
        if let Some(command) = Keymap::resolve(scope, &key) {
            if let Some(effects) = dispatch_input_scope_command(command) {
                return effects;
            }
        }
    }
    match leader_decision(
        &key,
        is_leader_allowed(app),
        app.space_leader_at,
        now,
        Duration::from_millis(LEADER_TIMEOUT_MILLIS),
    ) {
        LeaderVerdict::Arm => {
            app.space_leader_at = Some(now);
            none()
        },
        LeaderVerdict::Fire => fire_chord(key, app, selected_text),
        LeaderVerdict::Consume => {
            app.space_leader_at = None;
            give_to_g_chord(key, app, now)
        },
        LeaderVerdict::Pass => give_to_g_chord(key, app, now),
    }
}

/// What a key does, given what of the preview or diff is selected.
pub open spec fn key_spec(
    key: KeyEvent,
    app: TuiApp,
    now: Timestamp,
    selected_text: Option<String>,
) -> (TuiApp, Seq<Effect>) {
    match keyboard_owner(app) {
        InputScope::DbGoto => (app, overlays::db_goto_effects(key)),
        InputScope::HostsPicker => (
            app,
            overlays::hosts_picker_effects(key, app.engine.hosts_picker_mode),
        ),
        InputScope::GraphBranchPicker => (app, overlays::branch_picker_effects(key)),
        InputScope::FindWidget => find_widget::handle_key_spec(key, app, now),
        InputScope::GlobalSearch => global_search::handle_key_spec(key, app, now),
        InputScope::QuickOpen => quick_open::handle_key_spec(key, app, now),
        InputScope::VimSearch => (app, search::search_key_effects(key, app)),
        InputScope::TreeEdit => (app, overlays::tree_edit_effects(key)),
        InputScope::TreeContextMenu => (app, overlays::context_menu_effects(key, app)),
        InputScope::NavCandidates => (app, overlays::nav_candidates_effects(key)),
        InputScope::ConfirmModal => (app, overlays::confirm_key_effects(key, app)),
        InputScope::PasteConflict => (app, overlays::paste_conflict_effects(key, app)),
        InputScope::PlaceMode => (app, overlays::place_mode_effects(key)),
        InputScope::TreeDrag => (app, overlays::tree_drag_key_effects(key)),
        InputScope::Settings => overlays::settings_key_spec(key, app),
        InputScope::FocusedPreview => match focused_preview_spec(key, app, now) {
            Some(result) => result,
            None => normal_key_spec(key, app, now, selected_text),
        },
        _ => normal_key_spec(key, app, now, selected_text),
    }
}

/// Gives a key to whoever owns the keyboard. `selected_text` is the first line of what
/// is selected in the content panel, if anything is.
pub fn handle_key(
    key: KeyEvent,
    app: &mut TuiApp,
    now: Timestamp,
    selected_text: Option<String>,
) -> (r: Vec<Effect>)
    ensures
        *final(app) == key_spec(key, *old(app), now, selected_text).0,
        r@ == key_spec(key, *old(app), now, selected_text).1,
{
    let scope = scope_for_app(app);
    match scope {
        InputScope::DbGoto => overlays::handle_key_db_goto(key),
        InputScope::HostsPicker => overlays::handle_key_hosts_picker(key, app),
        InputScope::GraphBranchPicker => overlays::handle_key_graph_branch_picker(key),
        InputScope::FindWidget => find_widget::handle_key(key, app, now),
        InputScope::GlobalSearch => global_search::handle_key(key, app, now),
        InputScope::QuickOpen => quick_open::handle_key(key, app, now),
        InputScope::VimSearch => search::handle_key_in_search_mode(key, app),
        InputScope::TreeEdit => overlays::handle_key_tree_edit(key),
        InputScope::TreeContextMenu => overlays::handle_key_tree_context_menu(key, app),
        InputScope::NavCandidates => overlays::handle_key_nav_candidates(key),
        InputScope::ConfirmModal => overlays::handle_key_confirm_modal(key, app),
        InputScope::PasteConflict => overlays::handle_key_paste_conflict(key, app),
        InputScope::PlaceMode => overlays::handle_key_place_mode(key),
        InputScope::TreeDrag => overlays::handle_key_tree_drag(key),
        InputScope::Settings => overlays::handle_key_settings(key, app),
        InputScope::FocusedPreview => {
            match handle_key_focused_preview(key, app, now) {
                Some(effects) => effects,
                None => give_to_leader(key, app, now, selected_text, scope),
            }
        },
        _ => give_to_leader(key, app, now, selected_text, scope),
    }
}

/// Whether no prompt, picker or menu is up that answers Control+C in its own way.
pub open spec fn control_c_is_free(app: TuiApp) -> bool {
    match keyboard_owner(app) {
        InputScope::Normal => true,
        InputScope::CommitEditor => true,
        InputScope::SearchInput => true,
        InputScope::FocusedPreview => true,
        InputScope::Settings => !app.engine.settings.editing_editor_command,
        InputScope::PlaceMode => true,
        InputScope::TreeDrag => true,
        InputScope::ConfirmModal => true,
        InputScope::PasteConflict => true,
        _ => false,
    }
}

/// Control+C quits: from the tabs and their texts, from the settings, and out of
/// anything that waits for the user's word.
pub proof fn control_c_quits(app: TuiApp, now: Timestamp, selected_text: Option<String>)
    requires
        control_c_is_free(app),
    ensures
        key_spec(control_c(), app, now, selected_text).1 == run_only(AppCommand::Quit),
{
    control_c_is_quit_nearly_everywhere(keyboard_owner(app));
    control_c_is_quit_nearly_everywhere(InputScope::Normal);
    lemma_chord_unbound(InputScope::Normal, KeyCode::Char('g'), control_c());
}

/// A plain character typed into the commit message or into the Search tab's inputs ends
/// up there, whatever else it is bound to; a carriage return is dropped from the commit
/// message. A leader that waits has to be done first, and
/// Space begins one only while there is no text to put it into.
pub proof fn typed_characters_stay_in_the_text(
    key: KeyEvent,
    c: char,
    app: TuiApp,
    now: Timestamp,
    selected_text: Option<String>,
)
    requires
        key.code == KeyCode::Char(c),
        !key.modifiers.control,
        !key.modifiers.alt,
        app.space_leader_at is None,
        !(is_bare_space(key) && leader_allowed(app)),
        keyboard_owner(app) == InputScope::CommitEditor && commit_input_focused(app)
            || keyboard_owner(app) == InputScope::SearchInput && search_input_focused(app),
    ensures
        key_spec(key, app, now, selected_text).0 == app,
        commit_input_focused(app) ==> key_spec(key, app, now, selected_text).1 == seq![
            Effect::Run(
                AppCommand::EditCommitMessage(
                    if c == '\r' {
                        TextEditOp::Consume
                    } else {
                        TextEditOp::InsertChar(c)
                    },
                ),
            ),
            Effect::Then(Resume::CommitKey(key)),
        ],
        search_input_focused(app) && app.engine.global_search.focus == SearchPanelFocus::FindInput
            ==> key_spec(key, app, now, selected_text).1 == run_only(
            AppCommand::EditGlobalSearchFindInput { op: TextEditOp::InsertChar(c), now },
        ),
        search_input_focused(app) && app.engine.global_search.focus
            == SearchPanelFocus::ReplaceInput ==> key_spec(key, app, now, selected_text).1
            == run_only(AppCommand::EditGlobalSearchReplaceInput(TextEditOp::InsertChar(c))),
{
    text_fields_bind_no_plain_character(keyboard_owner(app), key);
    text_fields_bind_no_plain_character(InputScope::CommitEditor, key);
    text_fields_bind_no_plain_character(InputScope::SearchInput, key);
}

/// While a prompt or a question is up, a key reaches nothing else: the tab, its chords
/// and the terminal's own state stay as they are.
pub proof fn prompts_own_the_keyboard(
    key: KeyEvent,
    app: TuiApp,
    now: Timestamp,
    selected_text: Option<String>,
)
    ensures
        ({
            let after = key_spec(key, app, now, selected_text);
            match keyboard_owner(app) {
                InputScope::DbGoto => after == (app, overlays::db_goto_effects(key)),
                InputScope::TreeEdit => after == (app, overlays::tree_edit_effects(key)),
                InputScope::ConfirmModal => after == (app, overlays::confirm_key_effects(key, app)),
                InputScope::PasteConflict => after == (
                    app,
                    overlays::paste_conflict_effects(key, app),
                ),
                InputScope::VimSearch => after == (app, search::search_key_effects(key, app)),
                InputScope::TreeContextMenu => after == (
                    app,
                    overlays::context_menu_effects(key, app),
                ),
                InputScope::NavCandidates => after == (app, overlays::nav_candidates_effects(key)),
                _ => true,
            }
        }),
{
}

} // verus!
