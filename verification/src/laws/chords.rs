//! What the chords ask for: Space and a letter, and `g` and a letter.

use crate::app::TuiApp;
use crate::command::{AppCommand, Effect, NavAnchor, Resume};
use crate::engine::{DiffSide, FindPlace, Panel, PreviewKind, Tab};
use crate::event::{KeyCode, KeyEvent};
use crate::input::keys::key_spec;
use crate::laws::bindings::{keys_after_g, keys_after_space};
use crate::laws::held::{plain, shift};
use crate::laws::tabs::tab_has_the_keys;
use crate::time::Timestamp;
use vstd::prelude::*;

verus! {

/// Space waits for a second key. It does so on every tab, but not in the hits of a
/// replacement.
pub proof fn space_waits(app: TuiApp, now: Timestamp, selected_text: Option<String>)
    requires
        tab_has_the_keys(app),
        !(app.engine.active_tab == Tab::Search && app.engine.active_panel == Panel::Files
            && app.engine.global_search.replace_open),
    ensures
        key_spec(plain(KeyCode::Char(' ')), app, now, selected_text) == (
            TuiApp { space_leader_at: Some(now), ..app },
            Seq::<Effect>::empty(),
        ),
{
}

/// Whether Space was pressed less than eight tenths of a second ago, and nothing else has the
/// keyboard.
pub open spec fn space_is_fresh(app: TuiApp, now: Timestamp) -> bool {
    &&& tab_has_the_keys(TuiApp { space_leader_at: None, ..app })
    &&& app.space_leader_at matches Some(at) && now.nanos < at.nanos + 800_000_000
}

/// Soon after Space, `p` opens quick open, `F` the global search for what is selected,
/// `h` the replacement in all files, and `v` gives the whole screen to the preview or
/// takes it back. Palettes that are up go down.
pub proof fn space_opens(
    key: KeyEvent,
    app: TuiApp,
    now: Timestamp,
    selected_text: Option<String>,
)
    requires
        space_is_fresh(app, now),
    ensures
        ({
            let asked = key_spec(key, app, now, selected_text);
            &&& (key == plain(KeyCode::Char('p')) || key == plain(KeyCode::Char('P'))
                || key == shift(KeyCode::Char('P'))) ==> asked == (
                    TuiApp { space_leader_at: None, quick_open_leader_at: None, ..app },
                    seq![
                        Effect::Run(AppCommand::CloseActivePalettes),
                        Effect::Run(AppCommand::OpenQuickOpen),
                    ],
                )
            &&& (key == plain(KeyCode::Char('F')) || key == shift(KeyCode::Char('F'))) ==> asked == (
                    TuiApp { space_leader_at: None, global_search_leader_at: None, ..app },
                    seq![
                        Effect::Run(AppCommand::CloseActivePalettes),
                        Effect::Run(AppCommand::OpenGlobalSearch { seed: selected_text }),
                    ],
                )
            &&& (key == plain(KeyCode::Char('h')) || key == plain(KeyCode::Char('H'))
                || key == shift(KeyCode::Char('H'))) ==> asked == (
                    TuiApp { space_leader_at: None, ..app },
                    seq![
                        Effect::Run(AppCommand::CloseActivePalettes),
                        Effect::Run(AppCommand::OpenGlobalReplaceTab),
                        Effect::Then(Resume::RuntimeEvents),
                    ],
                )
            &&& (key == plain(KeyCode::Char('v')) || key == plain(KeyCode::Char('V'))
                || key == shift(KeyCode::Char('V'))) ==> asked == (
                    TuiApp { space_leader_at: None, g_pending_at: None, ..app },
                    seq![
                        Effect::Run(AppCommand::CloseActivePalettes),
                        Effect::Run(
                            AppCommand::ToggleFocusedPreview {
                                uses_three_col: app.graph_uses_three_col(),
                            },
                        ),
                    ],
                )
        }),
{
    keys_after_space(key);
}

/// Soon after Space, `f` opens the find widget on what the right panel shows: the file,
/// or the diff, in the half of it that holds the selection. From the list on the left the
/// focus moves to the right first. In the details of a commit, and in the Search tab's
/// list, there is nothing to find in.
pub proof fn space_f_finds(
    key: KeyEvent,
    app: TuiApp,
    now: Timestamp,
    selected_text: Option<String>,
)
    requires
        space_is_fresh(app, now),
    ensures
        ({
            let asked = key_spec(key, app, now, selected_text);
            &&& key == plain(KeyCode::Char('f')) && (app.engine.active_panel == Panel::Diff
                && (app.engine.active_tab == Tab::Files
                || app.engine.active_tab == Tab::Search)) ==> asked == (
                    TuiApp { space_leader_at: None, ..app },
                    seq![
                        Effect::Run(AppCommand::CloseActivePalettes),
                        Effect::Run(
                            AppCommand::BeginFindWidget {
                                place: FindPlace::FilePreview,
                                query: selected_text,
                            },
                        ),
                        Effect::Then(Resume::RuntimeEvents),
                    ],
                )
            &&& key == plain(KeyCode::Char('f')) && app.engine.active_panel == Panel::Diff
                && app.engine.active_tab == Tab::Git && app.diff_selection is None ==> asked == (
                    TuiApp { space_leader_at: None, ..app },
                    seq![
                        Effect::Run(AppCommand::CloseActivePalettes),
                        Effect::Run(
                            AppCommand::BeginFindWidget {
                                place: FindPlace::Diff { layout: app.engine.diff_layout, side: None::<DiffSide>, graph: false },
                                query: selected_text,
                            },
                        ),
                        Effect::Then(Resume::RuntimeEvents),
                    ],
                )
            &&& key == plain(KeyCode::Char('f')) && app.engine.active_panel == Panel::Diff
                && app.engine.active_tab == Tab::Git && app.diff_selection is Some ==> asked == (
                    TuiApp { space_leader_at: None, ..app },
                    seq![
                        Effect::Run(AppCommand::CloseActivePalettes),
                        Effect::Run(
                            AppCommand::BeginFindWidget {
                                place: FindPlace::Diff { layout: app.engine.diff_layout, side: Some(app.diff_selection->0.side),
                                graph: false,
                            },
                            query: selected_text }), Effect::Then(Resume::RuntimeEvents,
                        ),
                    ],
                )
            &&& key == plain(KeyCode::Char('f')) && app.engine.active_panel == Panel::Diff
                && app.engine.active_tab == Tab::Graph && app.graph_uses_three_col()
                && app.diff_selection is None ==> asked == (
                    TuiApp { space_leader_at: None, ..app },
                    seq![
                        Effect::Run(AppCommand::CloseActivePalettes),
                        Effect::Run(
                            AppCommand::BeginFindWidget {
                                place: FindPlace::Diff { layout: app.engine.diff_layout, side: None::<DiffSide>, graph: true },
                                query: selected_text,
                            },
                        ),
                        Effect::Then(Resume::RuntimeEvents),
                    ],
                )
            &&& key == plain(KeyCode::Char('f')) && app.engine.active_panel == Panel::Diff
                && app.engine.active_tab == Tab::Graph && app.graph_uses_three_col()
                && app.diff_selection is Some ==> asked == (
                    TuiApp { space_leader_at: None, ..app },
                    seq![
                        Effect::Run(AppCommand::CloseActivePalettes),
                        Effect::Run(
                            AppCommand::BeginFindWidget {
                                place: FindPlace::Diff { layout: app.engine.diff_layout, side: Some(app.diff_selection->0.side),
                                graph: true,
                            },
                            query: selected_text }), Effect::Then(Resume::RuntimeEvents,
                        ),
                    ],
                )
            &&& key == plain(KeyCode::Char('f')) && app.engine.active_panel == Panel::Diff
                && app.engine.active_tab == Tab::Graph && !app.graph_uses_three_col() ==> asked == (
                    TuiApp { space_leader_at: None, ..app },
                    seq![Effect::Run(AppCommand::CloseActivePalettes)],
                )
            &&& key == plain(KeyCode::Char('f')) && app.engine.active_panel != Panel::Diff
                && !(app.engine.active_tab == Tab::Search
                && app.engine.active_panel == Panel::Files) ==> asked == (
                    TuiApp { space_leader_at: None, ..app },
                    seq![
                        Effect::Run(AppCommand::CloseActivePalettes),
                        Effect::Run(AppCommand::SetActivePanel(Panel::Diff)),
                        Effect::Then(Resume::BeginFind),
                    ],
                )
            &&& key == plain(KeyCode::Char('f')) && app.engine.active_tab == Tab::Search
                && app.engine.active_panel == Panel::Files ==> asked == (
                    TuiApp { space_leader_at: None, ..app },
                    seq![Effect::Run(AppCommand::CloseActivePalettes)],
                )
        }),
{
    keys_after_space(key);
}

/// A Space that has waited for eight tenths of a second is forgotten: what comes now means
/// what it means without it.
pub proof fn space_is_forgotten(
    key: KeyEvent,
    app: TuiApp,
    now: Timestamp,
    selected_text: Option<String>,
    at: Timestamp,
)
    requires
        tab_has_the_keys(TuiApp { space_leader_at: None, ..app }),
        app.space_leader_at == Some(at),
        now.nanos >= at.nanos + 800_000_000,
        key != plain(KeyCode::Char(' ')),
    ensures
        key_spec(key, app, now, selected_text) == key_spec(
            key,
            TuiApp { space_leader_at: None, ..app },
            now,
            selected_text,
        ),
{
}

/// A key that ends no chord with Space means after it what it means without it.
pub proof fn space_lets_other_keys_pass(
    key: KeyEvent,
    app: TuiApp,
    now: Timestamp,
    selected_text: Option<String>,
)
    requires
        space_is_fresh(app, now),
        !(key.code is Char),
    ensures
        key_spec(key, app, now, selected_text) == key_spec(
            key,
            TuiApp { space_leader_at: None, ..app },
            now,
            selected_text,
        ),
{
}

/// Whether the preview shows a database, where `g` is no chord.
pub open spec fn g_is_a_page_key(app: TuiApp) -> bool {
    app.engine.active_tab == Tab::Files && app.engine.active_panel == Panel::Diff
        && app.engine.preview.kind == PreviewKind::Database
}

/// `g` waits for a second key.
pub proof fn g_waits(app: TuiApp, now: Timestamp, selected_text: Option<String>)
    requires
        tab_has_the_keys(app),
        !g_is_a_page_key(app),
    ensures
        key_spec(plain(KeyCode::Char('g')), app, now, selected_text) == (
            TuiApp { g_pending_at: Some(now), ..app },
            Seq::<Effect>::empty(),
        ),
{
}

/// Whether `g` was pressed less than half a second ago, and nothing else has the keyboard.
pub open spec fn g_is_fresh(app: TuiApp, now: Timestamp) -> bool {
    &&& tab_has_the_keys(TuiApp { g_pending_at: None, ..app })
    &&& !g_is_a_page_key(app)
    &&& app.g_pending_at matches Some(at) && now.nanos < at.nanos + 500_000_000
}

/// Soon after `g`, `d` goes to where the symbol under the cursor is defined and `r` lists
/// where it is used, looking at the diff where that has the focus.
pub proof fn g_goes_to_definitions(
    key: KeyEvent,
    app: TuiApp,
    now: Timestamp,
    selected_text: Option<String>,
)
    requires
        g_is_fresh(app, now),
    ensures
        ({
            let asked = key_spec(key, app, now, selected_text);
            &&& key == plain(KeyCode::Char('d')) ==> asked == (
                    TuiApp { g_pending_at: None, ..app },
                    seq![
                        Effect::GotoDefinition {
                            in_diff: (app.engine.active_tab == Tab::Git || app.engine.active_tab == Tab::Graph) && app.engine.active_panel == Panel::Diff,
                            anchor: NavAnchor::Keyboard,
                        },
                    ],
                )
            &&& key == plain(KeyCode::Char('r')) ==> asked == (
                    TuiApp { g_pending_at: None, ..app },
                    seq![
                        Effect::FindReferences {
                            in_diff: (app.engine.active_tab == Tab::Git || app.engine.active_tab == Tab::Graph) && app.engine.active_panel == Panel::Diff,
                            anchor: NavAnchor::Keyboard,
                        },
                    ],
                )
        }),
{
    keys_after_g(key);
}

/// `g` twice jumps to the top of what has the focus: lists move their selection to the
/// first row, and contents scroll to their start.
pub proof fn g_g_goes_to_the_top(
    key: KeyEvent,
    app: TuiApp,
    now: Timestamp,
    selected_text: Option<String>,
)
    requires
        g_is_fresh(app, now),
    ensures
        ({
            let asked = key_spec(key, app, now, selected_text);
            &&& key == plain(KeyCode::Char('g')) && app.engine.active_tab == Tab::Files
                && app.engine.active_panel == Panel::Files
                && app.engine.tree.entries@.len() > 0 ==> asked == (
                    TuiApp { g_pending_at: None, ..app },
                    seq![Effect::Run(AppCommand::NavigateFileTree((-1_000_000) as i32))],
                )
            &&& key == plain(KeyCode::Char('g')) && app.engine.active_tab == Tab::Files
                && app.engine.active_panel == Panel::Files
                && app.engine.tree.entries@.len() == 0 ==> asked == (
                    TuiApp { g_pending_at: None, ..app },
                    Seq::<Effect>::empty(),
                )
            &&& key == plain(KeyCode::Char('g')) && app.engine.active_tab == Tab::Files
                && app.engine.active_panel == Panel::Diff ==> asked == (
                    TuiApp { g_pending_at: None, ..app },
                    seq![Effect::Run(AppCommand::SetPreviewVerticalScroll(0))],
                )
            &&& key == plain(KeyCode::Char('g')) && app.engine.active_tab == Tab::Search
                && app.engine.active_panel == Panel::Diff ==> asked == (
                    TuiApp { g_pending_at: None, ..app },
                    seq![Effect::Run(AppCommand::SetPreviewVerticalScroll(0))],
                )
            &&& key == plain(KeyCode::Char('g')) && app.engine.active_tab == Tab::Git
                && app.engine.active_panel == Panel::Files ==> asked == (
                    TuiApp { g_pending_at: None, ..app },
                    seq![Effect::Run(AppCommand::NavigateGitFiles((-1_000_000) as i32))],
                )
            &&& key == plain(KeyCode::Char('g')) && app.engine.active_tab == Tab::Git
                && app.engine.active_panel == Panel::Diff ==> asked == (
                    TuiApp { g_pending_at: None, ..app },
                    seq![Effect::Run(AppCommand::SetDiffVerticalScroll(0))],
                )
            &&& key == plain(KeyCode::Char('g')) && app.engine.active_tab == Tab::Graph
                && app.engine.active_panel == Panel::Files && app.engine.graph.has_range_anchor ==> asked == (
                    TuiApp { g_pending_at: None, ..app },
                    seq![
                        Effect::Run(AppCommand::ExtendGraphSelection((-1_000_000) as i32)),
                        Effect::Then(Resume::RuntimeEvents),
                    ],
                )
            &&& key == plain(KeyCode::Char('g')) && app.engine.active_tab == Tab::Graph
                && app.engine.active_panel == Panel::Files
                && !app.engine.graph.has_range_anchor ==> asked == (
                    TuiApp { g_pending_at: None, ..app },
                    seq![
                        Effect::Run(AppCommand::MoveGraphSelection((-1_000_000) as i32)),
                        Effect::Then(Resume::RuntimeEvents),
                    ],
                )
            &&& key == plain(KeyCode::Char('g')) && app.engine.active_tab == Tab::Graph
                && app.engine.active_panel == Panel::Commit ==> asked == (
                    TuiApp { g_pending_at: None, ..app },
                    seq![Effect::Run(AppCommand::SetCommitDetailVerticalScroll(0))],
                )
            &&& key == plain(KeyCode::Char('g')) && app.engine.active_tab == Tab::Graph
                && app.engine.active_panel == Panel::Diff ==> asked == (
                    TuiApp { g_pending_at: None, ..app },
                    seq![Effect::Run(AppCommand::SetCommitDetailFileDiffVerticalScroll(0))],
                )
        }),
{
}

/// `G` jumps to the bottom of what has the focus: lists move their selection to the last
/// row, and contents scroll as far as they go.
pub proof fn capital_g_goes_to_the_bottom(
    key: KeyEvent,
    app: TuiApp,
    now: Timestamp,
    selected_text: Option<String>,
)
    requires
        tab_has_the_keys(TuiApp { g_pending_at: None, ..app }),
        !g_is_a_page_key(app),
    ensures
        ({
            let asked = key_spec(key, app, now, selected_text);
            &&& key.code == KeyCode::Char('G') && !key.modifiers.control && !key.modifiers.alt
                && app.engine.active_tab == Tab::Files
                && app.engine.active_panel == Panel::Files
                && app.engine.tree.entries@.len() > 0 ==> asked == (
                    TuiApp { g_pending_at: None, ..app },
                    seq![Effect::Run(AppCommand::NavigateFileTree(1_000_000))],
                )
            &&& key.code == KeyCode::Char('G') && !key.modifiers.control && !key.modifiers.alt
                && app.engine.active_tab == Tab::Files
                && app.engine.active_panel == Panel::Files
                && app.engine.tree.entries@.len() == 0 ==> asked == (
                    TuiApp { g_pending_at: None, ..app },
                    Seq::<Effect>::empty(),
                )
            &&& key.code == KeyCode::Char('G') && !key.modifiers.control && !key.modifiers.alt
                && app.engine.active_tab == Tab::Files
                && app.engine.active_panel == Panel::Diff ==> asked == (
                    TuiApp { g_pending_at: None, ..app },
                    seq![Effect::Run(AppCommand::SetPreviewVerticalScroll(usize::MAX))],
                )
            &&& key.code == KeyCode::Char('G') && !key.modifiers.control && !key.modifiers.alt
                && app.engine.active_tab == Tab::Search
                && app.engine.active_panel == Panel::Diff ==> asked == (
                    TuiApp { g_pending_at: None, ..app },
                    seq![Effect::Run(AppCommand::SetPreviewVerticalScroll(usize::MAX))],
                )
            &&& key.code == KeyCode::Char('G') && !key.modifiers.control && !key.modifiers.alt
                && app.engine.active_tab == Tab::Git && app.engine.active_panel == Panel::Files ==> asked == (
                    TuiApp { g_pending_at: None, ..app },
                    seq![Effect::Run(AppCommand::NavigateGitFiles(1_000_000))],
                )
            &&& key.code == KeyCode::Char('G') && !key.modifiers.control && !key.modifiers.alt
                && app.engine.active_tab == Tab::Git && app.engine.active_panel == Panel::Diff ==> asked == (
                    TuiApp { g_pending_at: None, ..app },
                    seq![Effect::Run(AppCommand::SetDiffVerticalScroll(usize::MAX))],
                )
            &&& key.code == KeyCode::Char('G') && !key.modifiers.control && !key.modifiers.alt
                && app.engine.active_tab == Tab::Graph
                && app.engine.active_panel == Panel::Files && app.engine.graph.has_range_anchor ==> asked == (
                    TuiApp { g_pending_at: None, ..app },
                    seq![
                        Effect::Run(AppCommand::ExtendGraphSelection(1_000_000)),
                        Effect::Then(Resume::RuntimeEvents),
                    ],
                )
            &&& key.code == KeyCode::Char('G') && !key.modifiers.control && !key.modifiers.alt
                && app.engine.active_tab == Tab::Graph
                && app.engine.active_panel == Panel::Files
                && !app.engine.graph.has_range_anchor ==> asked == (
                    TuiApp { g_pending_at: None, ..app },
                    seq![
                        Effect::Run(AppCommand::MoveGraphSelection(1_000_000)),
                        Effect::Then(Resume::RuntimeEvents),
                    ],
                )
            &&& key.code == KeyCode::Char('G') && !key.modifiers.control && !key.modifiers.alt
                && app.engine.active_tab == Tab::Graph
                && app.engine.active_panel == Panel::Commit ==> asked == (
                    TuiApp { g_pending_at: None, ..app },
                    seq![Effect::Run(AppCommand::SetCommitDetailVerticalScroll(usize::MAX))],
                )
            &&& key.code == KeyCode::Char('G') && !key.modifiers.control && !key.modifiers.alt
                && app.engine.active_tab == Tab::Graph
                && app.engine.active_panel == Panel::Diff ==> asked == (
                    TuiApp { g_pending_at: None, ..app },
                    seq![
                        Effect::Run(
                            AppCommand::SetCommitDetailFileDiffVerticalScroll(usize::MAX),
                        ),
                    ],
                )
        }),
{
}

/// A `g` that has waited for half a second is forgotten: what comes now means what it means
/// without it.
pub proof fn g_is_forgotten(
    key: KeyEvent,
    app: TuiApp,
    now: Timestamp,
    selected_text: Option<String>,
    at: Timestamp,
)
    requires
        tab_has_the_keys(TuiApp { g_pending_at: None, ..app }),
        !g_is_a_page_key(app),
        app.g_pending_at == Some(at),
        now.nanos >= at.nanos + 500_000_000,
        key != plain(KeyCode::Char(' ')),
    ensures
        key_spec(key, app, now, selected_text) == key_spec(
            key,
            TuiApp { g_pending_at: None, ..app },
            now,
            selected_text,
        ),
{
}

} // verus!
