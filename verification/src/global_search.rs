//! The global search palette and the Search tab's list.

use crate::app::TuiApp;
use crate::command::{
    none, nothing, one, run, run_and_drain, run_only, run_then_drain, two, AppCommand, Effect,
    Resume,
};
use crate::engine::PreviewKind;
use crate::event::{KeyCode, KeyEvent, MouseButton, MouseEvent, MouseEventKind};
use crate::geometry::point_in_rect;
use crate::input::leader::{leader_decision, leader_verdict, LeaderVerdict, LEADER_TIMEOUT_MILLIS};
use crate::keymap::{resolved, Command, InputScope, Keymap};
use crate::picker_core::{input_for_key, picker_input};
use crate::selection::{is_double_click, is_double_spec, remember_click, remembered};
use crate::text::{
    first_full_line, first_full_lines_are_first, first_nonempty_trimmed_line, is_blank, is_trim_of,
    trims_at, white_space,
};
use crate::time::{millis, Duration, Timestamp};
use crate::ui::mouse::ClickAction;
use vstd::prelude::*;

verus! {

/// `line` is the first line of `text` that is not blank, without the white space at
/// its ends, or nothing where every line is blank.
pub open spec fn is_seed_of(line: Option<Seq<char>>, text: Seq<char>) -> bool {
    match (line, first_full_line(text, 0)) {
        (Some(l), Some(bounds)) => is_trim_of(l, text.subrange(bounds.0, bounds.1)) && l.len() > 0,
        (None, None) => true,
        _ => false,
    }
}

/// Whether the preview's selection can seed a search.
pub open spec fn preview_seeds(app: TuiApp) -> bool {
    match app.preview_selection {
        Some(sel) => !sel.is_empty() && app.engine.preview.is_text(),
        None => false,
    }
}

/// Whether the diff's selection can seed a search.
pub open spec fn diff_seeds(app: TuiApp) -> bool {
    match (app.diff_selection, app.last_diff_hit) {
        (Some(sel), Some(_)) => !sel.sel.is_empty(),
        _ => false,
    }
}

/// The selected text as the seed of a search: the first line that is not blank of what
/// is selected in the preview, and failing that of what is selected in the diff.
/// `preview_text` and `diff_text` are what the two selections hold.
pub fn current_text_selection(app: &TuiApp, preview_text: &str, diff_text: &str) -> (r: Option<
    String,
>)
    ensures
        ({
            let view = match r {
                Some(line) => Some(line@),
                None => None,
            };
            if preview_seeds(*app) && first_full_line(preview_text@, 0) is Some {
                is_seed_of(view, preview_text@)
            } else if diff_seeds(*app) {
                is_seed_of(view, diff_text@)
            } else {
                r is None
            }
        }),
{
    if let Some(sel) = app.preview_selection {
        if !sel.is_empty() && app.engine.preview.is_text() {
            if let Some(line) = first_nonempty_trimmed_line(preview_text) {
                return Some(line);
            }
        }
    }
    if let Some(sel) = app.diff_selection {
        if app.last_diff_hit.is_some() && !sel.sel.is_empty() {
            return first_nonempty_trimmed_line(diff_text);
        }
    }
    None
}

/// The state once the palette's leader is forgotten.
pub open spec fn without_leader(app: TuiApp) -> TuiApp {
    TuiApp { global_search_leader_at: None, ..app }
}

/// Opens the palette, seeded with the selected text.
pub fn begin(app: &mut TuiApp, selected_text: Option<String>) -> (r: Vec<Effect>)
    ensures
        *final(app) == without_leader(*old(app)),
        r@ == run_only(AppCommand::OpenGlobalSearch { seed: selected_text }),
{
    app.global_search_leader_at = None;
    run(AppCommand::OpenGlobalSearch { seed: selected_text })
}

/// What taking the selected hit asks for: to remember where the user was and to go
/// there. Without a hit the palette just closes.
pub open spec fn accept_effects(app: TuiApp) -> Seq<Effect> {
    if app.engine.global_search.has_selected_hit {
        seq![
            Effect::PushLocationBeforeJump,
            Effect::Run(AppCommand::AcceptGlobalSearchHit),
            Effect::Then(Resume::RuntimeEvents),
        ]
    } else {
        run_only(AppCommand::CloseGlobalSearch)
    }
}

/// Takes the selected hit.
pub fn accept(app: &TuiApp) -> (r: Vec<Effect>)
    ensures
        r@ == accept_effects(*app),
{
    if app.engine.global_search.has_selected_hit {
        vec![
            Effect::PushLocationBeforeJump,
            Effect::Run(AppCommand::AcceptGlobalSearchHit),
            Effect::Then(Resume::RuntimeEvents),
        ]
    } else {
        run(AppCommand::CloseGlobalSearch)
    }
}

/// Rows of the list that are on screen.
pub open spec fn rows_in_view(app: TuiApp) -> usize {
    app.layout.global_search_last_view_h as usize
}

/// How many rows a page of the list has: those on screen, and at least one.
pub open spec fn page_step(view_h: u16) -> int {
    if view_h >= 1 {
        view_h as int
    } else {
        1
    }
}

/// How many rows a page of the list has.
pub fn page_rows(view_h: u16) -> (r: i32)
    ensures
        r == page_step(view_h),
{
    view_h.max(1) as i32
}

/// What the palette makes of a key once its leader has had its say.
pub open spec fn palette_key_effects(key: KeyEvent, app: TuiApp, now: Timestamp) -> Seq<Effect> {
    match resolved(InputScope::GlobalSearch, key) {
        Some(Command::PinGlobalSearch) => seq![
            Effect::PushLocationBeforeJump,
            Effect::Run(AppCommand::PinGlobalSearchToTab),
            Effect::Then(Resume::RuntimeEvents),
            Effect::Run(AppCommand::SyncGlobalSearchPreviewToSelected),
        ],
        Some(Command::PageUp) => run_only(
            AppCommand::MoveGlobalSearchSelection {
                delta: (-page_step(app.layout.global_search_last_view_h)) as i32,
                visible_rows: rows_in_view(app),
            },
        ),
        Some(Command::PageDown) => run_only(
            AppCommand::MoveGlobalSearchSelection {
                delta: page_step(app.layout.global_search_last_view_h) as i32,
                visible_rows: rows_in_view(app),
            },
        ),
        _ => run_and_drain(
            AppCommand::ApplyGlobalSearchPickerInput {
                input: picker_input(InputScope::GlobalSearch, key),
                now,
                visible_rows: rows_in_view(app),
            },
        ),
    }
}

/// What the palette makes of a key. Space and then a capital `F` closes it while the
/// query is empty; any other chord letter is typed.
pub open spec fn handle_key_spec(key: KeyEvent, app: TuiApp, now: Timestamp) -> (
    TuiApp,
    Seq<Effect>,
) {
    match leader_verdict(
        key,
        app.engine.global_search.query_is_empty,
        app.global_search_leader_at,
        now,
        millis(LEADER_TIMEOUT_MILLIS as int),
    ) {
        LeaderVerdict::Arm => (TuiApp { global_search_leader_at: Some(now), ..app }, nothing()),
        LeaderVerdict::Fire => (
            without_leader(app),
            if key.code == KeyCode::Char('F') {
                run_only(AppCommand::CloseGlobalSearch)
            } else {
                palette_key_effects(key, app, now)
            },
        ),
        LeaderVerdict::Consume => (without_leader(app), palette_key_effects(key, app, now)),
        LeaderVerdict::Pass => (app, palette_key_effects(key, app, now)),
    }
}

/// Gives a key to the palette, which owns the keyboard while it is open.
pub fn handle_key(key: KeyEvent, app: &mut TuiApp, now: Timestamp) -> (r: Vec<Effect>)
    ensures
        *final(app) == handle_key_spec(key, *old(app), now).0,
        r@ == handle_key_spec(key, *old(app), now).1,
{
    match leader_decision(
        &key,
        app.engine.global_search.query_is_empty,
        app.global_search_leader_at,
        now,
        Duration::from_millis(LEADER_TIMEOUT_MILLIS),
    ) {
        LeaderVerdict::Arm => {
            app.global_search_leader_at = Some(now);
            return none();
        },
        LeaderVerdict::Fire => {
            app.global_search_leader_at = None;
            if key.code == KeyCode::Char('F') && !key.modifiers.control && !key.modifiers.alt {
                return run(AppCommand::CloseGlobalSearch);
            }
        },
        LeaderVerdict::Consume => {
            app.global_search_leader_at = None;
        },
        LeaderVerdict::Pass => {},
    }
    palette_key(key, app, now)
}

fn palette_key(key: KeyEvent, app: &TuiApp, now: Timestamp) -> (r: Vec<Effect>)
    ensures
        r@ == palette_key_effects(key, *app, now),
{
    let visible_rows: usize = app.layout.global_search_last_view_h as usize;
    match Keymap::resolve(InputScope::GlobalSearch, &key) {
        Some(Command::PinGlobalSearch) => vec![
            Effect::PushLocationBeforeJump,
            Effect::Run(AppCommand::PinGlobalSearchToTab),
            Effect::Then(Resume::RuntimeEvents),
            Effect::Run(AppCommand::SyncGlobalSearchPreviewToSelected),
        ],
        Some(Command::PageUp) => {
            let step: i32 = page_rows(app.layout.global_search_last_view_h);
            run(AppCommand::MoveGlobalSearchSelection { delta: -step, visible_rows })
        },
        Some(Command::PageDown) => {
            let step: i32 = page_rows(app.layout.global_search_last_view_h);
            run(AppCommand::MoveGlobalSearchSelection { delta: step, visible_rows })
        },
        _ => run_then_drain(
            AppCommand::ApplyGlobalSearchPickerInput {
                input: input_for_key(InputScope::GlobalSearch, &key),
                now,
                visible_rows,
            },
        ),
    }
}

/// What the palette makes of a mouse event: a click outside closes it, a click on a row
/// selects it, a double click takes it, and the wheel moves the selection by three.
pub open spec fn handle_mouse_spec(mouse: MouseEvent, app: TuiApp, now: Timestamp) -> (
    TuiApp,
    Seq<Effect>,
) {
    match app.global_search_popup_area {
        None => (app, nothing()),
        Some(popup) => {
            let inside = popup.holds(mouse.column as int, mouse.row as int);
            let is_double = is_double_spec(app.last_click, now, mouse.column, mouse.row);
            let clicked = TuiApp {
                last_click: remembered(is_double, now, mouse.column, mouse.row),
                ..app
            };
            match mouse.kind {
                MouseEventKind::Down(MouseButton::Left) => if !inside {
                    (
                        TuiApp { global_search_leader_at: None, last_click: None, ..app },
                        run_only(AppCommand::CloseGlobalSearch),
                    )
                } else {
                    match app.hit_registry.hit(mouse.column, mouse.row) {
                        Some(ClickAction::GlobalSearchSelect(idx)) => {
                            let select = Effect::Run(
                                AppCommand::SelectGlobalSearchResult {
                                    idx,
                                    visible_rows: rows_in_view(app),
                                },
                            );
                            (
                                clicked,
                                if is_double {
                                    seq![select, Effect::Then(Resume::AcceptGlobalSearch)]
                                } else {
                                    seq![select]
                                },
                            )
                        },
                        _ => (clicked, nothing()),
                    }
                },
                MouseEventKind::ScrollUp if inside => (
                    app,
                    run_only(
                        AppCommand::MoveGlobalSearchSelection {
                            delta: (-3) as i32,
                            visible_rows: rows_in_view(app),
                        },
                    ),
                ),
                MouseEventKind::ScrollDown if inside => (
                    app,
                    run_only(
                        AppCommand::MoveGlobalSearchSelection {
                            delta: 3,
                            visible_rows: rows_in_view(app),
                        },
                    ),
                ),
                _ => (app, nothing()),
            }
        },
    }
}

/// Gives a mouse event to the palette, which owns the mouse while it is open.
pub fn handle_mouse(mouse: MouseEvent, app: &mut TuiApp, now: Timestamp) -> (r: Vec<Effect>)
    ensures
        *final(app) == handle_mouse_spec(mouse, *old(app), now).0,
        r@ == handle_mouse_spec(mouse, *old(app), now).1,
{
    let popup = match app.global_search_popup_area {
        Some(popup) => popup,
        None => return none(),
    };
    let inside = point_in_rect(popup, mouse.column, mouse.row);
    let visible_rows: usize = app.layout.global_search_last_view_h as usize;
    match mouse.kind {
        MouseEventKind::Down(MouseButton::Left) => {
            if !inside {
                app.global_search_leader_at = None;
                app.last_click = None;
                return run(AppCommand::CloseGlobalSearch);
            }
            let is_double = is_double_click(app.last_click, now, mouse.column, mouse.row);
            let hit = app.hit_registry.hit_test(mouse.column, mouse.row);
            let effects = match hit {
                Some(ClickAction::GlobalSearchSelect(idx)) => {
                    let select = Effect::Run(
                        AppCommand::SelectGlobalSearchResult { idx, visible_rows },
                    );
                    if is_double {
                        two(select, Effect::Then(Resume::AcceptGlobalSearch))
                    } else {
                        one(select)
                    }
                },
                _ => none(),
            };
            app.last_click = remember_click(is_double, now, mouse.column, mouse.row);
            effects
        },
        MouseEventKind::ScrollUp => {
            if inside {
                run(AppCommand::MoveGlobalSearchSelection { delta: -3, visible_rows })
            } else {
                none()
            }
        },
        MouseEventKind::ScrollDown => {
            if inside {
                run(AppCommand::MoveGlobalSearchSelection { delta: 3, visible_rows })
            } else {
                none()
            }
        },
        _ => none(),
    }
}

/// What moving through the results asks for: the move, and a preview of the row once
/// the moving stops.
pub open spec fn move_effects(app: TuiApp, delta: i32, now: Timestamp) -> Seq<Effect> {
    seq![
        Effect::Run(
            AppCommand::MoveGlobalSearchSelection { delta, visible_rows: rows_in_view(app) },
        ),
        Effect::Run(AppCommand::ScheduleGlobalSearchPreviewSync { now }),
    ]
}

/// Moves through the results.
pub fn move_selection_by(app: &TuiApp, delta: i32, now: Timestamp) -> (r: Vec<Effect>)
    ensures
        r@ == move_effects(*app, delta, now),
{
    two(
        Effect::Run(
            AppCommand::MoveGlobalSearchSelection {
                delta,
                visible_rows: app.layout.global_search_last_view_h as usize,
            },
        ),
        Effect::Run(AppCommand::ScheduleGlobalSearchPreviewSync { now }),
    )
}

/// What running the query again asks for.
pub open spec fn reload_effects(app: TuiApp, now: Timestamp) -> Seq<Effect> {
    if app.engine.global_search.query_is_empty {
        nothing()
    } else {
        run_only(AppCommand::ReloadGlobalSearch { now })
    }
}

/// Runs the query again, unless there is none.
pub fn reload(app: &TuiApp, now: Timestamp) -> (r: Vec<Effect>)
    ensures
        r@ == reload_effects(*app, now),
{
    if app.engine.global_search.query_is_empty {
        return none();
    }
    run(AppCommand::ReloadGlobalSearch { now })
}

/// Shows the selected result in the preview once the moving has stopped.
pub fn sync_preview_if_due(due: bool) -> (r: Vec<Effect>)
    ensures
        r@ == (if due {
            run_only(AppCommand::SyncGlobalSearchPreviewToSelected)
        } else {
            nothing()
        }),
{
    if due {
        navigate_to_selected()
    } else {
        none()
    }
}

/// Shows the selected result in the preview. The tab and the tree stay as they are.
pub fn navigate_to_selected() -> (r: Vec<Effect>)
    ensures
        r@ == run_only(AppCommand::SyncGlobalSearchPreviewToSelected),
{
    run(AppCommand::SyncGlobalSearchPreviewToSelected)
}

/// Pastes into the palette's query.
pub fn handle_paste_overlay(s: String, now: Timestamp) -> (r: Vec<Effect>)
    ensures
        r@ == run_only(AppCommand::PasteGlobalSearchOverlay { text: s, now }),
{
    run(AppCommand::PasteGlobalSearchOverlay { text: s, now })
}

/// Pastes into the row of the Search tab that has the focus.
pub fn handle_paste_search_tab(s: String, now: Timestamp) -> (r: Vec<Effect>)
    ensures
        r@ == run_only(AppCommand::PasteGlobalSearchTab { text: s, now }),
{
    run(AppCommand::PasteGlobalSearchTab { text: s, now })
}

/// Marks the preview to follow the selected hit, once the selection has settled.
pub fn schedule_preview_sync(now: Timestamp) -> (r: Vec<Effect>)
    ensures
        r@ == seq![Effect::Run(AppCommand::ScheduleGlobalSearchPreviewSync { now })],
{
    vec![Effect::Run(AppCommand::ScheduleGlobalSearchPreviewSync { now })]
}

/// A search is seeded with the first line of the selected text that is not blank: it holds no
/// line break, no white space stands at its ends, and nothing but white space stands before it.
pub proof fn seeds_are_first_lines(line: Seq<char>, text: Seq<char>)
    requires
        is_seed_of(Some(line), text),
    ensures
        line.len() > 0,
        !line.contains('\n'),
        !white_space(line[0]) && !white_space(line.last()),
        exists|at: int|
            0 <= at && at + line.len() <= text.len() && line == #[trigger] text.subrange(
                at,
                at + line.len(),
            ) && is_blank(text.subrange(0, at)),
{
    first_full_lines_are_first(text, 0);
    let bounds = first_full_line(text, 0)->0;
    let whole = text.subrange(bounds.0, bounds.1);
    let (start, end) = choose|start: int, end: int| #[trigger] trims_at(line, whole, start, end);
    let at = bounds.0 + start;
    assert(line =~= text.subrange(at, at + line.len()));
    assert forall|i: int| 0 <= i < at implies white_space(#[trigger] text.subrange(0, at)[i]) by {
        if i < bounds.0 {
            assert(text.subrange(0, at)[i] == text.subrange(0, bounds.0)[i]);
        } else {
            assert(text.subrange(0, at)[i] == whole.subrange(0, start)[i - bounds.0]);
        }
    }
    if line.contains('\n') {
        let i = choose|i: int| 0 <= i < line.len() && line[i] == '\n';
        assert(text[at + i] == '\n');
    }
}

/// A text that seeds nothing is blank.
pub proof fn blank_texts_seed_nothing(text: Seq<char>)
    ensures
        is_seed_of(None, text) ==> is_blank(text),
{
    first_full_lines_are_first(text, 0);
    assert(text.subrange(0, text.len() as int) =~= text);
}

/// A selection in the preview seeds a search where it holds something of a text, and one in
/// the diff where it holds something of a diff that is on screen.
pub proof fn selections_seed_searches(app: TuiApp)
    ensures
        preview_seeds(app) <==> app.preview_selection is Some && app.preview_selection->0.anchor
            != app.preview_selection->0.active && (app.engine.preview.kind == PreviewKind::Text
            || app.engine.preview.kind == PreviewKind::Markdown),
        diff_seeds(app) <==> app.diff_selection is Some && app.last_diff_hit is Some
            && app.diff_selection->0.sel.anchor != app.diff_selection->0.sel.active,
{
}

} // verus!
