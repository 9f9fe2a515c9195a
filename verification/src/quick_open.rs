//! The quick-open palette.

use crate::app::TuiApp;
use crate::command::{
    none, nothing, one, run, run_and_drain, run_only, run_then_drain, two, AppCommand, Effect,
    Resume,
};
use crate::event::{KeyCode, KeyEvent, MouseButton, MouseEvent, MouseEventKind};
use crate::geometry::point_in_rect;
use crate::global_search::{page_rows, page_step};
use crate::input::leader::{leader_decision, leader_verdict, LeaderVerdict, LEADER_TIMEOUT_MILLIS};
use crate::keymap::{resolved, Command, InputScope, Keymap};
use crate::picker_core::{input_for_key, picker_input};
use crate::selection::{is_double_click, is_double_spec, remember_click, remembered};
use crate::time::{millis, Duration, Timestamp};
use crate::ui::mouse::ClickAction;
use vstd::prelude::*;

verus! {

/// How many of the files opened last are remembered.
pub const MRU_MAX: usize = 50;

/// The state once the palette's leader is forgotten.
pub open spec fn without_leader(app: TuiApp) -> TuiApp {
    TuiApp { quick_open_leader_at: None, ..app }
}

/// Opens the palette.
pub fn begin(app: &mut TuiApp) -> (r: Vec<Effect>)
    ensures
        *final(app) == without_leader(*old(app)),
        r@ == run_only(AppCommand::OpenQuickOpen),
{
    app.quick_open_leader_at = None;
    run(AppCommand::OpenQuickOpen)
}

/// What opening the selected file asks for. Without one the palette just closes.
pub open spec fn accept_effects(app: TuiApp) -> Seq<Effect> {
    if app.engine.quick_open.has_selection {
        seq![
            Effect::PushLocationBeforeJump,
            Effect::Run(AppCommand::AcceptQuickOpenSelection { mru_cap: MRU_MAX }),
            Effect::Then(Resume::RuntimeEvents),
        ]
    } else {
        run_only(AppCommand::CloseQuickOpen)
    }
}

/// Opens the selected file.
pub fn accept(app: &TuiApp) -> (r: Vec<Effect>)
    ensures
        r@ == accept_effects(*app),
{
    if app.engine.quick_open.has_selection {
        vec![
            Effect::PushLocationBeforeJump,
            Effect::Run(AppCommand::AcceptQuickOpenSelection { mru_cap: MRU_MAX }),
            Effect::Then(Resume::RuntimeEvents),
        ]
    } else {
        run(AppCommand::CloseQuickOpen)
    }
}

/// Rows of the list that are on screen.
pub open spec fn rows_in_view(app: TuiApp) -> usize {
    app.layout.quick_open_last_view_h as usize
}

/// What the palette makes of a key once its leader has had its say.
pub open spec fn palette_key_effects(key: KeyEvent, app: TuiApp) -> Seq<Effect> {
    match resolved(InputScope::QuickOpen, key) {
        Some(Command::PageUp) => run_only(
            AppCommand::MoveQuickOpenSelection {
                delta: (-page_step(app.layout.quick_open_last_view_h)) as i32,
                visible_rows: rows_in_view(app),
            },
        ),
        Some(Command::PageDown) => run_only(
            AppCommand::MoveQuickOpenSelection {
                delta: page_step(app.layout.quick_open_last_view_h) as i32,
                visible_rows: rows_in_view(app),
            },
        ),
        _ => run_and_drain(
            AppCommand::ApplyQuickOpenPickerInput {
                input: picker_input(InputScope::QuickOpen, key),
                visible_rows: rows_in_view(app),
            },
        ),
    }
}

/// What the palette makes of a key. Space and then `p` closes it while the query is
/// empty; any other chord letter is typed.
pub open spec fn handle_key_spec(key: KeyEvent, app: TuiApp, now: Timestamp) -> (
    TuiApp,
    Seq<Effect>,
) {
    match leader_verdict(
        key,
        app.engine.quick_open.query_is_empty,
        app.quick_open_leader_at,
        now,
        millis(LEADER_TIMEOUT_MILLIS as int),
    ) {
        LeaderVerdict::Arm => (TuiApp { quick_open_leader_at: Some(now), ..app }, nothing()),
        LeaderVerdict::Fire => (
            without_leader(app),
            if key.code == KeyCode::Char('p') || key.code == KeyCode::Char('P') {
                run_only(AppCommand::CloseQuickOpen)
            } else {
                palette_key_effects(key, app)
            },
        ),
        LeaderVerdict::Consume => (without_leader(app), palette_key_effects(key, app)),
        LeaderVerdict::Pass => (app, palette_key_effects(key, app)),
    }
}

/// Gives a key to the palette, which owns the keyboard while it is open.
pub fn handle_key(key: KeyEvent, app: &mut TuiApp, now: Timestamp) -> (r: Vec<Effect>)
    ensures
        *final(app) == handle_key_spec(key, *old(app), now).0,
        r@ == handle_key_spec(key, *old(app), now).1,
{
    match leader_decision(
        &key,
        app.engine.quick_open.query_is_empty,
        app.quick_open_leader_at,
        now,
        Duration::from_millis(LEADER_TIMEOUT_MILLIS),
    ) {
        LeaderVerdict::Arm => {
            app.quick_open_leader_at = Some(now);
            return none();
        },
        LeaderVerdict::Fire => {
            app.quick_open_leader_at = None;
            if key.code == KeyCode::Char('p') || key.code == KeyCode::Char('P') {
                return run(AppCommand::CloseQuickOpen);
            }
        },
        LeaderVerdict::Consume => {
            app.quick_open_leader_at = None;
        },
        LeaderVerdict::Pass => {},
    }
    palette_key(key, app)
}

fn palette_key(key: KeyEvent, app: &TuiApp) -> (r: Vec<Effect>)
    ensures
        r@ == palette_key_effects(key, *app),
{
    let visible_rows: usize = app.layout.quick_open_last_view_h as usize;
    match Keymap::resolve(InputScope::QuickOpen, &key) {
        Some(Command::PageUp) => {
            let step: i32 = page_rows(app.layout.quick_open_last_view_h);
            run(AppCommand::MoveQuickOpenSelection { delta: -step, visible_rows })
        },
        Some(Command::PageDown) => {
            let step: i32 = page_rows(app.layout.quick_open_last_view_h);
            run(AppCommand::MoveQuickOpenSelection { delta: step, visible_rows })
        },
        _ => run_then_drain(
            AppCommand::ApplyQuickOpenPickerInput {
                input: input_for_key(InputScope::QuickOpen, &key),
                visible_rows,
            },
        ),
    }
}

/// What the palette makes of a mouse event: a click outside closes it, a click on a row
/// selects it, a double click opens it, and the wheel moves the selection by three.
pub open spec fn handle_mouse_spec(mouse: MouseEvent, app: TuiApp, now: Timestamp) -> (
    TuiApp,
    Seq<Effect>,
) {
    match app.quick_open_popup_area {
        None => (app, nothing()),
        Some(popup) => {
            let inside = popup.holds(mouse.column as int, mouse.row as int);
            let is_double = is_double_spec(app.last_click, now, mouse.column, mouse.row);
            let clicked = TuiApp {
                last_click: remembered(is_double, now, mouse.column, mouse.row),
                ..app
            };
            match mouse.kind {
                MouseEventKind::Down(MouseButton::Left) => if !inside {
                    (
                        TuiApp { quick_open_leader_at: None, last_click: None, ..app },
                        run_only(AppCommand::CloseQuickOpen),
                    )
                } else {
                    match app.hit_registry.hit(mouse.column, mouse.row) {
                        Some(ClickAction::QuickOpenSelect(idx)) => {
                            let select = Effect::Run(
                                AppCommand::SelectQuickOpenMatch {
                                    idx,
                                    visible_rows: rows_in_view(app),
                                },
                            );
                            (
                                clicked,
                                if is_double {
                                    seq![select, Effect::Then(Resume::AcceptQuickOpen)]
                                } else {
                                    seq![select]
                                },
                            )
                        },
                        _ => (clicked, nothing()),
                    }
                },
                MouseEventKind::ScrollUp if inside => (
                    app,
                    run_only(
                        AppCommand::MoveQuickOpenSelection {
                            delta: (-3) as i32,
                            visible_rows: rows_in_view(app),
                        },
                    ),
                ),
                MouseEventKind::ScrollDown if inside => (
                    app,
                    run_only(
                        AppCommand::MoveQuickOpenSelection {
                            delta: 3,
                            visible_rows: rows_in_view(app),
                        },
                    ),
                ),
                _ => (app, nothing()),
            }
        },
    }
}

/// Gives a mouse event to the palette, which owns the mouse while it is open.
pub fn handle_mouse(mouse: MouseEvent, app: &mut TuiApp, now: Timestamp) -> (r: Vec<Effect>)
    ensures
        *final(app) == handle_mouse_spec(mouse, *old(app), now).0,
        r@ == handle_mouse_spec(mouse, *old(app), now).1,
{
    let popup = match app.quick_open_popup_area {
        Some(popup) => popup,
        None => return none(),
    };
    let inside = point_in_rect(popup, mouse.column, mouse.row);
    let visible_rows: usize = app.layout.quick_open_last_view_h as usize;
    match mouse.kind {
        MouseEventKind::Down(MouseButton::Left) => {
            if !inside {
                app.quick_open_leader_at = None;
                app.last_click = None;
                return run(AppCommand::CloseQuickOpen);
            }
            let is_double = is_double_click(app.last_click, now, mouse.column, mouse.row);
            let hit = app.hit_registry.hit_test(mouse.column, mouse.row);
            let effects = match hit {
                Some(ClickAction::QuickOpenSelect(idx)) => {
                    let select = Effect::Run(
                        AppCommand::SelectQuickOpenMatch { idx, visible_rows },
                    );
                    if is_double {
                        two(select, Effect::Then(Resume::AcceptQuickOpen))
                    } else {
                        one(select)
                    }
                },
                _ => none(),
            };
            app.last_click = remember_click(is_double, now, mouse.column, mouse.row);
            effects
        },
        MouseEventKind::ScrollUp => {
            if inside {
                run(AppCommand::MoveQuickOpenSelection { delta: -3, visible_rows })
            } else {
                none()
            }
        },
        MouseEventKind::ScrollDown => {
            if inside {
                run(AppCommand::MoveQuickOpenSelection { delta: 3, visible_rows })
            } else {
                none()
            }
        },
        _ => none(),
    }
}

/// Pastes into the palette's query.
pub fn handle_paste(s: String) -> (r: Vec<Effect>)
    ensures
        r@ == run_only(AppCommand::PasteQuickOpen(s)),
{
    run(AppCommand::PasteQuickOpen(s))
}

} // verus!
