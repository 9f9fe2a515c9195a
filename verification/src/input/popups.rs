//! The mouse over the pickers, and while dropped files wait for a destination.

use crate::app::TuiApp;
use crate::command::{
    join, none, nothing, run, run_and_drain, run_only, run_then_drain, AppCommand, Effect,
};
use crate::event::{MouseButton, MouseEvent, MouseEventKind};
use crate::geometry::{point_in_rect, Rect};
use crate::input::scrolling::{signed, signed_step};
use crate::selection::{is_double_click, is_double_spec, remember_click, remembered};
use crate::time::Timestamp;
use crate::ui::mouse::ClickAction;
use vstd::prelude::*;

verus! {

/// The two pickers that look alike.
#[derive(Clone, Copy, Debug, PartialEq, Eq, Structural)]
pub enum Picker {
    Hosts,
    Branches,
}

impl Picker {
    /// Where the picker was drawn.
    #[verifier::allow_in_spec]
    pub fn area(self, app: &TuiApp) -> Option<Rect>
        returns
            (match self {
                Picker::Hosts => app.hosts_picker_popup_area,
                Picker::Branches => app.graph_branch_picker_popup_area,
            }),
    {
        match self {
            Picker::Hosts => app.hosts_picker_popup_area,
            Picker::Branches => app.graph_branch_picker_popup_area,
        }
    }

    /// The row of this picker that a zone stands for.
    pub open spec fn row_of(self, action: Option<ClickAction>) -> Option<usize> {
        match (self, action) {
            (Picker::Hosts, Some(ClickAction::HostsPickerSelect(idx))) => Some(idx),
            (Picker::Branches, Some(ClickAction::GraphBranchPickerSelect(idx))) => Some(idx),
            _ => None,
        }
    }

    pub open spec fn close_effects(self) -> Seq<Effect> {
        match self {
            Picker::Hosts => run_only(AppCommand::CloseHostsPicker),
            Picker::Branches => run_only(AppCommand::CloseGraphBranchPicker),
        }
    }

    pub open spec fn select_effects(self, idx: usize) -> Seq<Effect> {
        match self {
            Picker::Hosts => run_only(AppCommand::SelectHostsPickerRow(idx)),
            Picker::Branches => run_only(
                AppCommand::SelectGraphBranchPickerRow { idx, visible_rows: 0 },
            ),
        }
    }

    pub open spec fn confirm_effects(self) -> Seq<Effect> {
        match self {
            Picker::Hosts => run_and_drain(AppCommand::ConfirmHostsPicker),
            Picker::Branches => run_and_drain(AppCommand::ConfirmGraphBranchPicker),
        }
    }

    pub open spec fn move_effects(self, delta: i32) -> Seq<Effect> {
        match self {
            Picker::Hosts => run_only(AppCommand::MoveHostsPickerSelection(delta)),
            Picker::Branches => run_only(
                AppCommand::MoveGraphBranchPickerSelection { delta, visible_rows: 0 },
            ),
        }
    }

    fn close(self) -> (r: Vec<Effect>)
        ensures
            r@ == self.close_effects(),
    {
        match self {
            Picker::Hosts => run(AppCommand::CloseHostsPicker),
            Picker::Branches => run(AppCommand::CloseGraphBranchPicker),
        }
    }

    fn select(self, idx: usize) -> (r: Vec<Effect>)
        ensures
            r@ == self.select_effects(idx),
    {
        match self {
            Picker::Hosts => run(AppCommand::SelectHostsPickerRow(idx)),
            Picker::Branches => run(
                AppCommand::SelectGraphBranchPickerRow { idx, visible_rows: 0 },
            ),
        }
    }

    fn confirm(self) -> (r: Vec<Effect>)
        ensures
            r@ == self.confirm_effects(),
    {
        match self {
            Picker::Hosts => run_then_drain(AppCommand::ConfirmHostsPicker),
            Picker::Branches => run_then_drain(AppCommand::ConfirmGraphBranchPicker),
        }
    }

    fn move_by(self, delta: i32) -> (r: Vec<Effect>)
        ensures
            r@ == self.move_effects(delta),
    {
        match self {
            Picker::Hosts => run(AppCommand::MoveHostsPickerSelection(delta)),
            Picker::Branches => run(
                AppCommand::MoveGraphBranchPickerSelection { delta, visible_rows: 0 },
            ),
        }
    }

    fn picked_row(self, action: Option<ClickAction>) -> (r: Option<usize>)
        ensures
            r == self.row_of(action),
    {
        match (self, action) {
            (Picker::Hosts, Some(ClickAction::HostsPickerSelect(idx))) => Some(idx),
            (Picker::Branches, Some(ClickAction::GraphBranchPickerSelect(idx))) => Some(idx),
            _ => None,
        }
    }
}

/// What a picker makes of a mouse event: a click outside closes it, a click on a row
/// selects it, a double click takes it, and the wheel moves the selection.
pub open spec fn picker_mouse_spec(picker: Picker, mouse: MouseEvent, app: TuiApp, now: Timestamp) -> (
    TuiApp,
    Seq<Effect>,
) {
    match picker.area(&app) {
        None => (app, nothing()),
        Some(popup) => {
            let inside = popup.holds(mouse.column as int, mouse.row as int);
            let is_double = is_double_spec(app.last_click, now, mouse.column, mouse.row);
            let clicked = TuiApp {
                last_click: remembered(is_double, now, mouse.column, mouse.row),
                ..app
            };
            let paced = TuiApp {
                vertical_scroll_pacer: app.vertical_scroll_pacer.stepped(now),
                ..app
            };
            let lines = app.vertical_scroll_pacer.step_size(now);
            match mouse.kind {
                MouseEventKind::Down(MouseButton::Left) => if !inside {
                    (TuiApp { last_click: None, ..app }, picker.close_effects())
                } else {
                    match picker.row_of(app.hit_registry.hit(mouse.column, mouse.row)) {
                        Some(idx) => (
                            clicked,
                            if is_double {
                                picker.select_effects(idx) + picker.confirm_effects()
                            } else {
                                picker.select_effects(idx)
                            },
                        ),
                        None => (clicked, nothing()),
                    }
                },
                MouseEventKind::ScrollUp if inside => (
                    paced,
                    picker.move_effects(signed(true, lines)),
                ),
                MouseEventKind::ScrollDown if inside => (
                    paced,
                    picker.move_effects(signed(false, lines)),
                ),
                _ => (app, nothing()),
            }
        },
    }
}

fn picker_mouse(picker: Picker, mouse: MouseEvent, app: &mut TuiApp, now: Timestamp) -> (r: Vec<
    Effect,
>)
    ensures
        *final(app) == picker_mouse_spec(picker, mouse, *old(app), now).0,
        r@ == picker_mouse_spec(picker, mouse, *old(app), now).1,
{
    let popup = match picker.area(app) {
        Some(popup) => popup,
        None => return none(),
    };
    let inside = point_in_rect(popup, mouse.column, mouse.row);
    match mouse.kind {
        MouseEventKind::Down(MouseButton::Left) => {
            if !inside {
                app.last_click = None;
                return picker.close();
            }
            let is_double = is_double_click(app.last_click, now, mouse.column, mouse.row);
            let row = picker.picked_row(app.hit_registry.hit_test(mouse.column, mouse.row));
            app.last_click = remember_click(is_double, now, mouse.column, mouse.row);
            match row {
                Some(idx) => {
                    if is_double {
                        join(picker.select(idx), picker.confirm())
                    } else {
                        picker.select(idx)
                    }
                },
                None => none(),
            }
        },
        MouseEventKind::ScrollUp => {
            if !inside {
                return none();
            }
            let step: usize = app.vertical_scroll_pacer.step_at(now);
            picker.move_by(signed_step(true, step))
        },
        MouseEventKind::ScrollDown => {
            if !inside {
                return none();
            }
            let step: usize = app.vertical_scroll_pacer.step_at(now);
            picker.move_by(signed_step(false, step))
        },
        _ => none(),
    }
}

/// Gives a mouse event to the hosts picker.
pub fn handle_mouse_hosts_picker(mouse: MouseEvent, app: &mut TuiApp, now: Timestamp) -> (r: Vec<
    Effect,
>)
    ensures
        *final(app) == picker_mouse_spec(Picker::Hosts, mouse, *old(app), now).0,
        r@ == picker_mouse_spec(Picker::Hosts, mouse, *old(app), now).1,
{
    picker_mouse(Picker::Hosts, mouse, app, now)
}

/// Gives a mouse event to the graph's branch picker.
pub fn handle_mouse_graph_branch_picker(mouse: MouseEvent, app: &mut TuiApp, now: Timestamp) -> (r:
    Vec<Effect>)
    ensures
        *final(app) == picker_mouse_spec(Picker::Branches, mouse, *old(app), now).0,
        r@ == picker_mouse_spec(Picker::Branches, mouse, *old(app), now).1,
{
    picker_mouse(Picker::Branches, mouse, app, now)
}

/// What a click does while dropped files wait for a destination: on a folder or the root
/// it is the destination, anywhere else it calls the whole thing off.
pub open spec fn place_click_effects(app: TuiApp, hit: Option<ClickAction>) -> Seq<Effect> {
    match hit {
        Some(ClickAction::PlaceModeFolder(idx)) => app.action_effects(
            ClickAction::PlaceModeFolder(idx),
        ),
        Some(ClickAction::PlaceModeRoot) => app.action_effects(ClickAction::PlaceModeRoot),
        _ => run_only(AppCommand::ExitPlaceMode),
    }
}

/// What a mouse event does while dropped files wait for a destination.
pub open spec fn place_mouse_spec(mouse: MouseEvent, app: TuiApp, now: Timestamp) -> (
    TuiApp,
    Seq<Effect>,
) {
    let paced = TuiApp { vertical_scroll_pacer: app.vertical_scroll_pacer.stepped(now), ..app };
    let lines = app.vertical_scroll_pacer.step_size(now);
    match mouse.kind {
        MouseEventKind::Moved => (
            TuiApp { hover_row: Some(mouse.row), hover_col: Some(mouse.column), ..app },
            nothing(),
        ),
        MouseEventKind::Down(MouseButton::Left) => (
            app,
            place_click_effects(app, app.hit_registry.hit(mouse.column, mouse.row)),
        ),
        MouseEventKind::Down(MouseButton::Right) => (app, run_only(AppCommand::ExitPlaceMode)),
        MouseEventKind::ScrollUp => (
            paced,
            run_only(AppCommand::ScrollFileTree(signed(true, lines))),
        ),
        MouseEventKind::ScrollDown => (
            paced,
            run_only(AppCommand::ScrollFileTree(signed(false, lines))),
        ),
        _ => (app, nothing()),
    }
}

/// Gives a mouse event to the dropped files that wait for a destination.
pub fn handle_mouse_place_mode(mouse: MouseEvent, app: &mut TuiApp, now: Timestamp) -> (r: Vec<
    Effect,
>)
    ensures
        *final(app) == place_mouse_spec(mouse, *old(app), now).0,
        r@ == place_mouse_spec(mouse, *old(app), now).1,
{
    match mouse.kind {
        MouseEventKind::Moved => {
            app.hover_row = Some(mouse.row);
            app.hover_col = Some(mouse.column);
            none()
        },
        MouseEventKind::Down(MouseButton::Left) => {
            match app.hit_registry.hit_test(mouse.column, mouse.row) {
                Some(ClickAction::PlaceModeFolder(idx)) => app.handle_action(
                    ClickAction::PlaceModeFolder(idx),
                ),
                Some(ClickAction::PlaceModeRoot) => app.handle_action(ClickAction::PlaceModeRoot),
                _ => app.exit_place_mode(),
            }
        },
        MouseEventKind::Down(MouseButton::Right) => app.exit_place_mode(),
        MouseEventKind::ScrollUp => {
            let step: usize = app.vertical_scroll_pacer.step_at(now);
            run(AppCommand::ScrollFileTree(signed_step(true, step)))
        },
        MouseEventKind::ScrollDown => {
            let step: usize = app.vertical_scroll_pacer.step_at(now);
            run(AppCommand::ScrollFileTree(signed_step(false, step)))
        },
        _ => none(),
    }
}

/// While dropped files wait for a destination, a click can only name one or call it
/// off: nothing else that is drawn underneath reacts.
pub proof fn dropped_files_go_nowhere_else(mouse: MouseEvent, app: TuiApp, now: Timestamp)
    requires
        mouse.kind == MouseEventKind::Down(MouseButton::Left),
    ensures
        ({
            let effects = place_mouse_spec(mouse, app, now).1;
            ||| effects == run_only(AppCommand::ExitPlaceMode)
            ||| exists|idx: usize|
                effects == #[trigger] app.action_effects(ClickAction::PlaceModeFolder(idx))
            ||| effects == app.action_effects(ClickAction::PlaceModeRoot)
        }),
{
}

} // verus!
