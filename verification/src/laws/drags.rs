//! How far a drag that has left its panel scrolls it.

use crate::app::TuiApp;
use crate::command::{AppCommand, Effect, Resume};
use crate::engine::PreviewKind;
use crate::input::dragging::preview_cell;
use crate::input::scrolling::{diff_tick_spec, preview_tick_spec};
use crate::selection::{DiffHit, DiffSelection};
use crate::time::Timestamp;
use vstd::prelude::*;

verus! {

/// The lines that one step takes the farther the cursor is away.
pub open spec fn lines_at(rows_away: int) -> int {
    if rows_away < 3 {
        1
    } else if rows_away < 6 {
        2
    } else if rows_away < 9 {
        3
    } else {
        4
    }
}

/// Whether `to` is where a view of `rows` rows goes from `from`, when the cursor is at row `y`
/// and rows `top` to `top + height` show it: up where the cursor is above, down where it is
/// below, one step, and never out of the text.
pub open spec fn follows_cursor(
    to: int,
    from: int,
    y: int,
    top: int,
    height: int,
    rows: int,
) -> bool {
    if y < top {
        if from >= lines_at(top - y) {
            to == from - lines_at(top - y)
        } else {
            to == 0
        }
    } else if y >= top + height {
        if from + lines_at(y - (top + height) + 1) + height <= rows {
            to == from + lines_at(y - (top + height) + 1)
        } else if rows > height {
            to == rows - height
        } else {
            to == 0
        }
    } else {
        to == from
    }
}

/// A drag that has left the preview scrolls it towards the cursor, and the selection follows.
/// Where there is nothing more to scroll to, nothing happens.
pub proof fn drags_scroll_the_preview(app: TuiApp, now: Timestamp, top: u16, to: usize)
    requires
        app.preview_selection is Some && app.preview_selection->0.dragging,
        app.last_drag_mouse is Some,
        app.preview_autoscroll_at is None,
        app.layout.last_preview_view_h > 0,
        top + app.layout.last_preview_view_h <= u16::MAX,
        ({
            ||| app.engine.preview.kind == PreviewKind::Text && app.last_preview_content_origin
                is Some && (app.last_preview_content_origin->0).1 == top
            ||| app.engine.preview.kind == PreviewKind::Markdown
                && app.last_markdown_content_origin is Some && (app.last_markdown_content_origin->0).1
                == top
        }),
        follows_cursor(
            to as int,
            app.engine.preview.scroll as int,
            (app.last_drag_mouse->0).1 as int,
            top as int,
            app.layout.last_preview_view_h as int,
            app.engine.preview.row_count as int,
        ),
    ensures
        to != app.engine.preview.scroll ==> preview_tick_spec(app, now) == (
            TuiApp { preview_autoscroll_at: Some(now), ..app },
            seq![
                Effect::Run(AppCommand::SetPreviewVerticalScroll(to)),
                Effect::Then(Resume::PreviewDrag),
            ],
        ),
        to == app.engine.preview.scroll ==> preview_tick_spec(app, now) == (
            app,
            Seq::<Effect>::empty(),
        ),
{
}

/// A drag that has left the diff scrolls it towards the cursor, and what is known of the drawn
/// diff scrolls along.
pub proof fn drags_scroll_the_diff(
    app: TuiApp,
    now: Timestamp,
    selection: DiffSelection,
    hit: DiffHit,
    from: usize,
    to: usize,
)
    requires
        app.diff_selection == Some(selection),
        selection.sel.dragging,
        app.last_drag_mouse is Some,
        app.last_diff_hit == Some(hit),
        app.engine.active_diff_scroll == Some(from),
        app.diff_autoscroll_at is None,
        hit.row_count > 0,
        app.layout.last_diff_view_h > 0,
        hit.content_y + app.layout.last_diff_view_h <= u16::MAX,
        follows_cursor(
            to as int,
            from as int,
            (app.last_drag_mouse->0).1 as int,
            hit.content_y as int,
            app.layout.last_diff_view_h as int,
            hit.row_count as int,
        ),
    ensures
        to != from ==> diff_tick_spec(app, now) == (
            TuiApp {
                diff_autoscroll_at: Some(now),
                last_diff_hit: Some(DiffHit { scroll: to, ..hit }),
                ..app
            },
            seq![
                Effect::Run(AppCommand::SetActiveDiffVerticalScroll(to)),
                Effect::Then(Resume::DiffDrag),
            ],
        ),
        to == from ==> diff_tick_spec(app, now) == (app, Seq::<Effect>::empty()),
{
}

/// A cell of the screen shows the row of the text that is as far below the first row on screen
/// as the cell is below the text's upper edge, and the last row below that; the same holds of
/// the columns. Without a text there is nothing under it.
pub proof fn cells_show_the_preview(app: TuiApp, origin: (u16, u16), col: u16, row: u16)
    requires
        origin.0 <= col,
        origin.1 <= row,
        ({
            ||| app.engine.preview.kind == PreviewKind::Text && app.last_preview_content_origin
                is Some && (app.last_preview_content_origin->0).0 == origin.0
                && (app.last_preview_content_origin->0).1 == origin.1
            ||| app.engine.preview.kind == PreviewKind::Markdown
                && app.last_markdown_content_origin == Some(origin)
        }),
    ensures
        app.engine.preview.row_count == 0 ==> preview_cell(app, col, row) is None,
        app.engine.preview.row_count > 0 ==> preview_cell(app, col, row) is Some,
        ({
            let below = app.engine.preview.scroll + (row - origin.1);
            let across = app.engine.preview.h_scroll + (col - origin.0);
            &&& below < app.engine.preview.row_count ==> preview_cell(app, col, row) == Some(
                (below, across),
            )
            &&& 0 < app.engine.preview.row_count <= below ==> preview_cell(app, col, row) == Some(
                (app.engine.preview.row_count - 1, across),
            )
        }),
{
}

/// What is no text has no cell.
pub proof fn pictures_have_no_cells(app: TuiApp, col: u16, row: u16)
    requires
        app.engine.preview.kind != PreviewKind::Text,
        app.engine.preview.kind != PreviewKind::Markdown,
    ensures
        preview_cell(app, col, row) is None,
{
}

} // verus!
