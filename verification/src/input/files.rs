//! Keys of the Files tab.

use crate::app::tree::{begin_rename, rename_effects};
use crate::app::TuiApp;
use crate::command::{join, none, nothing, run, run_and_drain, run_only, AppCommand, DbNav, Effect};
use crate::engine::{Panel, PreviewKind};
use crate::event::{KeyCode, KeyEvent};
use crate::input::moves::{
    is_plain, list_move, list_move_spec, move_rows, pan_columns, pan_step, rows_of, ListMove,
};
use vstd::prelude::*;

verus! {

/// What the tree's clipboard and selection keys do on the Files tab, or nothing where
/// the key is none of them. Escape clears the selection and counts only where there was
/// one.
pub open spec fn clipboard_key_effects(key: KeyEvent, app: TuiApp) -> (Seq<Effect>, bool) {
    let ctrl = key.modifiers.control;
    let alt = key.modifiers.alt;
    let shift = key.modifiers.shift;
    let copy = run_only(AppCommand::MarkCopy(app.action_set()));
    let cut = run_only(AppCommand::MarkCut(app.action_set()));
    let paste = run_and_drain(AppCommand::PasteInto(app.paste_dest_spec()));
    match key.code {
        KeyCode::Char(c) => if is_plain(key) && c == 'y' {
            (copy, true)
        } else if is_plain(key) && c == 'x' {
            (cut, true)
        } else if is_plain(key) && c == 'p' {
            (paste, true)
        } else if ctrl && shift && (c == 'c' || c == 'C') {
            (copy, true)
        } else if ctrl && shift && (c == 'x' || c == 'X') {
            (cut, true)
        } else if ctrl && shift && (c == 'v' || c == 'V') {
            (paste, true)
        } else if c == 'D' && !ctrl && !alt {
            (run_and_drain(AppCommand::DuplicateSelection), true)
        } else if is_plain(key) && c == 's' {
            (run_only(AppCommand::ToggleCurrentFileSelection), true)
        } else {
            (nothing(), false)
        },
        KeyCode::Up => if shift && !ctrl && !alt {
            (run_only(AppCommand::ExtendFileSelectionAfterTreeNav((-1) as i32)), true)
        } else {
            (nothing(), false)
        },
        KeyCode::Down => if shift && !ctrl && !alt {
            (run_only(AppCommand::ExtendFileSelectionAfterTreeNav(1)), true)
        } else {
            (nothing(), false)
        },
        KeyCode::Esc => (
            run_only(AppCommand::ClearFileSelection),
            app.engine.tree.selection@.len() > 0,
        ),
        _ => (nothing(), false),
    }
}

/// The tree's clipboard and selection keys. The flag tells whether the key is done.
pub fn handle_key_files_clipboard(key: KeyEvent, app: &TuiApp) -> (r: (Vec<Effect>, bool))
    ensures
        r.0@ == clipboard_key_effects(key, *app).0,
        r.1 == clipboard_key_effects(key, *app).1,
{
    let ctrl = key.modifiers.control;
    let alt = key.modifiers.alt;
    let shift = key.modifiers.shift;
    let plain = !ctrl && !alt && !shift;
    match key.code {
        KeyCode::Char('y') if plain => (app.mark_copy(app.effective_path_set()), true),
        KeyCode::Char('x') if plain => (app.mark_cut(app.effective_path_set()), true),
        KeyCode::Char('p') if plain => (
            app.paste_into(app.paste_dest()),
            true,
        ),
        KeyCode::Char('c') if ctrl && shift => (
            app.mark_copy(app.effective_path_set()),
            true,
        ),
        KeyCode::Char('C') if ctrl && shift => (
            app.mark_copy(app.effective_path_set()),
            true,
        ),
        KeyCode::Char('x') if ctrl && shift => (
            app.mark_cut(app.effective_path_set()),
            true,
        ),
        KeyCode::Char('X') if ctrl && shift => (
            app.mark_cut(app.effective_path_set()),
            true,
        ),
        KeyCode::Char('v') if ctrl && shift => (
            app.paste_into(app.paste_dest()),
            true,
        ),
        KeyCode::Char('V') if ctrl && shift => (
            app.paste_into(app.paste_dest()),
            true,
        ),
        KeyCode::Char('D') if !ctrl && !alt => (
            app.duplicate_selection(),
            true,
        ),
        KeyCode::Char('s') if plain => (run(AppCommand::ToggleCurrentFileSelection), true),
        KeyCode::Up if shift && !ctrl && !alt => (
            run(AppCommand::ExtendFileSelectionAfterTreeNav(-1)),
            true,
        ),
        KeyCode::Down if shift && !ctrl && !alt => (
            run(AppCommand::ExtendFileSelectionAfterTreeNav(1)),
            true,
        ),
        KeyCode::Esc => (
            run(AppCommand::ClearFileSelection),
            !app.engine.tree.selection.is_empty(),
        ),
        _ => (none(), false),
    }
}

/// What the other keys do on the Files tab.
pub open spec fn files_nav_effects(key: KeyEvent, app: TuiApp) -> Seq<Effect> {
    let ctrl = key.modifiers.control;
    let on_tree = app.engine.active_panel == Panel::Files;
    let on_preview = app.engine.active_panel == Panel::Diff;
    let database = app.engine.preview.kind == PreviewKind::Database;
    match list_move_spec(key) {
        Some(by) => if on_tree {
            run_only(AppCommand::NavigateFileTree(rows_of(by, 10)))
        } else if database && by == ListMove::PageUp {
            run_only(AppCommand::DbNavigate(DbNav::PrevPage))
        } else if database && by == ListMove::PageDown {
            run_only(AppCommand::DbNavigate(DbNav::NextPage))
        } else {
            run_only(AppCommand::PreviewScroll(rows_of(by, 20)))
        },
        None => match key.code {
            KeyCode::Char('[') => if !ctrl && on_preview && database {
                run_only(AppCommand::DbNavigate(DbNav::PrevTable))
            } else {
                nothing()
            },
            KeyCode::Char(']') => if !ctrl && on_preview && database {
                run_only(AppCommand::DbNavigate(DbNav::NextTable))
            } else {
                nothing()
            },
            KeyCode::Char('g') => if !ctrl && on_preview && database {
                run_only(AppCommand::OpenDbGoto)
            } else {
                nothing()
            },
            KeyCode::Left => if on_preview {
                run_only(AppCommand::PreviewHorizontalScroll((-pan_step(key)) as i32))
            } else {
                nothing()
            },
            KeyCode::Right => if on_preview {
                run_only(AppCommand::PreviewHorizontalScroll(pan_step(key) as i32))
            } else {
                nothing()
            },
            KeyCode::Home => if on_preview && !ctrl {
                run_only(AppCommand::SetPreviewHorizontalScroll(0))
            } else if on_preview && database {
                run_only(AppCommand::DbNavigate(DbNav::FirstPage))
            } else {
                nothing()
            },
            KeyCode::End => if on_preview && !ctrl {
                run_only(AppCommand::SetPreviewHorizontalScroll(usize::MAX))
            } else if on_preview && database {
                run_only(AppCommand::DbNavigate(DbNav::LastPage))
            } else {
                nothing()
            },
            KeyCode::Enter => run_only(AppCommand::ActivateSelectedFileTreeEntry),
            KeyCode::Char('r') => run_only(AppCommand::RefreshFileTree),
            KeyCode::Char('e') => run_only(AppCommand::RequestEditSelectedFileTreeEntry),
            KeyCode::F(2) => {
                let tree = app.engine.tree;
                if tree.selected < tree.entries@.len() {
                    rename_effects(tree.entries@[tree.selected as int], tree.selected)
                } else {
                    nothing()
                }
            },
            KeyCode::Delete => app.delete_selected_effects(key.modifiers.shift),
            KeyCode::Backspace => app.delete_selected_effects(key.modifiers.shift),
            KeyCode::Char('d') => if is_plain(key) {
                app.delete_selected_effects(false)
            } else {
                nothing()
            },
            _ => nothing(),
        },
    }
}

/// What a key does on the Files tab.
pub open spec fn files_key_effects(key: KeyEvent, app: TuiApp) -> Seq<Effect> {
    let (clipboard, done) = clipboard_key_effects(key, app);
    if app.engine.active_panel != Panel::Files {
        files_nav_effects(key, app)
    } else if done {
        clipboard
    } else {
        clipboard + files_nav_effects(key, app)
    }
}

/// Gives a key to the Files tab.
pub fn handle_key_files(key: KeyEvent, app: &TuiApp) -> (r: Vec<Effect>)
    ensures
        r@ == files_key_effects(key, *app),
{
    if app.engine.active_panel == Panel::Files {
        let (clipboard, done) = handle_key_files_clipboard(key, app);
        if done {
            return clipboard;
        }
        return join(clipboard, files_nav(key, app));
    }
    files_nav(key, app)
}

fn files_nav(key: KeyEvent, app: &TuiApp) -> (r: Vec<Effect>)
    ensures
        r@ == files_nav_effects(key, *app),
{
    let ctrl = key.modifiers.control;
    let on_preview = app.engine.active_panel == Panel::Diff;
    let database = app.engine.preview.kind == PreviewKind::Database;
    if let Some(by) = list_move(&key) {
        if app.engine.active_panel == Panel::Files {
            return run(AppCommand::NavigateFileTree(move_rows(by, 10)));
        }
        if database && by == ListMove::PageUp {
            return app.db_navigate(DbNav::PrevPage);
        }
        if database && by == ListMove::PageDown {
            return app.db_navigate(DbNav::NextPage);
        }
        return run(AppCommand::PreviewScroll(move_rows(by, 20)));
    }
    match key.code {
        KeyCode::Char('[') if !ctrl && on_preview && database => app.db_navigate(DbNav::PrevTable),
        KeyCode::Char(']') if !ctrl && on_preview && database => app.db_navigate(DbNav::NextTable),
        KeyCode::Char('g') if !ctrl && on_preview && database => run(AppCommand::OpenDbGoto),
        KeyCode::Left if on_preview => run(
            AppCommand::PreviewHorizontalScroll(-pan_columns(&key)),
        ),
        KeyCode::Right if on_preview => run(
            AppCommand::PreviewHorizontalScroll(pan_columns(&key)),
        ),
        KeyCode::Home if on_preview && !ctrl => run(AppCommand::SetPreviewHorizontalScroll(0)),
        KeyCode::End if on_preview && !ctrl => run(
            AppCommand::SetPreviewHorizontalScroll(usize::MAX),
        ),
        KeyCode::Home if ctrl && on_preview && database => app.db_navigate(DbNav::FirstPage),
        KeyCode::End if ctrl && on_preview && database => app.db_navigate(DbNav::LastPage),
        KeyCode::Enter => run(AppCommand::ActivateSelectedFileTreeEntry),
        KeyCode::Char('r') => app.refresh_file_tree(),
        KeyCode::Char('e') => run(AppCommand::RequestEditSelectedFileTreeEntry),
        KeyCode::F(2) => {
            let idx: usize = app.engine.tree.selected;
            if idx < app.engine.tree.entries.len() {
                begin_rename(&app.engine.tree.entries[idx], idx)
            } else {
                none()
            }
        },
        KeyCode::Delete => app.prompt_delete_selected(key.modifiers.shift),
        KeyCode::Backspace => app.prompt_delete_selected(key.modifiers.shift),
        KeyCode::Char('d') if !ctrl && !key.modifiers.alt && !key.modifiers.shift =>
            app.prompt_delete_selected(false),
        _ => none(),
    }
}

} // verus!
