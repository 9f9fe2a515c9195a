//! What every bound key means, scope by scope.

use crate::event::{KeyCode, KeyEvent};
use crate::keymap::{
    lemma_bound, lemma_chord_bound, lemma_chord_missing, lemma_unbound, resolved, resolved_chord,
    Command, InputScope,
};
use crate::laws::held::{alt, alt_shift, ctrl, ctrl_alt, ctrl_shift, plain, shift};
use vstd::prelude::*;

verus! {

/// What a key means outside of every overlay.
#[verifier::rlimit(60)]
pub proof fn keys_of_normal(key: KeyEvent)
    ensures
        resolved(InputScope::Normal, key) == (if key == ctrl(KeyCode::Char('c')) {
            Some(Command::Quit)
        } else if key == plain(KeyCode::Char('q')) {
            Some(Command::Quit)
        } else if key == plain(KeyCode::Char('h')) {
            Some(Command::OpenHelp)
        } else if key == ctrl(KeyCode::Char('b')) {
            Some(Command::ToggleSidebar)
        } else if key == ctrl(KeyCode::Char(',')) {
            Some(Command::OpenSettings)
        } else if key == ctrl(KeyCode::Char('o')) {
            Some(Command::OpenHostsPicker)
        } else if key == alt(KeyCode::Left) {
            Some(Command::LocationBack)
        } else if key == alt(KeyCode::Right) {
            Some(Command::LocationForward)
        } else if key == ctrl_alt(KeyCode::Left) {
            Some(Command::LocationBack)
        } else if key == ctrl_alt(KeyCode::Right) {
            Some(Command::LocationForward)
        } else if key == plain(KeyCode::Char('/')) {
            Some(Command::BeginSearchForward)
        } else if key == plain(KeyCode::Char('?')) {
            Some(Command::BeginSearchBackward)
        } else if key == plain(KeyCode::Char('n')) {
            Some(Command::NextSearchMatch)
        } else if key == plain(KeyCode::Char('N')) {
            Some(Command::PrevSearchMatch)
        } else if key == shift(KeyCode::Char('N')) {
            Some(Command::PrevSearchMatch)
        } else if key == plain(KeyCode::Tab) {
            Some(Command::CyclePanelForward)
        } else if key == shift(KeyCode::BackTab) {
            Some(Command::CyclePanelBackward)
        } else if key == ctrl(KeyCode::Tab) {
            Some(Command::SwitchTab(usize::MAX))
        } else if key == plain(KeyCode::Char('1')) {
            Some(Command::SwitchTab(0))
        } else if key == plain(KeyCode::Char('2')) {
            Some(Command::SwitchTab(1))
        } else if key == plain(KeyCode::Char('3')) {
            Some(Command::SwitchTab(2))
        } else if key == plain(KeyCode::Char('4')) {
            Some(Command::SwitchTab(3))
        } else if key == plain(KeyCode::Char('G')) {
            Some(Command::ScrollBottom)
        } else if key == shift(KeyCode::Char('G')) {
            Some(Command::ScrollBottom)
        } else {
            None
        }),
{
    let scope = InputScope::Normal;
    if key == ctrl(KeyCode::Char('c')) {
        lemma_bound(scope, 0);
    } else if key == plain(KeyCode::Char('q')) {
        lemma_bound(scope, 1);
    } else if key == plain(KeyCode::Char('h')) {
        lemma_bound(scope, 2);
    } else if key == ctrl(KeyCode::Char('b')) {
        lemma_bound(scope, 3);
    } else if key == ctrl(KeyCode::Char(',')) {
        lemma_bound(scope, 4);
    } else if key == ctrl(KeyCode::Char('o')) {
        lemma_bound(scope, 5);
    } else if key == alt(KeyCode::Left) {
        lemma_bound(scope, 6);
    } else if key == alt(KeyCode::Right) {
        lemma_bound(scope, 7);
    } else if key == ctrl_alt(KeyCode::Left) {
        lemma_bound(scope, 8);
    } else if key == ctrl_alt(KeyCode::Right) {
        lemma_bound(scope, 9);
    } else if key == plain(KeyCode::Char('/')) {
        lemma_bound(scope, 10);
    } else if key == plain(KeyCode::Char('?')) {
        lemma_bound(scope, 11);
    } else if key == plain(KeyCode::Char('n')) {
        lemma_bound(scope, 12);
    } else if key == plain(KeyCode::Char('N')) {
        lemma_bound(scope, 13);
    } else if key == shift(KeyCode::Char('N')) {
        lemma_bound(scope, 14);
    } else if key == plain(KeyCode::Tab) {
        lemma_bound(scope, 15);
    } else if key == shift(KeyCode::BackTab) {
        lemma_bound(scope, 16);
    } else if key == ctrl(KeyCode::Tab) {
        lemma_bound(scope, 17);
    } else if key == plain(KeyCode::Char('1')) {
        lemma_bound(scope, 18);
    } else if key == plain(KeyCode::Char('2')) {
        lemma_bound(scope, 19);
    } else if key == plain(KeyCode::Char('3')) {
        lemma_bound(scope, 20);
    } else if key == plain(KeyCode::Char('4')) {
        lemma_bound(scope, 21);
    } else if key == plain(KeyCode::Char('G')) {
        lemma_bound(scope, 35);
    } else if key == shift(KeyCode::Char('G')) {
        lemma_bound(scope, 36);
    } else {
        lemma_unbound(scope, key);
    }
}

/// What a key means after Space.
#[verifier::rlimit(60)]
pub proof fn keys_after_space(key: KeyEvent)
    ensures
        resolved_chord(InputScope::Normal, KeyCode::Char(' '), key) == (if key == plain(KeyCode::Char('p')) {
            Some(Command::OpenQuickOpen)
        } else if key == plain(KeyCode::Char('P')) {
            Some(Command::OpenQuickOpen)
        } else if key == shift(KeyCode::Char('P')) {
            Some(Command::OpenQuickOpen)
        } else if key == plain(KeyCode::Char('f')) {
            Some(Command::OpenFindWidget)
        } else if key == plain(KeyCode::Char('F')) {
            Some(Command::OpenGlobalSearch)
        } else if key == shift(KeyCode::Char('F')) {
            Some(Command::OpenGlobalSearch)
        } else if key == plain(KeyCode::Char('h')) {
            Some(Command::OpenGlobalReplace)
        } else if key == plain(KeyCode::Char('H')) {
            Some(Command::OpenGlobalReplace)
        } else if key == shift(KeyCode::Char('H')) {
            Some(Command::OpenGlobalReplace)
        } else if key == plain(KeyCode::Char('v')) {
            Some(Command::ToggleFocusedPreview)
        } else if key == shift(KeyCode::Char('V')) {
            Some(Command::ToggleFocusedPreview)
        } else if key == plain(KeyCode::Char('V')) {
            Some(Command::ToggleFocusedPreview)
        } else {
            None
        }),
{
    let scope = InputScope::Normal;
    if key == plain(KeyCode::Char('p')) {
        lemma_chord_bound(scope, 22);
    } else if key == plain(KeyCode::Char('P')) {
        lemma_chord_bound(scope, 23);
    } else if key == shift(KeyCode::Char('P')) {
        lemma_chord_bound(scope, 24);
    } else if key == plain(KeyCode::Char('f')) {
        lemma_chord_bound(scope, 25);
    } else if key == plain(KeyCode::Char('F')) {
        lemma_chord_bound(scope, 26);
    } else if key == shift(KeyCode::Char('F')) {
        lemma_chord_bound(scope, 27);
    } else if key == plain(KeyCode::Char('h')) {
        lemma_chord_bound(scope, 28);
    } else if key == plain(KeyCode::Char('H')) {
        lemma_chord_bound(scope, 29);
    } else if key == shift(KeyCode::Char('H')) {
        lemma_chord_bound(scope, 30);
    } else if key == plain(KeyCode::Char('v')) {
        lemma_chord_bound(scope, 31);
    } else if key == shift(KeyCode::Char('V')) {
        lemma_chord_bound(scope, 32);
    } else if key == plain(KeyCode::Char('V')) {
        lemma_chord_bound(scope, 33);
    } else {
        lemma_chord_missing(scope, KeyCode::Char(' '), key);
    }
}

/// What a key means after `g`.
#[verifier::rlimit(60)]
pub proof fn keys_after_g(key: KeyEvent)
    ensures
        resolved_chord(InputScope::Normal, KeyCode::Char('g'), key) == (if key == plain(KeyCode::Char('g')) {
            Some(Command::ScrollTop)
        } else if key == plain(KeyCode::Char('d')) {
            Some(Command::GotoDefinition)
        } else if key == plain(KeyCode::Char('r')) {
            Some(Command::FindReferences)
        } else {
            None
        }),
{
    let scope = InputScope::Normal;
    if key == plain(KeyCode::Char('g')) {
        lemma_chord_bound(scope, 34);
    } else if key == plain(KeyCode::Char('d')) {
        lemma_chord_bound(scope, 37);
    } else if key == plain(KeyCode::Char('r')) {
        lemma_chord_bound(scope, 38);
    } else {
        lemma_chord_missing(scope, KeyCode::Char('g'), key);
    }
}

/// What a key means while a preview has the whole screen.
#[verifier::rlimit(60)]
pub proof fn keys_of_focused_preview(key: KeyEvent)
    ensures
        resolved(InputScope::FocusedPreview, key) == (if key == plain(KeyCode::Esc) {
            Some(Command::Close)
        } else if key == plain(KeyCode::Char('q')) {
            Some(Command::Quit)
        } else if key == ctrl(KeyCode::Char('c')) {
            Some(Command::Quit)
        } else {
            None
        }),
{
    let scope = InputScope::FocusedPreview;
    if key == plain(KeyCode::Esc) {
        lemma_bound(scope, 0);
    } else if key == plain(KeyCode::Char('q')) {
        lemma_bound(scope, 1);
    } else if key == ctrl(KeyCode::Char('c')) {
        lemma_bound(scope, 2);
    } else {
        lemma_unbound(scope, key);
    }
}

/// What a key means on the settings page.
#[verifier::rlimit(60)]
pub proof fn keys_of_settings(key: KeyEvent)
    ensures
        resolved(InputScope::Settings, key) == (if key == plain(KeyCode::Esc) {
            Some(Command::Close)
        } else if key == plain(KeyCode::Char('q')) {
            Some(Command::Quit)
        } else if key == ctrl(KeyCode::Char('c')) {
            Some(Command::Quit)
        } else if key == plain(KeyCode::Up) {
            Some(Command::MoveUp)
        } else if key == plain(KeyCode::Char('k')) {
            Some(Command::MoveUp)
        } else if key == ctrl(KeyCode::Char('p')) {
            Some(Command::MoveUp)
        } else if key == plain(KeyCode::Down) {
            Some(Command::MoveDown)
        } else if key == plain(KeyCode::Char('j')) {
            Some(Command::MoveDown)
        } else if key == ctrl(KeyCode::Char('n')) {
            Some(Command::MoveDown)
        } else if key == plain(KeyCode::PageUp) {
            Some(Command::ScrollTop)
        } else if key == plain(KeyCode::Home) {
            Some(Command::ScrollTop)
        } else if key == plain(KeyCode::PageDown) {
            Some(Command::ScrollBottom)
        } else if key == plain(KeyCode::End) {
            Some(Command::ScrollBottom)
        } else if key == plain(KeyCode::Enter) {
            Some(Command::Confirm)
        } else if key == plain(KeyCode::Char(' ')) {
            Some(Command::Confirm)
        } else {
            None
        }),
{
    let scope = InputScope::Settings;
    if key == plain(KeyCode::Esc) {
        lemma_bound(scope, 0);
    } else if key == plain(KeyCode::Char('q')) {
        lemma_bound(scope, 1);
    } else if key == ctrl(KeyCode::Char('c')) {
        lemma_bound(scope, 2);
    } else if key == plain(KeyCode::Up) {
        lemma_bound(scope, 3);
    } else if key == plain(KeyCode::Char('k')) {
        lemma_bound(scope, 4);
    } else if key == ctrl(KeyCode::Char('p')) {
        lemma_bound(scope, 5);
    } else if key == plain(KeyCode::Down) {
        lemma_bound(scope, 6);
    } else if key == plain(KeyCode::Char('j')) {
        lemma_bound(scope, 7);
    } else if key == ctrl(KeyCode::Char('n')) {
        lemma_bound(scope, 8);
    } else if key == plain(KeyCode::PageUp) {
        lemma_bound(scope, 9);
    } else if key == plain(KeyCode::Home) {
        lemma_bound(scope, 10);
    } else if key == plain(KeyCode::PageDown) {
        lemma_bound(scope, 11);
    } else if key == plain(KeyCode::End) {
        lemma_bound(scope, 12);
    } else if key == plain(KeyCode::Enter) {
        lemma_bound(scope, 13);
    } else if key == plain(KeyCode::Char(' ')) {
        lemma_bound(scope, 14);
    } else {
        lemma_unbound(scope, key);
    }
}

/// What a key means in quick open.
#[verifier::rlimit(60)]
pub proof fn keys_of_quick_open(key: KeyEvent)
    ensures
        resolved(InputScope::QuickOpen, key) == (if key == plain(KeyCode::Esc) {
            Some(Command::Close)
        } else if key == ctrl(KeyCode::Char('c')) {
            Some(Command::Quit)
        } else if key == plain(KeyCode::Enter) {
            Some(Command::Confirm)
        } else if key == plain(KeyCode::Up) {
            Some(Command::MoveUp)
        } else if key == ctrl(KeyCode::Char('k')) {
            Some(Command::MoveUp)
        } else if key == ctrl(KeyCode::Char('p')) {
            Some(Command::MoveUp)
        } else if key == plain(KeyCode::Down) {
            Some(Command::MoveDown)
        } else if key == ctrl(KeyCode::Char('j')) {
            Some(Command::MoveDown)
        } else if key == ctrl(KeyCode::Char('n')) {
            Some(Command::MoveDown)
        } else if key == plain(KeyCode::PageUp) {
            Some(Command::PageUp)
        } else if key == plain(KeyCode::PageDown) {
            Some(Command::PageDown)
        } else {
            None
        }),
{
    let scope = InputScope::QuickOpen;
    if key == plain(KeyCode::Esc) {
        lemma_bound(scope, 0);
    } else if key == ctrl(KeyCode::Char('c')) {
        lemma_bound(scope, 1);
    } else if key == plain(KeyCode::Enter) {
        lemma_bound(scope, 2);
    } else if key == plain(KeyCode::Up) {
        lemma_bound(scope, 3);
    } else if key == ctrl(KeyCode::Char('k')) {
        lemma_bound(scope, 4);
    } else if key == ctrl(KeyCode::Char('p')) {
        lemma_bound(scope, 5);
    } else if key == plain(KeyCode::Down) {
        lemma_bound(scope, 6);
    } else if key == ctrl(KeyCode::Char('j')) {
        lemma_bound(scope, 7);
    } else if key == ctrl(KeyCode::Char('n')) {
        lemma_bound(scope, 8);
    } else if key == plain(KeyCode::PageUp) {
        lemma_bound(scope, 9);
    } else if key == plain(KeyCode::PageDown) {
        lemma_bound(scope, 10);
    } else {
        lemma_unbound(scope, key);
    }
}

/// What a key means in the global search.
#[verifier::rlimit(60)]
pub proof fn keys_of_global_search(key: KeyEvent)
    ensures
        resolved(InputScope::GlobalSearch, key) == (if key == plain(KeyCode::Esc) {
            Some(Command::Close)
        } else if key == ctrl(KeyCode::Char('c')) {
            Some(Command::Quit)
        } else if key == plain(KeyCode::Enter) {
            Some(Command::Confirm)
        } else if key == alt(KeyCode::Enter) {
            Some(Command::PinGlobalSearch)
        } else if key == ctrl(KeyCode::Enter) {
            Some(Command::PinGlobalSearch)
        } else if key == ctrl_alt(KeyCode::Enter) {
            Some(Command::PinGlobalSearch)
        } else if key == plain(KeyCode::Up) {
            Some(Command::MoveUp)
        } else if key == ctrl(KeyCode::Char('k')) {
            Some(Command::MoveUp)
        } else if key == ctrl(KeyCode::Char('p')) {
            Some(Command::MoveUp)
        } else if key == plain(KeyCode::Down) {
            Some(Command::MoveDown)
        } else if key == ctrl(KeyCode::Char('j')) {
            Some(Command::MoveDown)
        } else if key == ctrl(KeyCode::Char('n')) {
            Some(Command::MoveDown)
        } else if key == plain(KeyCode::PageUp) {
            Some(Command::PageUp)
        } else if key == plain(KeyCode::PageDown) {
            Some(Command::PageDown)
        } else {
            None
        }),
{
    let scope = InputScope::GlobalSearch;
    if key == plain(KeyCode::Esc) {
        lemma_bound(scope, 0);
    } else if key == ctrl(KeyCode::Char('c')) {
        lemma_bound(scope, 1);
    } else if key == plain(KeyCode::Enter) {
        lemma_bound(scope, 2);
    } else if key == alt(KeyCode::Enter) {
        lemma_bound(scope, 3);
    } else if key == ctrl(KeyCode::Enter) {
        lemma_bound(scope, 4);
    } else if key == ctrl_alt(KeyCode::Enter) {
        lemma_bound(scope, 5);
    } else if key == plain(KeyCode::Up) {
        lemma_bound(scope, 6);
    } else if key == ctrl(KeyCode::Char('k')) {
        lemma_bound(scope, 7);
    } else if key == ctrl(KeyCode::Char('p')) {
        lemma_bound(scope, 8);
    } else if key == plain(KeyCode::Down) {
        lemma_bound(scope, 9);
    } else if key == ctrl(KeyCode::Char('j')) {
        lemma_bound(scope, 10);
    } else if key == ctrl(KeyCode::Char('n')) {
        lemma_bound(scope, 11);
    } else if key == plain(KeyCode::PageUp) {
        lemma_bound(scope, 12);
    } else if key == plain(KeyCode::PageDown) {
        lemma_bound(scope, 13);
    } else {
        lemma_unbound(scope, key);
    }
}

/// What a key means in the find widget.
#[verifier::rlimit(60)]
pub proof fn keys_of_find_widget(key: KeyEvent)
    ensures
        resolved(InputScope::FindWidget, key) == (if key == plain(KeyCode::Esc) {
            Some(Command::Close)
        } else if key == ctrl(KeyCode::Char('c')) {
            Some(Command::Quit)
        } else if key == plain(KeyCode::Enter) {
            Some(Command::Confirm)
        } else if key == shift(KeyCode::Enter) {
            Some(Command::Confirm)
        } else if key == plain(KeyCode::Up) {
            Some(Command::MoveUp)
        } else if key == plain(KeyCode::Down) {
            Some(Command::MoveDown)
        } else if key == alt(KeyCode::Char('c')) {
            Some(Command::ToggleCase)
        } else if key == alt_shift(KeyCode::Char('C')) {
            Some(Command::ToggleCase)
        } else if key == alt(KeyCode::Char('w')) {
            Some(Command::ToggleWholeWord)
        } else if key == alt_shift(KeyCode::Char('W')) {
            Some(Command::ToggleWholeWord)
        } else if key == alt(KeyCode::Char('r')) {
            Some(Command::ToggleRegex)
        } else if key == alt_shift(KeyCode::Char('R')) {
            Some(Command::ToggleRegex)
        } else {
            None
        }),
{
    let scope = InputScope::FindWidget;
    if key == plain(KeyCode::Esc) {
        lemma_bound(scope, 0);
    } else if key == ctrl(KeyCode::Char('c')) {
        lemma_bound(scope, 1);
    } else if key == plain(KeyCode::Enter) {
        lemma_bound(scope, 2);
    } else if key == shift(KeyCode::Enter) {
        lemma_bound(scope, 3);
    } else if key == plain(KeyCode::Up) {
        lemma_bound(scope, 4);
    } else if key == plain(KeyCode::Down) {
        lemma_bound(scope, 5);
    } else if key == alt(KeyCode::Char('c')) {
        lemma_bound(scope, 6);
    } else if key == alt_shift(KeyCode::Char('C')) {
        lemma_bound(scope, 7);
    } else if key == alt(KeyCode::Char('w')) {
        lemma_bound(scope, 8);
    } else if key == alt_shift(KeyCode::Char('W')) {
        lemma_bound(scope, 9);
    } else if key == alt(KeyCode::Char('r')) {
        lemma_bound(scope, 10);
    } else if key == alt_shift(KeyCode::Char('R')) {
        lemma_bound(scope, 11);
    } else {
        lemma_unbound(scope, key);
    }
}

/// What a key means while a search is typed.
#[verifier::rlimit(60)]
pub proof fn keys_of_vim_search(key: KeyEvent)
    ensures
        resolved(InputScope::VimSearch, key) == (if key == plain(KeyCode::Esc) {
            Some(Command::Close)
        } else if key == ctrl(KeyCode::Char('c')) {
            Some(Command::Quit)
        } else if key == plain(KeyCode::Enter) {
            Some(Command::Confirm)
        } else {
            None
        }),
{
    let scope = InputScope::VimSearch;
    if key == plain(KeyCode::Esc) {
        lemma_bound(scope, 0);
    } else if key == ctrl(KeyCode::Char('c')) {
        lemma_bound(scope, 1);
    } else if key == plain(KeyCode::Enter) {
        lemma_bound(scope, 2);
    } else {
        lemma_unbound(scope, key);
    }
}

/// What a key means while a name is typed in the tree.
#[verifier::rlimit(60)]
pub proof fn keys_of_tree_edit(key: KeyEvent)
    ensures
        resolved(InputScope::TreeEdit, key) == (if key == plain(KeyCode::Esc) {
            Some(Command::Close)
        } else if key == ctrl(KeyCode::Char('c')) {
            Some(Command::Quit)
        } else if key == plain(KeyCode::Enter) {
            Some(Command::Confirm)
        } else {
            None
        }),
{
    let scope = InputScope::TreeEdit;
    if key == plain(KeyCode::Esc) {
        lemma_bound(scope, 0);
    } else if key == ctrl(KeyCode::Char('c')) {
        lemma_bound(scope, 1);
    } else if key == plain(KeyCode::Enter) {
        lemma_bound(scope, 2);
    } else {
        lemma_unbound(scope, key);
    }
}

/// What a key means in the context menu of the tree.
#[verifier::rlimit(60)]
pub proof fn keys_of_tree_context_menu(key: KeyEvent)
    ensures
        resolved(InputScope::TreeContextMenu, key) == (if key == plain(KeyCode::Esc) {
            Some(Command::Close)
        } else if key == plain(KeyCode::Up) {
            Some(Command::MoveUp)
        } else if key == plain(KeyCode::Char('k')) {
            Some(Command::MoveUp)
        } else if key == plain(KeyCode::Down) {
            Some(Command::MoveDown)
        } else if key == plain(KeyCode::Char('j')) {
            Some(Command::MoveDown)
        } else if key == plain(KeyCode::Enter) {
            Some(Command::Confirm)
        } else {
            None
        }),
{
    let scope = InputScope::TreeContextMenu;
    if key == plain(KeyCode::Esc) {
        lemma_bound(scope, 0);
    } else if key == plain(KeyCode::Up) {
        lemma_bound(scope, 1);
    } else if key == plain(KeyCode::Char('k')) {
        lemma_bound(scope, 2);
    } else if key == plain(KeyCode::Down) {
        lemma_bound(scope, 3);
    } else if key == plain(KeyCode::Char('j')) {
        lemma_bound(scope, 4);
    } else if key == plain(KeyCode::Enter) {
        lemma_bound(scope, 5);
    } else {
        lemma_unbound(scope, key);
    }
}

/// What a key means in the list of places.
#[verifier::rlimit(60)]
pub proof fn keys_of_nav_candidates(key: KeyEvent)
    ensures
        resolved(InputScope::NavCandidates, key) == (if key == plain(KeyCode::Esc) {
            Some(Command::Close)
        } else if key == plain(KeyCode::Char('q')) {
            Some(Command::Close)
        } else if key == ctrl(KeyCode::Char('c')) {
            Some(Command::Quit)
        } else if key == plain(KeyCode::Up) {
            Some(Command::MoveUp)
        } else if key == plain(KeyCode::Char('k')) {
            Some(Command::MoveUp)
        } else if key == plain(KeyCode::Down) {
            Some(Command::MoveDown)
        } else if key == plain(KeyCode::Char('j')) {
            Some(Command::MoveDown)
        } else if key == plain(KeyCode::Enter) {
            Some(Command::Confirm)
        } else {
            None
        }),
{
    let scope = InputScope::NavCandidates;
    if key == plain(KeyCode::Esc) {
        lemma_bound(scope, 0);
    } else if key == plain(KeyCode::Char('q')) {
        lemma_bound(scope, 1);
    } else if key == ctrl(KeyCode::Char('c')) {
        lemma_bound(scope, 2);
    } else if key == plain(KeyCode::Up) {
        lemma_bound(scope, 3);
    } else if key == plain(KeyCode::Char('k')) {
        lemma_bound(scope, 4);
    } else if key == plain(KeyCode::Down) {
        lemma_bound(scope, 5);
    } else if key == plain(KeyCode::Char('j')) {
        lemma_bound(scope, 6);
    } else if key == plain(KeyCode::Enter) {
        lemma_bound(scope, 7);
    } else {
        lemma_unbound(scope, key);
    }
}

/// What a key means at a question.
#[verifier::rlimit(60)]
pub proof fn keys_of_confirm_modal(key: KeyEvent)
    ensures
        resolved(InputScope::ConfirmModal, key) == (if key == plain(KeyCode::Esc) {
            Some(Command::Close)
        } else if key == ctrl(KeyCode::Char('c')) {
            Some(Command::Quit)
        } else {
            None
        }),
{
    let scope = InputScope::ConfirmModal;
    if key == plain(KeyCode::Esc) {
        lemma_bound(scope, 0);
    } else if key == ctrl(KeyCode::Char('c')) {
        lemma_bound(scope, 1);
    } else {
        lemma_unbound(scope, key);
    }
}

/// What a key means at the question what becomes of a file whose name is taken.
#[verifier::rlimit(60)]
pub proof fn keys_of_paste_conflict(key: KeyEvent)
    ensures
        resolved(InputScope::PasteConflict, key) == (if key == plain(KeyCode::Esc) {
            Some(Command::Close)
        } else if key == ctrl(KeyCode::Char('c')) {
            Some(Command::Quit)
        } else {
            None
        }),
{
    let scope = InputScope::PasteConflict;
    if key == plain(KeyCode::Esc) {
        lemma_bound(scope, 0);
    } else if key == ctrl(KeyCode::Char('c')) {
        lemma_bound(scope, 1);
    } else {
        lemma_unbound(scope, key);
    }
}

/// What a key means at the page prompt.
#[verifier::rlimit(60)]
pub proof fn keys_of_db_goto(key: KeyEvent)
    ensures
        resolved(InputScope::DbGoto, key) == (if key == plain(KeyCode::Esc) {
            Some(Command::Close)
        } else if key == plain(KeyCode::Enter) {
            Some(Command::Confirm)
        } else {
            None
        }),
{
    let scope = InputScope::DbGoto;
    if key == plain(KeyCode::Esc) {
        lemma_bound(scope, 0);
    } else if key == plain(KeyCode::Enter) {
        lemma_bound(scope, 1);
    } else {
        lemma_unbound(scope, key);
    }
}

/// What a key means while dropped files wait for a folder.
#[verifier::rlimit(60)]
pub proof fn keys_of_place_mode(key: KeyEvent)
    ensures
        resolved(InputScope::PlaceMode, key) == (if key == plain(KeyCode::Esc) {
            Some(Command::Close)
        } else if key == ctrl(KeyCode::Char('c')) {
            Some(Command::Quit)
        } else if key == plain(KeyCode::Char('q')) {
            Some(Command::Quit)
        } else {
            None
        }),
{
    let scope = InputScope::PlaceMode;
    if key == plain(KeyCode::Esc) {
        lemma_bound(scope, 0);
    } else if key == ctrl(KeyCode::Char('c')) {
        lemma_bound(scope, 1);
    } else if key == plain(KeyCode::Char('q')) {
        lemma_bound(scope, 2);
    } else {
        lemma_unbound(scope, key);
    }
}

/// What a key means during a drag in the tree.
#[verifier::rlimit(60)]
pub proof fn keys_of_tree_drag(key: KeyEvent)
    ensures
        resolved(InputScope::TreeDrag, key) == (if key == plain(KeyCode::Esc) {
            Some(Command::Close)
        } else if key == ctrl(KeyCode::Char('c')) {
            Some(Command::Quit)
        } else {
            None
        }),
{
    let scope = InputScope::TreeDrag;
    if key == plain(KeyCode::Esc) {
        lemma_bound(scope, 0);
    } else if key == ctrl(KeyCode::Char('c')) {
        lemma_bound(scope, 1);
    } else {
        lemma_unbound(scope, key);
    }
}

/// What a key means in the hosts picker.
#[verifier::rlimit(60)]
pub proof fn keys_of_hosts_picker(key: KeyEvent)
    ensures
        resolved(InputScope::HostsPicker, key) == (if key == plain(KeyCode::Esc) {
            Some(Command::Close)
        } else if key == ctrl(KeyCode::Char('c')) {
            Some(Command::Quit)
        } else if key == plain(KeyCode::Enter) {
            Some(Command::Confirm)
        } else if key == ctrl(KeyCode::Char('p')) {
            Some(Command::TogglePickerPathMode)
        } else if key == plain(KeyCode::Up) {
            Some(Command::MoveUp)
        } else if key == ctrl(KeyCode::Char('k')) {
            Some(Command::MoveUp)
        } else if key == plain(KeyCode::Down) {
            Some(Command::MoveDown)
        } else if key == ctrl(KeyCode::Char('j')) {
            Some(Command::MoveDown)
        } else if key == ctrl(KeyCode::Char('n')) {
            Some(Command::MoveDown)
        } else {
            None
        }),
{
    let scope = InputScope::HostsPicker;
    if key == plain(KeyCode::Esc) {
        lemma_bound(scope, 0);
    } else if key == ctrl(KeyCode::Char('c')) {
        lemma_bound(scope, 1);
    } else if key == plain(KeyCode::Enter) {
        lemma_bound(scope, 2);
    } else if key == ctrl(KeyCode::Char('p')) {
        lemma_bound(scope, 3);
    } else if key == plain(KeyCode::Up) {
        lemma_bound(scope, 4);
    } else if key == ctrl(KeyCode::Char('k')) {
        lemma_bound(scope, 5);
    } else if key == plain(KeyCode::Down) {
        lemma_bound(scope, 6);
    } else if key == ctrl(KeyCode::Char('j')) {
        lemma_bound(scope, 7);
    } else if key == ctrl(KeyCode::Char('n')) {
        lemma_bound(scope, 8);
    } else {
        lemma_unbound(scope, key);
    }
}

/// What a key means in the branch picker.
#[verifier::rlimit(60)]
pub proof fn keys_of_graph_branch_picker(key: KeyEvent)
    ensures
        resolved(InputScope::GraphBranchPicker, key) == (if key == plain(KeyCode::Esc) {
            Some(Command::Close)
        } else if key == ctrl(KeyCode::Char('c')) {
            Some(Command::Quit)
        } else if key == plain(KeyCode::Enter) {
            Some(Command::Confirm)
        } else if key == plain(KeyCode::Up) {
            Some(Command::MoveUp)
        } else if key == ctrl(KeyCode::Char('k')) {
            Some(Command::MoveUp)
        } else if key == ctrl(KeyCode::Char('p')) {
            Some(Command::MoveUp)
        } else if key == plain(KeyCode::Down) {
            Some(Command::MoveDown)
        } else if key == ctrl(KeyCode::Char('j')) {
            Some(Command::MoveDown)
        } else if key == ctrl(KeyCode::Char('n')) {
            Some(Command::MoveDown)
        } else {
            None
        }),
{
    let scope = InputScope::GraphBranchPicker;
    if key == plain(KeyCode::Esc) {
        lemma_bound(scope, 0);
    } else if key == ctrl(KeyCode::Char('c')) {
        lemma_bound(scope, 1);
    } else if key == plain(KeyCode::Enter) {
        lemma_bound(scope, 2);
    } else if key == plain(KeyCode::Up) {
        lemma_bound(scope, 3);
    } else if key == ctrl(KeyCode::Char('k')) {
        lemma_bound(scope, 4);
    } else if key == ctrl(KeyCode::Char('p')) {
        lemma_bound(scope, 5);
    } else if key == plain(KeyCode::Down) {
        lemma_bound(scope, 6);
    } else if key == ctrl(KeyCode::Char('j')) {
        lemma_bound(scope, 7);
    } else if key == ctrl(KeyCode::Char('n')) {
        lemma_bound(scope, 8);
    } else {
        lemma_unbound(scope, key);
    }
}

/// What a key means in the commit box.
#[verifier::rlimit(60)]
pub proof fn keys_of_commit_editor(key: KeyEvent)
    ensures
        resolved(InputScope::CommitEditor, key) == (if key == plain(KeyCode::Esc) {
            Some(Command::Close)
        } else if key == ctrl(KeyCode::Char('c')) {
            Some(Command::Quit)
        } else if key == ctrl(KeyCode::Enter) {
            Some(Command::Confirm)
        } else if key == ctrl_shift(KeyCode::Enter) {
            Some(Command::Confirm)
        } else {
            None
        }),
{
    let scope = InputScope::CommitEditor;
    if key == plain(KeyCode::Esc) {
        lemma_bound(scope, 0);
    } else if key == ctrl(KeyCode::Char('c')) {
        lemma_bound(scope, 1);
    } else if key == ctrl(KeyCode::Enter) {
        lemma_bound(scope, 2);
    } else if key == ctrl_shift(KeyCode::Enter) {
        lemma_bound(scope, 3);
    } else {
        lemma_unbound(scope, key);
    }
}

/// What a key means in the fields of the Search tab.
#[verifier::rlimit(60)]
pub proof fn keys_of_search_input(key: KeyEvent)
    ensures
        resolved(InputScope::SearchInput, key) == (if key == plain(KeyCode::Esc) {
            Some(Command::Close)
        } else if key == ctrl(KeyCode::Char('c')) {
            Some(Command::Quit)
        } else if key == plain(KeyCode::Enter) {
            Some(Command::Confirm)
        } else if key == ctrl(KeyCode::Enter) {
            Some(Command::Confirm)
        } else if key == alt(KeyCode::Enter) {
            Some(Command::Confirm)
        } else if key == ctrl_alt(KeyCode::Enter) {
            Some(Command::Confirm)
        } else if key == plain(KeyCode::Up) {
            Some(Command::MoveUp)
        } else if key == ctrl(KeyCode::Char('k')) {
            Some(Command::MoveUp)
        } else if key == ctrl(KeyCode::Char('p')) {
            Some(Command::MoveUp)
        } else if key == plain(KeyCode::Down) {
            Some(Command::MoveDown)
        } else if key == ctrl(KeyCode::Char('j')) {
            Some(Command::MoveDown)
        } else if key == ctrl(KeyCode::Char('n')) {
            Some(Command::MoveDown)
        } else if key == plain(KeyCode::PageUp) {
            Some(Command::PageUp)
        } else if key == plain(KeyCode::PageDown) {
            Some(Command::PageDown)
        } else {
            None
        }),
{
    let scope = InputScope::SearchInput;
    if key == plain(KeyCode::Esc) {
        lemma_bound(scope, 0);
    } else if key == ctrl(KeyCode::Char('c')) {
        lemma_bound(scope, 1);
    } else if key == plain(KeyCode::Enter) {
        lemma_bound(scope, 2);
    } else if key == ctrl(KeyCode::Enter) {
        lemma_bound(scope, 3);
    } else if key == alt(KeyCode::Enter) {
        lemma_bound(scope, 4);
    } else if key == ctrl_alt(KeyCode::Enter) {
        lemma_bound(scope, 5);
    } else if key == plain(KeyCode::Up) {
        lemma_bound(scope, 6);
    } else if key == ctrl(KeyCode::Char('k')) {
        lemma_bound(scope, 7);
    } else if key == ctrl(KeyCode::Char('p')) {
        lemma_bound(scope, 8);
    } else if key == plain(KeyCode::Down) {
        lemma_bound(scope, 9);
    } else if key == ctrl(KeyCode::Char('j')) {
        lemma_bound(scope, 10);
    } else if key == ctrl(KeyCode::Char('n')) {
        lemma_bound(scope, 11);
    } else if key == plain(KeyCode::PageUp) {
        lemma_bound(scope, 12);
    } else if key == plain(KeyCode::PageDown) {
        lemma_bound(scope, 13);
    } else {
        lemma_unbound(scope, key);
    }
}

} // verus!
