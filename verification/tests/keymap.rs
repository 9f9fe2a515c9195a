use reef_tui::event::{KeyCode, KeyEvent, KeyModifiers};
use reef_tui::input_edit::{op_for_key, TextEditOp};
use reef_tui::input_edit_multi;
use reef_tui::keymap::{bindings, validate_bindings, Command, InputScope, KeyBinding, Keymap};
use reef_tui::picker_core::{input_for_key, PickerInput};

fn key(code: KeyCode, modifiers: KeyModifiers) -> KeyEvent {
    KeyEvent::new(code, modifiers)
}

#[test]
fn keymap_has_no_duplicate_bindings() {
    Keymap::validate().expect("keymap conflict");
}

#[test]
fn normal_location_history_bindings_include_ctrl_alt_aliases() {
    let alt_left = key(KeyCode::Left, KeyModifiers::alt());
    let ctrl_alt_left = key(KeyCode::Left, KeyModifiers::alt().with_control());
    assert_eq!(Keymap::resolve(InputScope::Normal, &alt_left), Some(Command::LocationBack));
    assert_eq!(Keymap::resolve(InputScope::Normal, &ctrl_alt_left), Some(Command::LocationBack));
}

#[test]
fn picker_scopes_resolve_common_navigation() {
    let up = key(KeyCode::Up, KeyModifiers::none());
    let ctrl_n = key(KeyCode::Char('n'), KeyModifiers::control());
    let enter = key(KeyCode::Enter, KeyModifiers::none());
    for scope in [
        InputScope::QuickOpen,
        InputScope::GlobalSearch,
        InputScope::HostsPicker,
        InputScope::GraphBranchPicker,
    ] {
        assert_eq!(Keymap::resolve(scope, &up), Some(Command::MoveUp));
        assert_eq!(Keymap::resolve(scope, &ctrl_n), Some(Command::MoveDown));
        assert_eq!(Keymap::resolve(scope, &enter), Some(Command::Confirm));
    }
}

#[test]
fn text_input_scopes_resolve_control_actions() {
    let esc = key(KeyCode::Esc, KeyModifiers::none());
    let enter = key(KeyCode::Enter, KeyModifiers::none());
    let ctrl_enter = key(KeyCode::Enter, KeyModifiers::control());
    assert_eq!(Keymap::resolve(InputScope::VimSearch, &esc), Some(Command::Close));
    assert_eq!(Keymap::resolve(InputScope::SearchInput, &enter), Some(Command::Confirm));
    assert_eq!(Keymap::resolve(InputScope::CommitEditor, &ctrl_enter), Some(Command::Confirm));
}

#[test]
fn find_widget_shift_enter_still_confirms() {
    let shift_enter = key(KeyCode::Enter, KeyModifiers::shift());
    assert_eq!(Keymap::resolve(InputScope::FindWidget, &shift_enter), Some(Command::Confirm));
}

#[test]
fn enter_modifier_aliases_keep_replace_and_pin_shortcuts() {
    for modifiers in [
        KeyModifiers::control(),
        KeyModifiers::alt(),
        KeyModifiers::control().with_alt(),
    ] {
        let enter = key(KeyCode::Enter, modifiers);
        assert_eq!(Keymap::resolve(InputScope::SearchInput, &enter), Some(Command::Confirm));
    }
    let ctrl_alt_enter = key(KeyCode::Enter, KeyModifiers::control().with_alt());
    assert_eq!(
        Keymap::resolve(InputScope::GlobalSearch, &ctrl_alt_enter),
        Some(Command::PinGlobalSearch)
    );
}

#[test]
fn dispatch_esc_returns_cancel() {
    let esc = key(KeyCode::Esc, KeyModifiers::none());
    assert_eq!(input_for_key(InputScope::QuickOpen, &esc), PickerInput::Cancel);
}

#[test]
fn dispatch_ctrl_c_returns_quit() {
    let ctrl_c = key(KeyCode::Char('c'), KeyModifiers::control());
    assert_eq!(input_for_key(InputScope::QuickOpen, &ctrl_c), PickerInput::Quit);
}

#[test]
fn dispatch_enter_returns_confirm() {
    let enter = key(KeyCode::Enter, KeyModifiers::none());
    assert_eq!(input_for_key(InputScope::QuickOpen, &enter), PickerInput::Confirm);
}

#[test]
fn dispatch_arrows_and_readline_aliases_move_selection() {
    let down = key(KeyCode::Down, KeyModifiers::none());
    assert_eq!(input_for_key(InputScope::QuickOpen, &down), PickerInput::MoveSelection(1));
    let ctrl_j = key(KeyCode::Char('j'), KeyModifiers::control());
    assert_eq!(input_for_key(InputScope::QuickOpen, &ctrl_j), PickerInput::MoveSelection(1));
    let ctrl_n = key(KeyCode::Char('n'), KeyModifiers::control());
    assert_eq!(input_for_key(InputScope::QuickOpen, &ctrl_n), PickerInput::MoveSelection(1));
    let up = key(KeyCode::Up, KeyModifiers::none());
    assert_eq!(input_for_key(InputScope::QuickOpen, &up), PickerInput::MoveSelection(-1));
    let ctrl_k = key(KeyCode::Char('k'), KeyModifiers::control());
    assert_eq!(input_for_key(InputScope::QuickOpen, &ctrl_k), PickerInput::MoveSelection(-1));
    let ctrl_p = key(KeyCode::Char('p'), KeyModifiers::control());
    assert_eq!(input_for_key(InputScope::QuickOpen, &ctrl_p), PickerInput::MoveSelection(-1));
}

#[test]
fn characters_edit_the_filter() {
    let a = key(KeyCode::Char('a'), KeyModifiers::none());
    assert_eq!(
        input_for_key(InputScope::QuickOpen, &a),
        PickerInput::Edit(TextEditOp::InsertChar('a'))
    );
    let left = key(KeyCode::Left, KeyModifiers::none());
    assert_eq!(
        input_for_key(InputScope::QuickOpen, &left),
        PickerInput::Edit(TextEditOp::MoveLeft)
    );
    let f1 = key(KeyCode::F(1), KeyModifiers::none());
    assert_eq!(input_for_key(InputScope::QuickOpen, &f1), PickerInput::Unhandled);
}

#[test]
fn keys_stand_for_edits() {
    let wide = key(KeyCode::Char('你'), KeyModifiers::none());
    assert_eq!(op_for_key(&wide), Some(TextEditOp::InsertChar('你')));
    let ctrl_u = key(KeyCode::Char('u'), KeyModifiers::control());
    assert_eq!(op_for_key(&ctrl_u), Some(TextEditOp::Clear));
    let ctrl_w = key(KeyCode::Char('w'), KeyModifiers::control());
    assert_eq!(op_for_key(&ctrl_w), Some(TextEditOp::DeleteWordBackward));
    assert_eq!(input_edit_multi::op_for_key(&ctrl_w), Some(TextEditOp::DeleteWordBackward));
    let shift_enter = key(KeyCode::Enter, KeyModifiers::shift());
    assert_eq!(input_edit_multi::op_for_key(&shift_enter), Some(TextEditOp::InsertNewline));
    let ctrl_enter = key(KeyCode::Enter, KeyModifiers::control());
    assert_eq!(input_edit_multi::op_for_key(&ctrl_enter), None);
    let shift_up = key(KeyCode::Up, KeyModifiers::shift());
    assert_eq!(input_edit_multi::op_for_key(&shift_up), Some(TextEditOp::MoveLineUp));
}

#[test]
fn every_binding_resolves_to_its_command() {
    let table = bindings();
    assert!(table.len() > 100);
    for binding in &table {
        match binding.chord {
            None => assert_eq!(
                Keymap::resolve(binding.scope, &key(binding.key, binding.modifiers)),
                Some(binding.command)
            ),
            Some(second) => assert_eq!(
                Keymap::resolve_chord(
                    binding.scope,
                    binding.key,
                    &key(second, binding.modifiers)
                ),
                Some(binding.command)
            ),
        }
    }
}

#[test]
fn duplicates_are_reported() {
    let one = KeyBinding::single(
        InputScope::Normal,
        KeyCode::Char('x'),
        KeyModifiers::none(),
        Command::Quit,
    );
    let two = KeyBinding::single(
        InputScope::Normal,
        KeyCode::Char('x'),
        KeyModifiers::none(),
        Command::Close,
    );
    assert!(validate_bindings(&vec![one, two]).is_err());
    assert!(validate_bindings(&vec![one]).is_ok());
}
