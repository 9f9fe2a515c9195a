//! Which command a key stands for in which scope.

use crate::app::TuiApp;
use crate::engine::ViewMode;
use crate::event::{KeyCode, KeyEvent, KeyModifiers};
use vstd::prelude::*;

verus! {

/// Who owns the keyboard.
#[derive(Clone, Copy, Debug, PartialEq, Eq, Hash, Structural)]
pub enum InputScope {
    Normal,
    FocusedPreview,
    Settings,
    QuickOpen,
    GlobalSearch,
    FindWidget,
    VimSearch,
    HostsPicker,
    GraphBranchPicker,
    TreeEdit,
    TreeContextMenu,
    NavCandidates,
    ConfirmModal,
    PasteConflict,
    DbGoto,
    PlaceMode,
    TreeDrag,
    CommitEditor,
    SearchInput,
}

/// What a key asks for.
#[derive(Clone, Copy, Debug, PartialEq, Eq, Hash, Structural)]
pub enum Command {
    Quit,
    OpenHelp,
    ToggleSidebar,
    OpenSettings,
    OpenHostsPicker,
    OpenQuickOpen,
    OpenFindWidget,
    OpenGlobalSearch,
    OpenGlobalReplace,
    ToggleFocusedPreview,
    LocationBack,
    LocationForward,
    GotoDefinition,
    FindReferences,
    ScrollTop,
    ScrollBottom,
    BeginSearchForward,
    BeginSearchBackward,
    NextSearchMatch,
    PrevSearchMatch,
    /// The tab at this position, or the next one for `usize::MAX`.
    SwitchTab(usize),
    CyclePanelForward,
    CyclePanelBackward,
    PinGlobalSearch,
    Close,
    Confirm,
    MoveUp,
    MoveDown,
    PageUp,
    PageDown,
    TogglePickerPathMode,
    ToggleCase,
    ToggleWholeWord,
    ToggleRegex,
}

/// One row of the keymap: a key, or a leader and the key that follows it.
#[derive(Clone, Copy, Debug, PartialEq, Eq, Hash, Structural)]
pub struct KeyBinding {
    pub scope: InputScope,
    pub key: KeyCode,
    pub modifiers: KeyModifiers,
    pub chord: Option<KeyCode>,
    pub command: Command,
    pub allow_shadow: bool,
}

impl KeyBinding {
    /// A binding of a single key.
    #[verifier::allow_in_spec]
    pub fn single(
        scope: InputScope,
        key: KeyCode,
        modifiers: KeyModifiers,
        command: Command,
    ) -> KeyBinding
        returns
            (KeyBinding { scope, key, modifiers, chord: None, command, allow_shadow: false }),
    {
        KeyBinding { scope, key, modifiers, chord: None, command, allow_shadow: false }
    }

    /// A binding of a leader key and the key that follows it, whose modifiers count.
    #[verifier::allow_in_spec]
    pub fn chord(
        scope: InputScope,
        leader: KeyCode,
        chord: KeyCode,
        modifiers: KeyModifiers,
        command: Command,
    ) -> KeyBinding
        returns
            (KeyBinding {
                scope,
                key: leader,
                modifiers,
                chord: Some(chord),
                command,
                allow_shadow: false,
            }),
    {
        KeyBinding {
            scope,
            key: leader,
            modifiers,
            chord: Some(chord),
            command,
            allow_shadow: false,
        }
    }
}

/// What a binding is looked up by.
#[derive(Clone, Copy, Debug, PartialEq, Eq, Hash, Structural)]
pub enum BindingKey {
    Single { scope: InputScope, key: KeyCode, modifiers: KeyModifiers },
    Chord { scope: InputScope, leader: KeyCode, chord: KeyCode, modifiers: KeyModifiers },
}

impl KeyBinding {
    /// What this binding is looked up by.
    #[verifier::allow_in_spec]
    pub fn lookup_key(&self) -> BindingKey
        returns
            (match self.chord {
                Some(chord) => BindingKey::Chord {
                    scope: self.scope,
                    leader: self.key,
                    chord,
                    modifiers: self.modifiers,
                },
                None => BindingKey::Single {
                    scope: self.scope,
                    key: self.key,
                    modifiers: self.modifiers,
                },
            }),
    {
        match self.chord {
            Some(chord) => BindingKey::Chord {
                scope: self.scope,
                leader: self.key,
                chord,
                modifiers: self.modifiers,
            },
            None => BindingKey::Single {
                scope: self.scope,
                key: self.key,
                modifiers: self.modifiers,
            },
        }
    }
}

/// The command of the first binding in `table` that is looked up by `key`.
pub open spec fn first_binding(table: Seq<KeyBinding>, key: BindingKey) -> Option<Command>
    decreases table.len(),
{
    if table.len() == 0 {
        None
    } else if table[0].lookup_key() == key {
        Some(table[0].command)
    } else {
        first_binding(table.drop_first(), key)
    }
}

/// The command that `key` stands for in `scope`.
#[verifier::opaque]
pub open spec fn resolved(scope: InputScope, key: KeyEvent) -> Option<Command> {
    first_binding(
        binding_table(),
        BindingKey::Single { scope, key: key.code, modifiers: key.modifiers },
    )
}

/// The command that `key` stands for in `scope` after `leader`.
#[verifier::opaque]
pub open spec fn resolved_chord(scope: InputScope, leader: KeyCode, key: KeyEvent) -> Option<
    Command,
> {
    first_binding(
        binding_table(),
        BindingKey::Chord { scope, leader, chord: key.code, modifiers: key.modifiers },
    )
}

/// A key that two bindings claim: the command of the later binding, and that of
/// the last one before it with the same key.
#[derive(Clone, Copy, Debug, PartialEq, Eq, Structural)]
pub struct DuplicateBinding {
    pub key: BindingKey,
    pub previous: Command,
    pub command: Command,
}

/// The place of the last binding before `end` that is looked up by `key`, or -1.
pub open spec fn last_before(table: Seq<KeyBinding>, end: int, key: BindingKey) -> int
    decreases end,
{
    if end <= 0 {
        -1
    } else if table[end - 1].lookup_key() == key {
        end - 1
    } else {
        last_before(table, end - 1, key)
    }
}

/// Whether the binding at `i` claims a key that an earlier one has, without being
/// marked as a shadow of it.
pub open spec fn clashes(table: Seq<KeyBinding>, i: int) -> bool {
    !table[i].allow_shadow && last_before(table, i, table[i].lookup_key()) >= 0
}

/// Whether no two bindings are looked up by the same key.
pub open spec fn all_distinct(table: Seq<KeyBinding>) -> bool {
    forall|i: int, j: int|
        0 <= i < j < table.len() ==> #[trigger] table[i].lookup_key()
            != #[trigger] table[j].lookup_key()
}

/// Checks a table for keys that are claimed twice and reports the first one.
pub fn validate_bindings(table: &Vec<KeyBinding>) -> (r: Result<(), DuplicateBinding>)
    ensures
        match r {
            Ok(()) => forall|i: int| 0 <= i < table.len() ==> !#[trigger] clashes(table@, i),
            Err(e) => exists|i: int|
                {
                    &&& 0 <= i < table.len()
                    &&& #[trigger] clashes(table@, i)
                    &&& forall|h: int| 0 <= h < i ==> !#[trigger] clashes(table@, h)
                    &&& e.key == table[i].lookup_key()
                    &&& e.previous == table[last_before(table@, i, e.key)].command
                    &&& e.command == table[i].command
                },
        },
{
    let mut i: usize = 0;
    while i < table.len()
        invariant
            i <= table.len(),
            forall|h: int| 0 <= h < i ==> !#[trigger] clashes(table@, h),
        decreases table.len() - i,
    {
        let binding = table[i];
        let key = binding.lookup_key();
        let mut j: usize = i;
        while j > 0 && table[j - 1].lookup_key() != key
            invariant
                j <= i < table.len(),
                last_before(table@, i as int, key) == last_before(table@, j as int, key),
            decreases j,
        {
            j -= 1;
        }
        if j > 0 && !binding.allow_shadow {
            assert(clashes(table@, i as int));
            return Err(
                DuplicateBinding {
                    key,
                    previous: table[j - 1].command,
                    command: binding.command,
                },
            );
        }
        assert(!clashes(table@, i as int));
        i += 1;
    }
    Ok(())
}

/// The bindings of [`InputScope::Normal`].
pub open spec fn normal_table() -> Seq<KeyBinding> {
    seq![
        KeyBinding::single(InputScope::Normal, KeyCode::Char('c'), KeyModifiers::control(), Command::Quit),
        KeyBinding::single(InputScope::Normal, KeyCode::Char('q'), KeyModifiers::none(), Command::Quit),
        KeyBinding::single(InputScope::Normal, KeyCode::Char('h'), KeyModifiers::none(), Command::OpenHelp),
        KeyBinding::single(InputScope::Normal, KeyCode::Char('b'), KeyModifiers::control(), Command::ToggleSidebar),
        KeyBinding::single(InputScope::Normal, KeyCode::Char(','), KeyModifiers::control(), Command::OpenSettings),
        KeyBinding::single(InputScope::Normal, KeyCode::Char('o'), KeyModifiers::control(), Command::OpenHostsPicker),
        KeyBinding::single(InputScope::Normal, KeyCode::Left, KeyModifiers::alt(), Command::LocationBack),
        KeyBinding::single(InputScope::Normal, KeyCode::Right, KeyModifiers::alt(), Command::LocationForward),
        KeyBinding::single(InputScope::Normal, KeyCode::Left, KeyModifiers::alt().with_control(), Command::LocationBack),
        KeyBinding::single(InputScope::Normal, KeyCode::Right, KeyModifiers::alt().with_control(), Command::LocationForward),
        KeyBinding::single(InputScope::Normal, KeyCode::Char('/'), KeyModifiers::none(), Command::BeginSearchForward),
        KeyBinding::single(InputScope::Normal, KeyCode::Char('?'), KeyModifiers::none(), Command::BeginSearchBackward),
        KeyBinding::single(InputScope::Normal, KeyCode::Char('n'), KeyModifiers::none(), Command::NextSearchMatch),
        KeyBinding::single(InputScope::Normal, KeyCode::Char('N'), KeyModifiers::none(), Command::PrevSearchMatch),
        KeyBinding::single(InputScope::Normal, KeyCode::Char('N'), KeyModifiers::shift(), Command::PrevSearchMatch),
        KeyBinding::single(InputScope::Normal, KeyCode::Tab, KeyModifiers::none(), Command::CyclePanelForward),
        KeyBinding::single(InputScope::Normal, KeyCode::BackTab, KeyModifiers::shift(), Command::CyclePanelBackward),
        KeyBinding::single(InputScope::Normal, KeyCode::Tab, KeyModifiers::control(), Command::SwitchTab(usize::MAX)),
        KeyBinding::single(InputScope::Normal, KeyCode::Char('1'), KeyModifiers::none(), Command::SwitchTab(0)),
        KeyBinding::single(InputScope::Normal, KeyCode::Char('2'), KeyModifiers::none(), Command::SwitchTab(1)),
        KeyBinding::single(InputScope::Normal, KeyCode::Char('3'), KeyModifiers::none(), Command::SwitchTab(2)),
        KeyBinding::single(InputScope::Normal, KeyCode::Char('4'), KeyModifiers::none(), Command::SwitchTab(3)),
        KeyBinding::chord(InputScope::Normal, KeyCode::Char(' '), KeyCode::Char('p'), KeyModifiers::none(), Command::OpenQuickOpen),
        KeyBinding::chord(InputScope::Normal, KeyCode::Char(' '), KeyCode::Char('P'), KeyModifiers::none(), Command::OpenQuickOpen),
        KeyBinding::chord(InputScope::Normal, KeyCode::Char(' '), KeyCode::Char('P'), KeyModifiers::shift(), Command::OpenQuickOpen),
        KeyBinding::chord(InputScope::Normal, KeyCode::Char(' '), KeyCode::Char('f'), KeyModifiers::none(), Command::OpenFindWidget),
        KeyBinding::chord(InputScope::Normal, KeyCode::Char(' '), KeyCode::Char('F'), KeyModifiers::none(), Command::OpenGlobalSearch),
        KeyBinding::chord(InputScope::Normal, KeyCode::Char(' '), KeyCode::Char('F'), KeyModifiers::shift(), Command::OpenGlobalSearch),
        KeyBinding::chord(InputScope::Normal, KeyCode::Char(' '), KeyCode::Char('h'), KeyModifiers::none(), Command::OpenGlobalReplace),
        KeyBinding::chord(InputScope::Normal, KeyCode::Char(' '), KeyCode::Char('H'), KeyModifiers::none(), Command::OpenGlobalReplace),
        KeyBinding::chord(InputScope::Normal, KeyCode::Char(' '), KeyCode::Char('H'), KeyModifiers::shift(), Command::OpenGlobalReplace),
        KeyBinding::chord(InputScope::Normal, KeyCode::Char(' '), KeyCode::Char('v'), KeyModifiers::none(), Command::ToggleFocusedPreview),
        KeyBinding::chord(InputScope::Normal, KeyCode::Char(' '), KeyCode::Char('V'), KeyModifiers::shift(), Command::ToggleFocusedPreview),
        KeyBinding::chord(InputScope::Normal, KeyCode::Char(' '), KeyCode::Char('V'), KeyModifiers::none(), Command::ToggleFocusedPreview),
        KeyBinding::chord(InputScope::Normal, KeyCode::Char('g'), KeyCode::Char('g'), KeyModifiers::none(), Command::ScrollTop),
        KeyBinding::single(InputScope::Normal, KeyCode::Char('G'), KeyModifiers::none(), Command::ScrollBottom),
        KeyBinding::single(InputScope::Normal, KeyCode::Char('G'), KeyModifiers::shift(), Command::ScrollBottom),
        KeyBinding::chord(InputScope::Normal, KeyCode::Char('g'), KeyCode::Char('d'), KeyModifiers::none(), Command::GotoDefinition),
        KeyBinding::chord(InputScope::Normal, KeyCode::Char('g'), KeyCode::Char('r'), KeyModifiers::none(), Command::FindReferences),
    ]
}

fn normal_bindings() -> (r: Vec<KeyBinding>)
    ensures
        r@ == normal_table(),
{
    vec![
        KeyBinding::single(InputScope::Normal, KeyCode::Char('c'), KeyModifiers::control(), Command::Quit),
        KeyBinding::single(InputScope::Normal, KeyCode::Char('q'), KeyModifiers::none(), Command::Quit),
        KeyBinding::single(InputScope::Normal, KeyCode::Char('h'), KeyModifiers::none(), Command::OpenHelp),
        KeyBinding::single(InputScope::Normal, KeyCode::Char('b'), KeyModifiers::control(), Command::ToggleSidebar),
        KeyBinding::single(InputScope::Normal, KeyCode::Char(','), KeyModifiers::control(), Command::OpenSettings),
        KeyBinding::single(InputScope::Normal, KeyCode::Char('o'), KeyModifiers::control(), Command::OpenHostsPicker),
        KeyBinding::single(InputScope::Normal, KeyCode::Left, KeyModifiers::alt(), Command::LocationBack),
        KeyBinding::single(InputScope::Normal, KeyCode::Right, KeyModifiers::alt(), Command::LocationForward),
        KeyBinding::single(InputScope::Normal, KeyCode::Left, KeyModifiers::alt().with_control(), Command::LocationBack),
        KeyBinding::single(InputScope::Normal, KeyCode::Right, KeyModifiers::alt().with_control(), Command::LocationForward),
        KeyBinding::single(InputScope::Normal, KeyCode::Char('/'), KeyModifiers::none(), Command::BeginSearchForward),
        KeyBinding::single(InputScope::Normal, KeyCode::Char('?'), KeyModifiers::none(), Command::BeginSearchBackward),
        KeyBinding::single(InputScope::Normal, KeyCode::Char('n'), KeyModifiers::none(), Command::NextSearchMatch),
        KeyBinding::single(InputScope::Normal, KeyCode::Char('N'), KeyModifiers::none(), Command::PrevSearchMatch),
        KeyBinding::single(InputScope::Normal, KeyCode::Char('N'), KeyModifiers::shift(), Command::PrevSearchMatch),
        KeyBinding::single(InputScope::Normal, KeyCode::Tab, KeyModifiers::none(), Command::CyclePanelForward),
        KeyBinding::single(InputScope::Normal, KeyCode::BackTab, KeyModifiers::shift(), Command::CyclePanelBackward),
        KeyBinding::single(InputScope::Normal, KeyCode::Tab, KeyModifiers::control(), Command::SwitchTab(usize::MAX)),
        KeyBinding::single(InputScope::Normal, KeyCode::Char('1'), KeyModifiers::none(), Command::SwitchTab(0)),
        KeyBinding::single(InputScope::Normal, KeyCode::Char('2'), KeyModifiers::none(), Command::SwitchTab(1)),
        KeyBinding::single(InputScope::Normal, KeyCode::Char('3'), KeyModifiers::none(), Command::SwitchTab(2)),
        KeyBinding::single(InputScope::Normal, KeyCode::Char('4'), KeyModifiers::none(), Command::SwitchTab(3)),
        KeyBinding::chord(InputScope::Normal, KeyCode::Char(' '), KeyCode::Char('p'), KeyModifiers::none(), Command::OpenQuickOpen),
        KeyBinding::chord(InputScope::Normal, KeyCode::Char(' '), KeyCode::Char('P'), KeyModifiers::none(), Command::OpenQuickOpen),
        KeyBinding::chord(InputScope::Normal, KeyCode::Char(' '), KeyCode::Char('P'), KeyModifiers::shift(), Command::OpenQuickOpen),
        KeyBinding::chord(InputScope::Normal, KeyCode::Char(' '), KeyCode::Char('f'), KeyModifiers::none(), Command::OpenFindWidget),
        KeyBinding::chord(InputScope::Normal, KeyCode::Char(' '), KeyCode::Char('F'), KeyModifiers::none(), Command::OpenGlobalSearch),
        KeyBinding::chord(InputScope::Normal, KeyCode::Char(' '), KeyCode::Char('F'), KeyModifiers::shift(), Command::OpenGlobalSearch),
        KeyBinding::chord(InputScope::Normal, KeyCode::Char(' '), KeyCode::Char('h'), KeyModifiers::none(), Command::OpenGlobalReplace),
        KeyBinding::chord(InputScope::Normal, KeyCode::Char(' '), KeyCode::Char('H'), KeyModifiers::none(), Command::OpenGlobalReplace),
        KeyBinding::chord(InputScope::Normal, KeyCode::Char(' '), KeyCode::Char('H'), KeyModifiers::shift(), Command::OpenGlobalReplace),
        KeyBinding::chord(InputScope::Normal, KeyCode::Char(' '), KeyCode::Char('v'), KeyModifiers::none(), Command::ToggleFocusedPreview),
        KeyBinding::chord(InputScope::Normal, KeyCode::Char(' '), KeyCode::Char('V'), KeyModifiers::shift(), Command::ToggleFocusedPreview),
        KeyBinding::chord(InputScope::Normal, KeyCode::Char(' '), KeyCode::Char('V'), KeyModifiers::none(), Command::ToggleFocusedPreview),
        KeyBinding::chord(InputScope::Normal, KeyCode::Char('g'), KeyCode::Char('g'), KeyModifiers::none(), Command::ScrollTop),
        KeyBinding::single(InputScope::Normal, KeyCode::Char('G'), KeyModifiers::none(), Command::ScrollBottom),
        KeyBinding::single(InputScope::Normal, KeyCode::Char('G'), KeyModifiers::shift(), Command::ScrollBottom),
        KeyBinding::chord(InputScope::Normal, KeyCode::Char('g'), KeyCode::Char('d'), KeyModifiers::none(), Command::GotoDefinition),
        KeyBinding::chord(InputScope::Normal, KeyCode::Char('g'), KeyCode::Char('r'), KeyModifiers::none(), Command::FindReferences),
    ]
}

/// The bindings of [`InputScope::FocusedPreview`].
pub open spec fn focused_preview_table() -> Seq<KeyBinding> {
    seq![
        KeyBinding::single(InputScope::FocusedPreview, KeyCode::Esc, KeyModifiers::none(), Command::Close),
        KeyBinding::single(InputScope::FocusedPreview, KeyCode::Char('q'), KeyModifiers::none(), Command::Quit),
        KeyBinding::single(InputScope::FocusedPreview, KeyCode::Char('c'), KeyModifiers::control(), Command::Quit),
    ]
}

fn focused_preview_bindings() -> (r: Vec<KeyBinding>)
    ensures
        r@ == focused_preview_table(),
{
    vec![
        KeyBinding::single(InputScope::FocusedPreview, KeyCode::Esc, KeyModifiers::none(), Command::Close),
        KeyBinding::single(InputScope::FocusedPreview, KeyCode::Char('q'), KeyModifiers::none(), Command::Quit),
        KeyBinding::single(InputScope::FocusedPreview, KeyCode::Char('c'), KeyModifiers::control(), Command::Quit),
    ]
}

/// The bindings of [`InputScope::Settings`].
pub open spec fn settings_table() -> Seq<KeyBinding> {
    seq![
        KeyBinding::single(InputScope::Settings, KeyCode::Esc, KeyModifiers::none(), Command::Close),
        KeyBinding::single(InputScope::Settings, KeyCode::Char('q'), KeyModifiers::none(), Command::Quit),
        KeyBinding::single(InputScope::Settings, KeyCode::Char('c'), KeyModifiers::control(), Command::Quit),
        KeyBinding::single(InputScope::Settings, KeyCode::Up, KeyModifiers::none(), Command::MoveUp),
        KeyBinding::single(InputScope::Settings, KeyCode::Char('k'), KeyModifiers::none(), Command::MoveUp),
        KeyBinding::single(InputScope::Settings, KeyCode::Char('p'), KeyModifiers::control(), Command::MoveUp),
        KeyBinding::single(InputScope::Settings, KeyCode::Down, KeyModifiers::none(), Command::MoveDown),
        KeyBinding::single(InputScope::Settings, KeyCode::Char('j'), KeyModifiers::none(), Command::MoveDown),
        KeyBinding::single(InputScope::Settings, KeyCode::Char('n'), KeyModifiers::control(), Command::MoveDown),
        KeyBinding::single(InputScope::Settings, KeyCode::PageUp, KeyModifiers::none(), Command::ScrollTop),
        KeyBinding::single(InputScope::Settings, KeyCode::Home, KeyModifiers::none(), Command::ScrollTop),
        KeyBinding::single(InputScope::Settings, KeyCode::PageDown, KeyModifiers::none(), Command::ScrollBottom),
        KeyBinding::single(InputScope::Settings, KeyCode::End, KeyModifiers::none(), Command::ScrollBottom),
        KeyBinding::single(InputScope::Settings, KeyCode::Enter, KeyModifiers::none(), Command::Confirm),
        KeyBinding::single(InputScope::Settings, KeyCode::Char(' '), KeyModifiers::none(), Command::Confirm),
    ]
}

fn settings_bindings() -> (r: Vec<KeyBinding>)
    ensures
        r@ == settings_table(),
{
    vec![
        KeyBinding::single(InputScope::Settings, KeyCode::Esc, KeyModifiers::none(), Command::Close),
        KeyBinding::single(InputScope::Settings, KeyCode::Char('q'), KeyModifiers::none(), Command::Quit),
        KeyBinding::single(InputScope::Settings, KeyCode::Char('c'), KeyModifiers::control(), Command::Quit),
        KeyBinding::single(InputScope::Settings, KeyCode::Up, KeyModifiers::none(), Command::MoveUp),
        KeyBinding::single(InputScope::Settings, KeyCode::Char('k'), KeyModifiers::none(), Command::MoveUp),
        KeyBinding::single(InputScope::Settings, KeyCode::Char('p'), KeyModifiers::control(), Command::MoveUp),
        KeyBinding::single(InputScope::Settings, KeyCode::Down, KeyModifiers::none(), Command::MoveDown),
        KeyBinding::single(InputScope::Settings, KeyCode::Char('j'), KeyModifiers::none(), Command::MoveDown),
        KeyBinding::single(InputScope::Settings, KeyCode::Char('n'), KeyModifiers::control(), Command::MoveDown),
        KeyBinding::single(InputScope::Settings, KeyCode::PageUp, KeyModifiers::none(), Command::ScrollTop),
        KeyBinding::single(InputScope::Settings, KeyCode::Home, KeyModifiers::none(), Command::ScrollTop),
        KeyBinding::single(InputScope::Settings, KeyCode::PageDown, KeyModifiers::none(), Command::ScrollBottom),
        KeyBinding::single(InputScope::Settings, KeyCode::End, KeyModifiers::none(), Command::ScrollBottom),
        KeyBinding::single(InputScope::Settings, KeyCode::Enter, KeyModifiers::none(), Command::Confirm),
        KeyBinding::single(InputScope::Settings, KeyCode::Char(' '), KeyModifiers::none(), Command::Confirm),
    ]
}

/// The bindings of [`InputScope::QuickOpen`].
pub open spec fn quick_open_table() -> Seq<KeyBinding> {
    seq![
        KeyBinding::single(InputScope::QuickOpen, KeyCode::Esc, KeyModifiers::none(), Command::Close),
        KeyBinding::single(InputScope::QuickOpen, KeyCode::Char('c'), KeyModifiers::control(), Command::Quit),
        KeyBinding::single(InputScope::QuickOpen, KeyCode::Enter, KeyModifiers::none(), Command::Confirm),
        KeyBinding::single(InputScope::QuickOpen, KeyCode::Up, KeyModifiers::none(), Command::MoveUp),
        KeyBinding::single(InputScope::QuickOpen, KeyCode::Char('k'), KeyModifiers::control(), Command::MoveUp),
        KeyBinding::single(InputScope::QuickOpen, KeyCode::Char('p'), KeyModifiers::control(), Command::MoveUp),
        KeyBinding::single(InputScope::QuickOpen, KeyCode::Down, KeyModifiers::none(), Command::MoveDown),
        KeyBinding::single(InputScope::QuickOpen, KeyCode::Char('j'), KeyModifiers::control(), Command::MoveDown),
        KeyBinding::single(InputScope::QuickOpen, KeyCode::Char('n'), KeyModifiers::control(), Command::MoveDown),
        KeyBinding::single(InputScope::QuickOpen, KeyCode::PageUp, KeyModifiers::none(), Command::PageUp),
        KeyBinding::single(InputScope::QuickOpen, KeyCode::PageDown, KeyModifiers::none(), Command::PageDown),
    ]
}

fn quick_open_bindings() -> (r: Vec<KeyBinding>)
    ensures
        r@ == quick_open_table(),
{
    vec![
        KeyBinding::single(InputScope::QuickOpen, KeyCode::Esc, KeyModifiers::none(), Command::Close),
        KeyBinding::single(InputScope::QuickOpen, KeyCode::Char('c'), KeyModifiers::control(), Command::Quit),
        KeyBinding::single(InputScope::QuickOpen, KeyCode::Enter, KeyModifiers::none(), Command::Confirm),
        KeyBinding::single(InputScope::QuickOpen, KeyCode::Up, KeyModifiers::none(), Command::MoveUp),
        KeyBinding::single(InputScope::QuickOpen, KeyCode::Char('k'), KeyModifiers::control(), Command::MoveUp),
        KeyBinding::single(InputScope::QuickOpen, KeyCode::Char('p'), KeyModifiers::control(), Command::MoveUp),
        KeyBinding::single(InputScope::QuickOpen, KeyCode::Down, KeyModifiers::none(), Command::MoveDown),
        KeyBinding::single(InputScope::QuickOpen, KeyCode::Char('j'), KeyModifiers::control(), Command::MoveDown),
        KeyBinding::single(InputScope::QuickOpen, KeyCode::Char('n'), KeyModifiers::control(), Command::MoveDown),
        KeyBinding::single(InputScope::QuickOpen, KeyCode::PageUp, KeyModifiers::none(), Command::PageUp),
        KeyBinding::single(InputScope::QuickOpen, KeyCode::PageDown, KeyModifiers::none(), Command::PageDown),
    ]
}

/// The bindings of [`InputScope::GlobalSearch`].
pub open spec fn global_search_table() -> Seq<KeyBinding> {
    seq![
        KeyBinding::single(InputScope::GlobalSearch, KeyCode::Esc, KeyModifiers::none(), Command::Close),
        KeyBinding::single(InputScope::GlobalSearch, KeyCode::Char('c'), KeyModifiers::control(), Command::Quit),
        KeyBinding::single(InputScope::GlobalSearch, KeyCode::Enter, KeyModifiers::none(), Command::Confirm),
        KeyBinding::single(InputScope::GlobalSearch, KeyCode::Enter, KeyModifiers::alt(), Command::PinGlobalSearch),
        KeyBinding::single(InputScope::GlobalSearch, KeyCode::Enter, KeyModifiers::control(), Command::PinGlobalSearch),
        KeyBinding::single(InputScope::GlobalSearch, KeyCode::Enter, KeyModifiers::control().with_alt(), Command::PinGlobalSearch),
        KeyBinding::single(InputScope::GlobalSearch, KeyCode::Up, KeyModifiers::none(), Command::MoveUp),
        KeyBinding::single(InputScope::GlobalSearch, KeyCode::Char('k'), KeyModifiers::control(), Command::MoveUp),
        KeyBinding::single(InputScope::GlobalSearch, KeyCode::Char('p'), KeyModifiers::control(), Command::MoveUp),
        KeyBinding::single(InputScope::GlobalSearch, KeyCode::Down, KeyModifiers::none(), Command::MoveDown),
        KeyBinding::single(InputScope::GlobalSearch, KeyCode::Char('j'), KeyModifiers::control(), Command::MoveDown),
        KeyBinding::single(InputScope::GlobalSearch, KeyCode::Char('n'), KeyModifiers::control(), Command::MoveDown),
        KeyBinding::single(InputScope::GlobalSearch, KeyCode::PageUp, KeyModifiers::none(), Command::PageUp),
        KeyBinding::single(InputScope::GlobalSearch, KeyCode::PageDown, KeyModifiers::none(), Command::PageDown),
    ]
}

fn global_search_bindings() -> (r: Vec<KeyBinding>)
    ensures
        r@ == global_search_table(),
{
    vec![
        KeyBinding::single(InputScope::GlobalSearch, KeyCode::Esc, KeyModifiers::none(), Command::Close),
        KeyBinding::single(InputScope::GlobalSearch, KeyCode::Char('c'), KeyModifiers::control(), Command::Quit),
        KeyBinding::single(InputScope::GlobalSearch, KeyCode::Enter, KeyModifiers::none(), Command::Confirm),
        KeyBinding::single(InputScope::GlobalSearch, KeyCode::Enter, KeyModifiers::alt(), Command::PinGlobalSearch),
        KeyBinding::single(InputScope::GlobalSearch, KeyCode::Enter, KeyModifiers::control(), Command::PinGlobalSearch),
        KeyBinding::single(InputScope::GlobalSearch, KeyCode::Enter, KeyModifiers::control().with_alt(), Command::PinGlobalSearch),
        KeyBinding::single(InputScope::GlobalSearch, KeyCode::Up, KeyModifiers::none(), Command::MoveUp),
        KeyBinding::single(InputScope::GlobalSearch, KeyCode::Char('k'), KeyModifiers::control(), Command::MoveUp),
        KeyBinding::single(InputScope::GlobalSearch, KeyCode::Char('p'), KeyModifiers::control(), Command::MoveUp),
        KeyBinding::single(InputScope::GlobalSearch, KeyCode::Down, KeyModifiers::none(), Command::MoveDown),
        KeyBinding::single(InputScope::GlobalSearch, KeyCode::Char('j'), KeyModifiers::control(), Command::MoveDown),
        KeyBinding::single(InputScope::GlobalSearch, KeyCode::Char('n'), KeyModifiers::control(), Command::MoveDown),
        KeyBinding::single(InputScope::GlobalSearch, KeyCode::PageUp, KeyModifiers::none(), Command::PageUp),
        KeyBinding::single(InputScope::GlobalSearch, KeyCode::PageDown, KeyModifiers::none(), Command::PageDown),
    ]
}

/// The bindings of [`InputScope::FindWidget`].
pub open spec fn find_widget_table() -> Seq<KeyBinding> {
    seq![
        KeyBinding::single(InputScope::FindWidget, KeyCode::Esc, KeyModifiers::none(), Command::Close),
        KeyBinding::single(InputScope::FindWidget, KeyCode::Char('c'), KeyModifiers::control(), Command::Quit),
        KeyBinding::single(InputScope::FindWidget, KeyCode::Enter, KeyModifiers::none(), Command::Confirm),
        KeyBinding::single(InputScope::FindWidget, KeyCode::Enter, KeyModifiers::shift(), Command::Confirm),
        KeyBinding::single(InputScope::FindWidget, KeyCode::Up, KeyModifiers::none(), Command::MoveUp),
        KeyBinding::single(InputScope::FindWidget, KeyCode::Down, KeyModifiers::none(), Command::MoveDown),
        KeyBinding::single(InputScope::FindWidget, KeyCode::Char('c'), KeyModifiers::alt(), Command::ToggleCase),
        KeyBinding::single(InputScope::FindWidget, KeyCode::Char('C'), KeyModifiers::alt().with_shift(), Command::ToggleCase),
        KeyBinding::single(InputScope::FindWidget, KeyCode::Char('w'), KeyModifiers::alt(), Command::ToggleWholeWord),
        KeyBinding::single(InputScope::FindWidget, KeyCode::Char('W'), KeyModifiers::alt().with_shift(), Command::ToggleWholeWord),
        KeyBinding::single(InputScope::FindWidget, KeyCode::Char('r'), KeyModifiers::alt(), Command::ToggleRegex),
        KeyBinding::single(InputScope::FindWidget, KeyCode::Char('R'), KeyModifiers::alt().with_shift(), Command::ToggleRegex),
    ]
}

fn find_widget_bindings() -> (r: Vec<KeyBinding>)
    ensures
        r@ == find_widget_table(),
{
    vec![
        KeyBinding::single(InputScope::FindWidget, KeyCode::Esc, KeyModifiers::none(), Command::Close),
        KeyBinding::single(InputScope::FindWidget, KeyCode::Char('c'), KeyModifiers::control(), Command::Quit),
        KeyBinding::single(InputScope::FindWidget, KeyCode::Enter, KeyModifiers::none(), Command::Confirm),
        KeyBinding::single(InputScope::FindWidget, KeyCode::Enter, KeyModifiers::shift(), Command::Confirm),
        KeyBinding::single(InputScope::FindWidget, KeyCode::Up, KeyModifiers::none(), Command::MoveUp),
        KeyBinding::single(InputScope::FindWidget, KeyCode::Down, KeyModifiers::none(), Command::MoveDown),
        KeyBinding::single(InputScope::FindWidget, KeyCode::Char('c'), KeyModifiers::alt(), Command::ToggleCase),
        KeyBinding::single(InputScope::FindWidget, KeyCode::Char('C'), KeyModifiers::alt().with_shift(), Command::ToggleCase),
        KeyBinding::single(InputScope::FindWidget, KeyCode::Char('w'), KeyModifiers::alt(), Command::ToggleWholeWord),
        KeyBinding::single(InputScope::FindWidget, KeyCode::Char('W'), KeyModifiers::alt().with_shift(), Command::ToggleWholeWord),
        KeyBinding::single(InputScope::FindWidget, KeyCode::Char('r'), KeyModifiers::alt(), Command::ToggleRegex),
        KeyBinding::single(InputScope::FindWidget, KeyCode::Char('R'), KeyModifiers::alt().with_shift(), Command::ToggleRegex),
    ]
}

/// The bindings of [`InputScope::VimSearch`].
pub open spec fn vim_search_table() -> Seq<KeyBinding> {
    seq![
        KeyBinding::single(InputScope::VimSearch, KeyCode::Esc, KeyModifiers::none(), Command::Close),
        KeyBinding::single(InputScope::VimSearch, KeyCode::Char('c'), KeyModifiers::control(), Command::Quit),
        KeyBinding::single(InputScope::VimSearch, KeyCode::Enter, KeyModifiers::none(), Command::Confirm),
    ]
}

fn vim_search_bindings() -> (r: Vec<KeyBinding>)
    ensures
        r@ == vim_search_table(),
{
    vec![
        KeyBinding::single(InputScope::VimSearch, KeyCode::Esc, KeyModifiers::none(), Command::Close),
        KeyBinding::single(InputScope::VimSearch, KeyCode::Char('c'), KeyModifiers::control(), Command::Quit),
        KeyBinding::single(InputScope::VimSearch, KeyCode::Enter, KeyModifiers::none(), Command::Confirm),
    ]
}

/// The bindings of [`InputScope::TreeEdit`].
pub open spec fn tree_edit_table() -> Seq<KeyBinding> {
    seq![
        KeyBinding::single(InputScope::TreeEdit, KeyCode::Esc, KeyModifiers::none(), Command::Close),
        KeyBinding::single(InputScope::TreeEdit, KeyCode::Char('c'), KeyModifiers::control(), Command::Quit),
        KeyBinding::single(InputScope::TreeEdit, KeyCode::Enter, KeyModifiers::none(), Command::Confirm),
    ]
}

fn tree_edit_bindings() -> (r: Vec<KeyBinding>)
    ensures
        r@ == tree_edit_table(),
{
    vec![
        KeyBinding::single(InputScope::TreeEdit, KeyCode::Esc, KeyModifiers::none(), Command::Close),
        KeyBinding::single(InputScope::TreeEdit, KeyCode::Char('c'), KeyModifiers::control(), Command::Quit),
        KeyBinding::single(InputScope::TreeEdit, KeyCode::Enter, KeyModifiers::none(), Command::Confirm),
    ]
}

/// The bindings of [`InputScope::TreeContextMenu`].
pub open spec fn tree_context_menu_table() -> Seq<KeyBinding> {
    seq![
        KeyBinding::single(InputScope::TreeContextMenu, KeyCode::Esc, KeyModifiers::none(), Command::Close),
        KeyBinding::single(InputScope::TreeContextMenu, KeyCode::Up, KeyModifiers::none(), Command::MoveUp),
        KeyBinding::single(InputScope::TreeContextMenu, KeyCode::Char('k'), KeyModifiers::none(), Command::MoveUp),
        KeyBinding::single(InputScope::TreeContextMenu, KeyCode::Down, KeyModifiers::none(), Command::MoveDown),
        KeyBinding::single(InputScope::TreeContextMenu, KeyCode::Char('j'), KeyModifiers::none(), Command::MoveDown),
        KeyBinding::single(InputScope::TreeContextMenu, KeyCode::Enter, KeyModifiers::none(), Command::Confirm),
    ]
}

fn tree_context_menu_bindings() -> (r: Vec<KeyBinding>)
    ensures
        r@ == tree_context_menu_table(),
{
    vec![
        KeyBinding::single(InputScope::TreeContextMenu, KeyCode::Esc, KeyModifiers::none(), Command::Close),
        KeyBinding::single(InputScope::TreeContextMenu, KeyCode::Up, KeyModifiers::none(), Command::MoveUp),
        KeyBinding::single(InputScope::TreeContextMenu, KeyCode::Char('k'), KeyModifiers::none(), Command::MoveUp),
        KeyBinding::single(InputScope::TreeContextMenu, KeyCode::Down, KeyModifiers::none(), Command::MoveDown),
        KeyBinding::single(InputScope::TreeContextMenu, KeyCode::Char('j'), KeyModifiers::none(), Command::MoveDown),
        KeyBinding::single(InputScope::TreeContextMenu, KeyCode::Enter, KeyModifiers::none(), Command::Confirm),
    ]
}

/// The bindings of [`InputScope::NavCandidates`].
pub open spec fn nav_candidates_table() -> Seq<KeyBinding> {
    seq![
        KeyBinding::single(InputScope::NavCandidates, KeyCode::Esc, KeyModifiers::none(), Command::Close),
        KeyBinding::single(InputScope::NavCandidates, KeyCode::Char('q'), KeyModifiers::none(), Command::Close),
        KeyBinding::single(InputScope::NavCandidates, KeyCode::Char('c'), KeyModifiers::control(), Command::Quit),
        KeyBinding::single(InputScope::NavCandidates, KeyCode::Up, KeyModifiers::none(), Command::MoveUp),
        KeyBinding::single(InputScope::NavCandidates, KeyCode::Char('k'), KeyModifiers::none(), Command::MoveUp),
        KeyBinding::single(InputScope::NavCandidates, KeyCode::Down, KeyModifiers::none(), Command::MoveDown),
        KeyBinding::single(InputScope::NavCandidates, KeyCode::Char('j'), KeyModifiers::none(), Command::MoveDown),
        KeyBinding::single(InputScope::NavCandidates, KeyCode::Enter, KeyModifiers::none(), Command::Confirm),
    ]
}

fn nav_candidates_bindings() -> (r: Vec<KeyBinding>)
    ensures
        r@ == nav_candidates_table(),
{
    vec![
        KeyBinding::single(InputScope::NavCandidates, KeyCode::Esc, KeyModifiers::none(), Command::Close),
        KeyBinding::single(InputScope::NavCandidates, KeyCode::Char('q'), KeyModifiers::none(), Command::Close),
        KeyBinding::single(InputScope::NavCandidates, KeyCode::Char('c'), KeyModifiers::control(), Command::Quit),
        KeyBinding::single(InputScope::NavCandidates, KeyCode::Up, KeyModifiers::none(), Command::MoveUp),
        KeyBinding::single(InputScope::NavCandidates, KeyCode::Char('k'), KeyModifiers::none(), Command::MoveUp),
        KeyBinding::single(InputScope::NavCandidates, KeyCode::Down, KeyModifiers::none(), Command::MoveDown),
        KeyBinding::single(InputScope::NavCandidates, KeyCode::Char('j'), KeyModifiers::none(), Command::MoveDown),
        KeyBinding::single(InputScope::NavCandidates, KeyCode::Enter, KeyModifiers::none(), Command::Confirm),
    ]
}

/// The bindings of [`InputScope::ConfirmModal`].
pub open spec fn confirm_modal_table() -> Seq<KeyBinding> {
    seq![
        KeyBinding::single(InputScope::ConfirmModal, KeyCode::Esc, KeyModifiers::none(), Command::Close),
        KeyBinding::single(InputScope::ConfirmModal, KeyCode::Char('c'), KeyModifiers::control(), Command::Quit),
    ]
}

fn confirm_modal_bindings() -> (r: Vec<KeyBinding>)
    ensures
        r@ == confirm_modal_table(),
{
    vec![
        KeyBinding::single(InputScope::ConfirmModal, KeyCode::Esc, KeyModifiers::none(), Command::Close),
        KeyBinding::single(InputScope::ConfirmModal, KeyCode::Char('c'), KeyModifiers::control(), Command::Quit),
    ]
}

/// The bindings of [`InputScope::PasteConflict`].
pub open spec fn paste_conflict_table() -> Seq<KeyBinding> {
    seq![
        KeyBinding::single(InputScope::PasteConflict, KeyCode::Esc, KeyModifiers::none(), Command::Close),
        KeyBinding::single(InputScope::PasteConflict, KeyCode::Char('c'), KeyModifiers::control(), Command::Quit),
    ]
}

fn paste_conflict_bindings() -> (r: Vec<KeyBinding>)
    ensures
        r@ == paste_conflict_table(),
{
    vec![
        KeyBinding::single(InputScope::PasteConflict, KeyCode::Esc, KeyModifiers::none(), Command::Close),
        KeyBinding::single(InputScope::PasteConflict, KeyCode::Char('c'), KeyModifiers::control(), Command::Quit),
    ]
}

/// The bindings of [`InputScope::DbGoto`].
pub open spec fn db_goto_table() -> Seq<KeyBinding> {
    seq![
        KeyBinding::single(InputScope::DbGoto, KeyCode::Esc, KeyModifiers::none(), Command::Close),
        KeyBinding::single(InputScope::DbGoto, KeyCode::Enter, KeyModifiers::none(), Command::Confirm),
    ]
}

fn db_goto_bindings() -> (r: Vec<KeyBinding>)
    ensures
        r@ == db_goto_table(),
{
    vec![
        KeyBinding::single(InputScope::DbGoto, KeyCode::Esc, KeyModifiers::none(), Command::Close),
        KeyBinding::single(InputScope::DbGoto, KeyCode::Enter, KeyModifiers::none(), Command::Confirm),
    ]
}

/// The bindings of [`InputScope::PlaceMode`].
pub open spec fn place_mode_table() -> Seq<KeyBinding> {
    seq![
        KeyBinding::single(InputScope::PlaceMode, KeyCode::Esc, KeyModifiers::none(), Command::Close),
        KeyBinding::single(InputScope::PlaceMode, KeyCode::Char('c'), KeyModifiers::control(), Command::Quit),
        KeyBinding::single(InputScope::PlaceMode, KeyCode::Char('q'), KeyModifiers::none(), Command::Quit),
    ]
}

fn place_mode_bindings() -> (r: Vec<KeyBinding>)
    ensures
        r@ == place_mode_table(),
{
    vec![
        KeyBinding::single(InputScope::PlaceMode, KeyCode::Esc, KeyModifiers::none(), Command::Close),
        KeyBinding::single(InputScope::PlaceMode, KeyCode::Char('c'), KeyModifiers::control(), Command::Quit),
        KeyBinding::single(InputScope::PlaceMode, KeyCode::Char('q'), KeyModifiers::none(), Command::Quit),
    ]
}

/// The bindings of [`InputScope::TreeDrag`].
pub open spec fn tree_drag_table() -> Seq<KeyBinding> {
    seq![
        KeyBinding::single(InputScope::TreeDrag, KeyCode::Esc, KeyModifiers::none(), Command::Close),
        KeyBinding::single(InputScope::TreeDrag, KeyCode::Char('c'), KeyModifiers::control(), Command::Quit),
    ]
}

fn tree_drag_bindings() -> (r: Vec<KeyBinding>)
    ensures
        r@ == tree_drag_table(),
{
    vec![
        KeyBinding::single(InputScope::TreeDrag, KeyCode::Esc, KeyModifiers::none(), Command::Close),
        KeyBinding::single(InputScope::TreeDrag, KeyCode::Char('c'), KeyModifiers::control(), Command::Quit),
    ]
}

/// The bindings of [`InputScope::HostsPicker`].
pub open spec fn hosts_picker_table() -> Seq<KeyBinding> {
    seq![
        KeyBinding::single(InputScope::HostsPicker, KeyCode::Esc, KeyModifiers::none(), Command::Close),
        KeyBinding::single(InputScope::HostsPicker, KeyCode::Char('c'), KeyModifiers::control(), Command::Quit),
        KeyBinding::single(InputScope::HostsPicker, KeyCode::Enter, KeyModifiers::none(), Command::Confirm),
        KeyBinding::single(InputScope::HostsPicker, KeyCode::Char('p'), KeyModifiers::control(), Command::TogglePickerPathMode),
        KeyBinding::single(InputScope::HostsPicker, KeyCode::Up, KeyModifiers::none(), Command::MoveUp),
        KeyBinding::single(InputScope::HostsPicker, KeyCode::Char('k'), KeyModifiers::control(), Command::MoveUp),
        KeyBinding::single(InputScope::HostsPicker, KeyCode::Down, KeyModifiers::none(), Command::MoveDown),
        KeyBinding::single(InputScope::HostsPicker, KeyCode::Char('j'), KeyModifiers::control(), Command::MoveDown),
        KeyBinding::single(InputScope::HostsPicker, KeyCode::Char('n'), KeyModifiers::control(), Command::MoveDown),
    ]
}

fn hosts_picker_bindings() -> (r: Vec<KeyBinding>)
    ensures
        r@ == hosts_picker_table(),
{
    vec![
        KeyBinding::single(InputScope::HostsPicker, KeyCode::Esc, KeyModifiers::none(), Command::Close),
        KeyBinding::single(InputScope::HostsPicker, KeyCode::Char('c'), KeyModifiers::control(), Command::Quit),
        KeyBinding::single(InputScope::HostsPicker, KeyCode::Enter, KeyModifiers::none(), Command::Confirm),
        KeyBinding::single(InputScope::HostsPicker, KeyCode::Char('p'), KeyModifiers::control(), Command::TogglePickerPathMode),
        KeyBinding::single(InputScope::HostsPicker, KeyCode::Up, KeyModifiers::none(), Command::MoveUp),
        KeyBinding::single(InputScope::HostsPicker, KeyCode::Char('k'), KeyModifiers::control(), Command::MoveUp),
        KeyBinding::single(InputScope::HostsPicker, KeyCode::Down, KeyModifiers::none(), Command::MoveDown),
        KeyBinding::single(InputScope::HostsPicker, KeyCode::Char('j'), KeyModifiers::control(), Command::MoveDown),
        KeyBinding::single(InputScope::HostsPicker, KeyCode::Char('n'), KeyModifiers::control(), Command::MoveDown),
    ]
}

/// The bindings of [`InputScope::GraphBranchPicker`].
pub open spec fn graph_branch_picker_table() -> Seq<KeyBinding> {
    seq![
        KeyBinding::single(InputScope::GraphBranchPicker, KeyCode::Esc, KeyModifiers::none(), Command::Close),
        KeyBinding::single(InputScope::GraphBranchPicker, KeyCode::Char('c'), KeyModifiers::control(), Command::Quit),
        KeyBinding::single(InputScope::GraphBranchPicker, KeyCode::Enter, KeyModifiers::none(), Command::Confirm),
        KeyBinding::single(InputScope::GraphBranchPicker, KeyCode::Up, KeyModifiers::none(), Command::MoveUp),
        KeyBinding::single(InputScope::GraphBranchPicker, KeyCode::Char('k'), KeyModifiers::control(), Command::MoveUp),
        KeyBinding::single(InputScope::GraphBranchPicker, KeyCode::Char('p'), KeyModifiers::control(), Command::MoveUp),
        KeyBinding::single(InputScope::GraphBranchPicker, KeyCode::Down, KeyModifiers::none(), Command::MoveDown),
        KeyBinding::single(InputScope::GraphBranchPicker, KeyCode::Char('j'), KeyModifiers::control(), Command::MoveDown),
        KeyBinding::single(InputScope::GraphBranchPicker, KeyCode::Char('n'), KeyModifiers::control(), Command::MoveDown),
    ]
}

fn graph_branch_picker_bindings() -> (r: Vec<KeyBinding>)
    ensures
        r@ == graph_branch_picker_table(),
{
    vec![
        KeyBinding::single(InputScope::GraphBranchPicker, KeyCode::Esc, KeyModifiers::none(), Command::Close),
        KeyBinding::single(InputScope::GraphBranchPicker, KeyCode::Char('c'), KeyModifiers::control(), Command::Quit),
        KeyBinding::single(InputScope::GraphBranchPicker, KeyCode::Enter, KeyModifiers::none(), Command::Confirm),
        KeyBinding::single(InputScope::GraphBranchPicker, KeyCode::Up, KeyModifiers::none(), Command::MoveUp),
        KeyBinding::single(InputScope::GraphBranchPicker, KeyCode::Char('k'), KeyModifiers::control(), Command::MoveUp),
        KeyBinding::single(InputScope::GraphBranchPicker, KeyCode::Char('p'), KeyModifiers::control(), Command::MoveUp),
        KeyBinding::single(InputScope::GraphBranchPicker, KeyCode::Down, KeyModifiers::none(), Command::MoveDown),
        KeyBinding::single(InputScope::GraphBranchPicker, KeyCode::Char('j'), KeyModifiers::control(), Command::MoveDown),
        KeyBinding::single(InputScope::GraphBranchPicker, KeyCode::Char('n'), KeyModifiers::control(), Command::MoveDown),
    ]
}

/// The bindings of [`InputScope::CommitEditor`].
pub open spec fn commit_editor_table() -> Seq<KeyBinding> {
    seq![
        KeyBinding::single(InputScope::CommitEditor, KeyCode::Esc, KeyModifiers::none(), Command::Close),
        KeyBinding::single(InputScope::CommitEditor, KeyCode::Char('c'), KeyModifiers::control(), Command::Quit),
        KeyBinding::single(InputScope::CommitEditor, KeyCode::Enter, KeyModifiers::control(), Command::Confirm),
        KeyBinding::single(InputScope::CommitEditor, KeyCode::Enter, KeyModifiers::control().with_shift(), Command::Confirm),
    ]
}

fn commit_editor_bindings() -> (r: Vec<KeyBinding>)
    ensures
        r@ == commit_editor_table(),
{
    vec![
        KeyBinding::single(InputScope::CommitEditor, KeyCode::Esc, KeyModifiers::none(), Command::Close),
        KeyBinding::single(InputScope::CommitEditor, KeyCode::Char('c'), KeyModifiers::control(), Command::Quit),
        KeyBinding::single(InputScope::CommitEditor, KeyCode::Enter, KeyModifiers::control(), Command::Confirm),
        KeyBinding::single(InputScope::CommitEditor, KeyCode::Enter, KeyModifiers::control().with_shift(), Command::Confirm),
    ]
}

/// The bindings of [`InputScope::SearchInput`].
pub open spec fn search_input_table() -> Seq<KeyBinding> {
    seq![
        KeyBinding::single(InputScope::SearchInput, KeyCode::Esc, KeyModifiers::none(), Command::Close),
        KeyBinding::single(InputScope::SearchInput, KeyCode::Char('c'), KeyModifiers::control(), Command::Quit),
        KeyBinding::single(InputScope::SearchInput, KeyCode::Enter, KeyModifiers::none(), Command::Confirm),
        KeyBinding::single(InputScope::SearchInput, KeyCode::Enter, KeyModifiers::control(), Command::Confirm),
        KeyBinding::single(InputScope::SearchInput, KeyCode::Enter, KeyModifiers::alt(), Command::Confirm),
        KeyBinding::single(InputScope::SearchInput, KeyCode::Enter, KeyModifiers::control().with_alt(), Command::Confirm),
        KeyBinding::single(InputScope::SearchInput, KeyCode::Up, KeyModifiers::none(), Command::MoveUp),
        KeyBinding::single(InputScope::SearchInput, KeyCode::Char('k'), KeyModifiers::control(), Command::MoveUp),
        KeyBinding::single(InputScope::SearchInput, KeyCode::Char('p'), KeyModifiers::control(), Command::MoveUp),
        KeyBinding::single(InputScope::SearchInput, KeyCode::Down, KeyModifiers::none(), Command::MoveDown),
        KeyBinding::single(InputScope::SearchInput, KeyCode::Char('j'), KeyModifiers::control(), Command::MoveDown),
        KeyBinding::single(InputScope::SearchInput, KeyCode::Char('n'), KeyModifiers::control(), Command::MoveDown),
        KeyBinding::single(InputScope::SearchInput, KeyCode::PageUp, KeyModifiers::none(), Command::PageUp),
        KeyBinding::single(InputScope::SearchInput, KeyCode::PageDown, KeyModifiers::none(), Command::PageDown),
    ]
}

fn search_input_bindings() -> (r: Vec<KeyBinding>)
    ensures
        r@ == search_input_table(),
{
    vec![
        KeyBinding::single(InputScope::SearchInput, KeyCode::Esc, KeyModifiers::none(), Command::Close),
        KeyBinding::single(InputScope::SearchInput, KeyCode::Char('c'), KeyModifiers::control(), Command::Quit),
        KeyBinding::single(InputScope::SearchInput, KeyCode::Enter, KeyModifiers::none(), Command::Confirm),
        KeyBinding::single(InputScope::SearchInput, KeyCode::Enter, KeyModifiers::control(), Command::Confirm),
        KeyBinding::single(InputScope::SearchInput, KeyCode::Enter, KeyModifiers::alt(), Command::Confirm),
        KeyBinding::single(InputScope::SearchInput, KeyCode::Enter, KeyModifiers::control().with_alt(), Command::Confirm),
        KeyBinding::single(InputScope::SearchInput, KeyCode::Up, KeyModifiers::none(), Command::MoveUp),
        KeyBinding::single(InputScope::SearchInput, KeyCode::Char('k'), KeyModifiers::control(), Command::MoveUp),
        KeyBinding::single(InputScope::SearchInput, KeyCode::Char('p'), KeyModifiers::control(), Command::MoveUp),
        KeyBinding::single(InputScope::SearchInput, KeyCode::Down, KeyModifiers::none(), Command::MoveDown),
        KeyBinding::single(InputScope::SearchInput, KeyCode::Char('j'), KeyModifiers::control(), Command::MoveDown),
        KeyBinding::single(InputScope::SearchInput, KeyCode::Char('n'), KeyModifiers::control(), Command::MoveDown),
        KeyBinding::single(InputScope::SearchInput, KeyCode::PageUp, KeyModifiers::none(), Command::PageUp),
        KeyBinding::single(InputScope::SearchInput, KeyCode::PageDown, KeyModifiers::none(), Command::PageDown),
    ]
}

/// The bindings of one scope.
pub open spec fn scope_table(scope: InputScope) -> Seq<KeyBinding> {
    match scope {
        InputScope::Normal => normal_table(),
        InputScope::FocusedPreview => focused_preview_table(),
        InputScope::Settings => settings_table(),
        InputScope::QuickOpen => quick_open_table(),
        InputScope::GlobalSearch => global_search_table(),
        InputScope::FindWidget => find_widget_table(),
        InputScope::VimSearch => vim_search_table(),
        InputScope::TreeEdit => tree_edit_table(),
        InputScope::TreeContextMenu => tree_context_menu_table(),
        InputScope::NavCandidates => nav_candidates_table(),
        InputScope::ConfirmModal => confirm_modal_table(),
        InputScope::PasteConflict => paste_conflict_table(),
        InputScope::DbGoto => db_goto_table(),
        InputScope::PlaceMode => place_mode_table(),
        InputScope::TreeDrag => tree_drag_table(),
        InputScope::HostsPicker => hosts_picker_table(),
        InputScope::GraphBranchPicker => graph_branch_picker_table(),
        InputScope::CommitEditor => commit_editor_table(),
        InputScope::SearchInput => search_input_table(),
    }
}

/// The place of a scope's bindings in the keymap.
pub open spec fn scope_order() -> Seq<InputScope> {
    seq![
        InputScope::Normal,
        InputScope::FocusedPreview,
        InputScope::Settings,
        InputScope::QuickOpen,
        InputScope::GlobalSearch,
        InputScope::FindWidget,
        InputScope::VimSearch,
        InputScope::TreeEdit,
        InputScope::TreeContextMenu,
        InputScope::NavCandidates,
        InputScope::ConfirmModal,
        InputScope::PasteConflict,
        InputScope::DbGoto,
        InputScope::PlaceMode,
        InputScope::TreeDrag,
        InputScope::HostsPicker,
        InputScope::GraphBranchPicker,
        InputScope::CommitEditor,
        InputScope::SearchInput,
    ]
}

/// The bindings of the first `n` scopes, in the order of the keymap.
pub open spec fn joined_tables(n: int) -> Seq<KeyBinding>
    decreases n,
{
    if n <= 0 {
        seq![]
    } else {
        joined_tables(n - 1) + scope_table(scope_order()[n - 1])
    }
}

/// The whole keymap.
pub open spec fn binding_table() -> Seq<KeyBinding> {
    joined_tables(19)
}

/// The bindings of one scope.
fn scope_bindings(scope: InputScope) -> (r: Vec<KeyBinding>)
    ensures
        r@ == scope_table(scope),
{
    match scope {
        InputScope::Normal => normal_bindings(),
        InputScope::FocusedPreview => focused_preview_bindings(),
        InputScope::Settings => settings_bindings(),
        InputScope::QuickOpen => quick_open_bindings(),
        InputScope::GlobalSearch => global_search_bindings(),
        InputScope::FindWidget => find_widget_bindings(),
        InputScope::VimSearch => vim_search_bindings(),
        InputScope::TreeEdit => tree_edit_bindings(),
        InputScope::TreeContextMenu => tree_context_menu_bindings(),
        InputScope::NavCandidates => nav_candidates_bindings(),
        InputScope::ConfirmModal => confirm_modal_bindings(),
        InputScope::PasteConflict => paste_conflict_bindings(),
        InputScope::DbGoto => db_goto_bindings(),
        InputScope::PlaceMode => place_mode_bindings(),
        InputScope::TreeDrag => tree_drag_bindings(),
        InputScope::HostsPicker => hosts_picker_bindings(),
        InputScope::GraphBranchPicker => graph_branch_picker_bindings(),
        InputScope::CommitEditor => commit_editor_bindings(),
        InputScope::SearchInput => search_input_bindings(),
    }
}

/// The whole keymap.
pub fn bindings() -> (r: Vec<KeyBinding>)
    ensures
        r@ == binding_table(),
{
    let scopes: [InputScope; 19] = [
        InputScope::Normal,
        InputScope::FocusedPreview,
        InputScope::Settings,
        InputScope::QuickOpen,
        InputScope::GlobalSearch,
        InputScope::FindWidget,
        InputScope::VimSearch,
        InputScope::TreeEdit,
        InputScope::TreeContextMenu,
        InputScope::NavCandidates,
        InputScope::ConfirmModal,
        InputScope::PasteConflict,
        InputScope::DbGoto,
        InputScope::PlaceMode,
        InputScope::TreeDrag,
        InputScope::HostsPicker,
        InputScope::GraphBranchPicker,
        InputScope::CommitEditor,
        InputScope::SearchInput,
    ];
    let mut all: Vec<KeyBinding> = Vec::new();
    let mut i: usize = 0;
    while i < 19
        invariant
            i <= 19,
            scopes@ == scope_order(),
            all@ == joined_tables(i as int),
        decreases 19 - i,
    {
        let mut more = scope_bindings(scopes[i]);
        all.append(&mut more);
        i += 1;
    }
    all
}

/// A table that holds each key at most once, and only bindings of `scope`.
pub open spec fn table_of(table: Seq<KeyBinding>, scope: InputScope) -> bool {
    &&& all_distinct(table)
    &&& forall|i: int| 0 <= i < table.len() ==> #[trigger] table[i].scope == scope
}

proof fn lemma_normal_table()
    ensures
        table_of(normal_table(), InputScope::Normal),
{
}

proof fn lemma_focused_preview_table()
    ensures
        table_of(focused_preview_table(), InputScope::FocusedPreview),
{
}

proof fn lemma_settings_table()
    ensures
        table_of(settings_table(), InputScope::Settings),
{
}

proof fn lemma_quick_open_table()
    ensures
        table_of(quick_open_table(), InputScope::QuickOpen),
{
}

proof fn lemma_global_search_table()
    ensures
        table_of(global_search_table(), InputScope::GlobalSearch),
{
}

proof fn lemma_find_widget_table()
    ensures
        table_of(find_widget_table(), InputScope::FindWidget),
{
}

proof fn lemma_vim_search_table()
    ensures
        table_of(vim_search_table(), InputScope::VimSearch),
{
}

proof fn lemma_tree_edit_table()
    ensures
        table_of(tree_edit_table(), InputScope::TreeEdit),
{
}

proof fn lemma_tree_context_menu_table()
    ensures
        table_of(tree_context_menu_table(), InputScope::TreeContextMenu),
{
}

proof fn lemma_nav_candidates_table()
    ensures
        table_of(nav_candidates_table(), InputScope::NavCandidates),
{
}

proof fn lemma_confirm_modal_table()
    ensures
        table_of(confirm_modal_table(), InputScope::ConfirmModal),
{
}

proof fn lemma_paste_conflict_table()
    ensures
        table_of(paste_conflict_table(), InputScope::PasteConflict),
{
}

proof fn lemma_db_goto_table()
    ensures
        table_of(db_goto_table(), InputScope::DbGoto),
{
}

proof fn lemma_place_mode_table()
    ensures
        table_of(place_mode_table(), InputScope::PlaceMode),
{
}

proof fn lemma_tree_drag_table()
    ensures
        table_of(tree_drag_table(), InputScope::TreeDrag),
{
}

proof fn lemma_hosts_picker_table()
    ensures
        table_of(hosts_picker_table(), InputScope::HostsPicker),
{
}

proof fn lemma_graph_branch_picker_table()
    ensures
        table_of(graph_branch_picker_table(), InputScope::GraphBranchPicker),
{
}

proof fn lemma_commit_editor_table()
    ensures
        table_of(commit_editor_table(), InputScope::CommitEditor),
{
}

proof fn lemma_search_input_table()
    ensures
        table_of(search_input_table(), InputScope::SearchInput),
{
}

proof fn lemma_scope_table(scope: InputScope)
    ensures
        table_of(scope_table(scope), scope),
{
    match scope {
        InputScope::Normal => lemma_normal_table(),
        InputScope::FocusedPreview => lemma_focused_preview_table(),
        InputScope::Settings => lemma_settings_table(),
        InputScope::QuickOpen => lemma_quick_open_table(),
        InputScope::GlobalSearch => lemma_global_search_table(),
        InputScope::FindWidget => lemma_find_widget_table(),
        InputScope::VimSearch => lemma_vim_search_table(),
        InputScope::TreeEdit => lemma_tree_edit_table(),
        InputScope::TreeContextMenu => lemma_tree_context_menu_table(),
        InputScope::NavCandidates => lemma_nav_candidates_table(),
        InputScope::ConfirmModal => lemma_confirm_modal_table(),
        InputScope::PasteConflict => lemma_paste_conflict_table(),
        InputScope::DbGoto => lemma_db_goto_table(),
        InputScope::PlaceMode => lemma_place_mode_table(),
        InputScope::TreeDrag => lemma_tree_drag_table(),
        InputScope::HostsPicker => lemma_hosts_picker_table(),
        InputScope::GraphBranchPicker => lemma_graph_branch_picker_table(),
        InputScope::CommitEditor => lemma_commit_editor_table(),
        InputScope::SearchInput => lemma_search_input_table(),
    }
}

/// The scope that a key is looked up in.
pub open spec fn key_scope(key: BindingKey) -> InputScope {
    match key {
        BindingKey::Single { scope, .. } => scope,
        BindingKey::Chord { scope, .. } => scope,
    }
}

/// The place of a scope in the keymap's order.
pub open spec fn scope_place(scope: InputScope) -> int {
    match scope {
        InputScope::Normal => 0,
        InputScope::FocusedPreview => 1,
        InputScope::Settings => 2,
        InputScope::QuickOpen => 3,
        InputScope::GlobalSearch => 4,
        InputScope::FindWidget => 5,
        InputScope::VimSearch => 6,
        InputScope::TreeEdit => 7,
        InputScope::TreeContextMenu => 8,
        InputScope::NavCandidates => 9,
        InputScope::ConfirmModal => 10,
        InputScope::PasteConflict => 11,
        InputScope::DbGoto => 12,
        InputScope::PlaceMode => 13,
        InputScope::TreeDrag => 14,
        InputScope::HostsPicker => 15,
        InputScope::GraphBranchPicker => 16,
        InputScope::CommitEditor => 17,
        InputScope::SearchInput => 18,
    }
}

proof fn lemma_scope_place(scope: InputScope)
    ensures
        0 <= scope_place(scope) < scope_order().len(),
        scope_order()[scope_place(scope)] == scope,
        forall|k: int|
            0 <= k < scope_order().len() ==> scope_place(#[trigger] scope_order()[k]) == k,
{
}

proof fn lemma_joined_tables(n: int)
    requires
        0 <= n <= scope_order().len(),
    ensures
        all_distinct(joined_tables(n)),
        forall|i: int|
            0 <= i < joined_tables(n).len() ==> scope_place(#[trigger] joined_tables(n)[i].scope)
                < n,
    decreases n,
{
    if n > 0 {
        let head = joined_tables(n - 1);
        let scope = scope_order()[n - 1];
        let tail = scope_table(scope);
        lemma_joined_tables(n - 1);
        lemma_scope_place(scope);
        lemma_scope_table(scope);
        assert forall|i: int| 0 <= i < joined_tables(n).len() implies scope_place(
            #[trigger] joined_tables(n)[i].scope,
        ) < n by {
            if i < head.len() {
                assert(joined_tables(n)[i] == head[i]);
            } else {
                assert(joined_tables(n)[i] == tail[i - head.len()]);
            }
        }
        assert forall|i: int, j: int| 0 <= i < j < joined_tables(n).len() implies #[trigger] joined_tables(
            n,
        )[i].lookup_key() != #[trigger] joined_tables(n)[j].lookup_key() by {
            if j < head.len() {
                assert(head[i].lookup_key() != head[j].lookup_key());
            } else if i >= head.len() {
                assert(tail[i - head.len()].lookup_key() != tail[j - head.len()].lookup_key());
            } else {
                assert(scope_place(head[i].scope) < n - 1);
                assert(tail[j - head.len()].scope == scope);
            }
        }
    }
}

/// No key is bound twice in one scope.
pub proof fn keymap_has_no_duplicates()
    ensures
        all_distinct(binding_table()),
{
    lemma_joined_tables(19);
}

proof fn lemma_last_before(table: Seq<KeyBinding>, end: int, key: BindingKey)
    requires
        0 <= end <= table.len(),
    ensures
        -1 <= last_before(table, end, key) < end || end == 0,
        last_before(table, end, key) >= 0 ==> table[last_before(table, end, key)].lookup_key()
            == key,
    decreases end,
{
    if end > 0 {
        lemma_last_before(table, end - 1, key);
    }
}

proof fn lemma_first_binding_skips(table: Seq<KeyBinding>, key: BindingKey)
    requires
        forall|i: int| 0 <= i < table.len() ==> #[trigger] table[i].lookup_key() != key,
    ensures
        first_binding(table, key) is None,
    decreases table.len(),
{
    if table.len() > 0 {
        assert(table[0].lookup_key() != key);
        let rest = table.drop_first();
        assert forall|i: int| 0 <= i < rest.len() implies #[trigger] rest[i].lookup_key()
            != key by {
            assert(rest[i] == table[i + 1]);
        }
        lemma_first_binding_skips(rest, key);
    }
}

proof fn lemma_first_binding_append(
    head: Seq<KeyBinding>,
    tail: Seq<KeyBinding>,
    key: BindingKey,
)
    ensures
        first_binding(head + tail, key) == (match first_binding(head, key) {
            Some(command) => Some(command),
            None => first_binding(tail, key),
        }),
    decreases head.len(),
{
    let all = head + tail;
    if head.len() == 0 {
        assert(all =~= tail);
    } else {
        assert(all[0] == head[0]);
        assert(all.drop_first() =~= head.drop_first() + tail);
        lemma_first_binding_append(head.drop_first(), tail, key);
    }
}

proof fn lemma_first_binding_at(table: Seq<KeyBinding>, i: int, key: BindingKey)
    requires
        0 <= i < table.len(),
        table[i].lookup_key() == key,
        all_distinct(table),
    ensures
        first_binding(table, key) == Some(table[i].command),
    decreases table.len(),
{
    if i > 0 {
        assert(table[0].lookup_key() != table[i].lookup_key());
        let rest = table.drop_first();
        assert forall|a: int, b: int| 0 <= a < b < rest.len() implies #[trigger] rest[a].lookup_key()
            != #[trigger] rest[b].lookup_key() by {
            assert(table[a + 1].lookup_key() != table[b + 1].lookup_key());
        }
        assert(rest[i - 1] == table[i]);
        lemma_first_binding_at(rest, i - 1, key);
    }
}

proof fn lemma_first_binding_in_scope(n: int, key: BindingKey)
    requires
        0 <= n <= scope_order().len(),
    ensures
        first_binding(joined_tables(n), key) == (if scope_place(key_scope(key)) < n {
            first_binding(scope_table(key_scope(key)), key)
        } else {
            None
        }),
    decreases n,
{
    if n > 0 {
        let scope = scope_order()[n - 1];
        lemma_first_binding_in_scope(n - 1, key);
        lemma_first_binding_append(joined_tables(n - 1), scope_table(scope), key);
        lemma_scope_place(scope);
        lemma_scope_place(key_scope(key));
        lemma_scope_table(scope);
        if scope != key_scope(key) {
            let table = scope_table(scope);
            assert forall|i: int| 0 <= i < table.len() implies #[trigger] table[i].lookup_key()
                != key by {
                assert(table[i].scope == scope);
            }
            lemma_first_binding_skips(table, key);
        }
    }
}

/// A scope's own bindings decide what a key means in it; those of the other
/// scopes have no say.
pub proof fn scopes_do_not_mix(key: BindingKey)
    ensures
        first_binding(binding_table(), key) == first_binding(scope_table(key_scope(key)), key),
{
    lemma_scope_place(key_scope(key));
    lemma_first_binding_in_scope(19, key);
}

/// Each binding of the keymap is live: looking up its key gives its command.
pub proof fn every_binding_is_live(i: int)
    requires
        0 <= i < binding_table().len(),
    ensures
        first_binding(binding_table(), binding_table()[i].lookup_key()) == Some(
            binding_table()[i].command,
        ),
{
    keymap_has_no_duplicates();
    lemma_first_binding_at(binding_table(), i, binding_table()[i].lookup_key());
}

/// A binding of a single key decides what that key means in its scope.
pub proof fn lemma_bound(scope: InputScope, i: int)
    requires
        0 <= i < scope_table(scope).len(),
        scope_table(scope)[i].chord is None,
    ensures
        resolved(
            scope,
            KeyEvent {
                code: scope_table(scope)[i].key,
                modifiers: scope_table(scope)[i].modifiers,
            },
        ) == Some(scope_table(scope)[i].command),
{
    reveal(resolved);
    lemma_scope_table(scope);
    let key = scope_table(scope)[i].lookup_key();
    assert(scope_table(scope)[i].scope == scope);
    scopes_do_not_mix(key);
    lemma_first_binding_at(scope_table(scope), i, key);
}

/// A key that no binding of the scope names means nothing in it.
pub proof fn lemma_unbound(scope: InputScope, key: KeyEvent)
    requires
        forall|i: int|
            0 <= i < scope_table(scope).len() ==> (#[trigger] scope_table(scope)[i]).key != key.code
                || scope_table(scope)[i].modifiers != key.modifiers || scope_table(
                scope,
            )[i].chord is Some,
    ensures
        resolved(scope, key) is None,
{
    reveal(resolved);
    let wanted = BindingKey::Single { scope, key: key.code, modifiers: key.modifiers };
    let table = scope_table(scope);
    scopes_do_not_mix(wanted);
    assert forall|i: int| 0 <= i < table.len() implies #[trigger] table[i].lookup_key()
        != wanted by {
        assert(scope_table(scope)[i] == table[i]);
    }
    lemma_first_binding_skips(table, wanted);
}

/// A key that no chord of the scope ends with means nothing after a leader.
pub proof fn lemma_chord_unbound(scope: InputScope, leader: KeyCode, key: KeyEvent)
    requires
        forall|i: int|
            0 <= i < scope_table(scope).len() ==> (#[trigger] scope_table(scope)[i]).chord != Some(
                key.code,
            ) || scope_table(scope)[i].modifiers != key.modifiers,
    ensures
        resolved_chord(scope, leader, key) is None,
{
    reveal(resolved_chord);
    let wanted = BindingKey::Chord { scope, leader, chord: key.code, modifiers: key.modifiers };
    let table = scope_table(scope);
    scopes_do_not_mix(wanted);
    assert forall|i: int| 0 <= i < table.len() implies #[trigger] table[i].lookup_key()
        != wanted by {
        assert(scope_table(scope)[i] == table[i]);
    }
    lemma_first_binding_skips(table, wanted);
}

/// A binding of a leader and a second key decides what that key means after the leader.
pub proof fn lemma_chord_bound(scope: InputScope, i: int)
    requires
        0 <= i < scope_table(scope).len(),
        scope_table(scope)[i].chord is Some,
    ensures
        resolved_chord(
            scope,
            scope_table(scope)[i].key,
            KeyEvent {
                code: scope_table(scope)[i].chord->0,
                modifiers: scope_table(scope)[i].modifiers,
            },
        ) == Some(scope_table(scope)[i].command),
{
    reveal(resolved_chord);
    lemma_scope_table(scope);
    let key = scope_table(scope)[i].lookup_key();
    assert(scope_table(scope)[i].scope == scope);
    scopes_do_not_mix(key);
    lemma_first_binding_at(scope_table(scope), i, key);
}

/// A key that no chord with this leader ends with means nothing after it.
pub proof fn lemma_chord_missing(scope: InputScope, leader: KeyCode, key: KeyEvent)
    requires
        forall|i: int|
            0 <= i < scope_table(scope).len() ==> (#[trigger] scope_table(scope)[i]).chord != Some(
                key.code,
            ) || scope_table(scope)[i].modifiers != key.modifiers || scope_table(scope)[i].key
                != leader,
    ensures
        resolved_chord(scope, leader, key) is None,
{
    reveal(resolved_chord);
    let wanted = BindingKey::Chord { scope, leader, chord: key.code, modifiers: key.modifiers };
    let table = scope_table(scope);
    scopes_do_not_mix(wanted);
    assert forall|i: int| 0 <= i < table.len() implies #[trigger] table[i].lookup_key()
        != wanted by {
        assert(scope_table(scope)[i] == table[i]);
    }
    lemma_first_binding_skips(table, wanted);
}

/// The first binding for `key`, where there is one.
proof fn lemma_first_binding_found(table: Seq<KeyBinding>, key: BindingKey) -> (i: int)
    requires
        first_binding(table, key) is Some,
    ensures
        0 <= i < table.len(),
        table[i].lookup_key() == key,
        first_binding(table, key) == Some(table[i].command),
    decreases table.len(),
{
    if table[0].lookup_key() == key {
        0
    } else {
        lemma_first_binding_found(table.drop_first(), key) + 1
    }
}

/// A key that means something in a scope has a binding in the scope's own table.
pub proof fn lemma_resolved_is_bound(scope: InputScope, key: KeyEvent) -> (i: int)
    requires
        resolved(scope, key) is Some,
    ensures
        0 <= i < scope_table(scope).len(),
        scope_table(scope)[i].key == key.code,
        scope_table(scope)[i].modifiers == key.modifiers,
        scope_table(scope)[i].chord is None,
        resolved(scope, key) == Some(scope_table(scope)[i].command),
{
    reveal(resolved);
    let wanted = BindingKey::Single { scope, key: key.code, modifiers: key.modifiers };
    scopes_do_not_mix(wanted);
    lemma_first_binding_found(scope_table(scope), wanted)
}

/// Whether the scope is a line of text that the user types into.
pub open spec fn is_text_field(scope: InputScope) -> bool {
    match scope {
        InputScope::QuickOpen => true,
        InputScope::GlobalSearch => true,
        InputScope::FindWidget => true,
        InputScope::VimSearch => true,
        InputScope::HostsPicker => true,
        InputScope::GraphBranchPicker => true,
        InputScope::TreeEdit => true,
        InputScope::DbGoto => true,
        InputScope::CommitEditor => true,
        InputScope::SearchInput => true,
        _ => false,
    }
}

/// No text field binds a character that is typed without Control or Alt.
pub proof fn text_fields_bind_no_plain_character(scope: InputScope, key: KeyEvent)
    requires
        is_text_field(scope),
        key.code is Char,
        !key.modifiers.control,
        !key.modifiers.alt,
    ensures
        resolved(scope, key) is None,
{
    match scope {
        InputScope::QuickOpen => lemma_unbound(scope, key),
        InputScope::GlobalSearch => lemma_unbound(scope, key),
        InputScope::FindWidget => lemma_unbound(scope, key),
        InputScope::VimSearch => lemma_unbound(scope, key),
        InputScope::HostsPicker => lemma_unbound(scope, key),
        InputScope::GraphBranchPicker => lemma_unbound(scope, key),
        InputScope::TreeEdit => lemma_unbound(scope, key),
        InputScope::DbGoto => lemma_unbound(scope, key),
        InputScope::CommitEditor => lemma_unbound(scope, key),
        InputScope::SearchInput => lemma_unbound(scope, key),
        _ => {},
    }
}

/// Control+C with nothing else held.
pub open spec fn control_c() -> KeyEvent {
    KeyEvent::new(KeyCode::Char('c'), KeyModifiers::control())
}

/// Control+C is bound to quitting in every scope but the context menu, which any key
/// that it does not know takes down, and the page prompt.
pub proof fn control_c_is_quit_nearly_everywhere(scope: InputScope)
    ensures
        scope != InputScope::TreeContextMenu && scope != InputScope::DbGoto ==> resolved(
            scope,
            control_c(),
        ) == Some(Command::Quit),
        scope == InputScope::TreeContextMenu || scope == InputScope::DbGoto ==> resolved(
            scope,
            control_c(),
        ) is None,
{
    match scope {
        InputScope::Normal => lemma_bound(scope, 0),
        InputScope::FocusedPreview => lemma_bound(scope, 2),
        InputScope::Settings => lemma_bound(scope, 2),
        InputScope::QuickOpen => lemma_bound(scope, 1),
        InputScope::GlobalSearch => lemma_bound(scope, 1),
        InputScope::FindWidget => lemma_bound(scope, 1),
        InputScope::VimSearch => lemma_bound(scope, 1),
        InputScope::TreeEdit => lemma_bound(scope, 1),
        InputScope::TreeContextMenu => lemma_unbound(scope, control_c()),
        InputScope::NavCandidates => lemma_bound(scope, 2),
        InputScope::ConfirmModal => lemma_bound(scope, 1),
        InputScope::PasteConflict => lemma_bound(scope, 1),
        InputScope::DbGoto => lemma_unbound(scope, control_c()),
        InputScope::PlaceMode => lemma_bound(scope, 1),
        InputScope::TreeDrag => lemma_bound(scope, 1),
        InputScope::HostsPicker => lemma_bound(scope, 1),
        InputScope::GraphBranchPicker => lemma_bound(scope, 1),
        InputScope::CommitEditor => lemma_bound(scope, 1),
        InputScope::SearchInput => lemma_bound(scope, 1),
    }
}

/// The keymap.
pub struct Keymap;

impl Keymap {
    /// The command that `key` stands for in `scope`.
    pub fn resolve(scope: InputScope, key: &KeyEvent) -> (r: Option<Command>)
        ensures
            r == resolved(scope, *key),
    {
        let wanted = BindingKey::Single { scope, key: key.code, modifiers: key.modifiers };
        proof {
            reveal(resolved);
        }
        Keymap::find(wanted)
    }

    /// The command that `key` stands for in `scope` after `leader`.
    pub fn resolve_chord(scope: InputScope, leader: KeyCode, key: &KeyEvent) -> (r: Option<Command>)
        ensures
            r == resolved_chord(scope, leader, *key),
    {
        let wanted = BindingKey::Chord {
            scope,
            leader,
            chord: key.code,
            modifiers: key.modifiers,
        };
        proof {
            reveal(resolved_chord);
        }
        Keymap::find(wanted)
    }

    fn find(wanted: BindingKey) -> (r: Option<Command>)
        ensures
            r == first_binding(binding_table(), wanted),
    {
        let table = bindings();
        let mut i: usize = 0;
        assert(table@.skip(0) =~= table@);
        while i < table.len()
            invariant
                i <= table.len(),
                table@ == binding_table(),
                first_binding(table@, wanted) == first_binding(table@.skip(i as int), wanted),
            decreases table.len() - i,
        {
            let ghost rest = table@.skip(i as int);
            assert(rest[0] == table[i as int]);
            assert(rest.drop_first() =~= table@.skip(i + 1));
            if table[i].lookup_key() == wanted {
                return Some(table[i].command);
            }
            i += 1;
        }
        None
    }

    /// Checks that no key is claimed twice. The keymap always passes.
    pub fn validate() -> (r: Result<(), DuplicateBinding>)
        ensures
            r is Ok,
    {
        let table = bindings();
        proof {
            keymap_has_no_duplicates();
            assert forall|i: int| 0 <= i < table.len() implies !#[trigger] clashes(table@, i) by {
                let key = table[i].lookup_key();
                lemma_last_before(table@, i, key);
                let at = last_before(table@, i, key);
                if at >= 0 {
                    assert(table@[at].lookup_key() != table@[i].lookup_key());
                }
            }
        }
        validate_bindings(&table)
    }
}

/// Who owns the keyboard: the first of the overlays that is up, in this order, then the
/// page that fills the screen, then a text field of the tab, and the tab itself last.
pub open spec fn keyboard_owner(app: TuiApp) -> InputScope {
    let overlays = app.engine.overlays;
    if overlays.db_goto {
        InputScope::DbGoto
    } else if overlays.hosts_picker {
        InputScope::HostsPicker
    } else if overlays.graph_branch_picker {
        InputScope::GraphBranchPicker
    } else if app.engine.find_widget.active {
        InputScope::FindWidget
    } else if overlays.global_search {
        InputScope::GlobalSearch
    } else if overlays.quick_open {
        InputScope::QuickOpen
    } else if app.engine.vim_search.active {
        InputScope::VimSearch
    } else if overlays.tree_edit {
        InputScope::TreeEdit
    } else if overlays.tree_context_menu {
        InputScope::TreeContextMenu
    } else if overlays.nav_candidates {
        InputScope::NavCandidates
    } else if app.engine.confirm is Some {
        InputScope::ConfirmModal
    } else if overlays.paste_conflict {
        InputScope::PasteConflict
    } else if overlays.place_mode {
        InputScope::PlaceMode
    } else if overlays.tree_drag {
        InputScope::TreeDrag
    } else if app.engine.view_mode == ViewMode::Settings {
        InputScope::Settings
    } else if app.engine.view_mode == ViewMode::FocusedPreview {
        InputScope::FocusedPreview
    } else if overlays.commit_editor {
        InputScope::CommitEditor
    } else if overlays.search_input {
        InputScope::SearchInput
    } else {
        InputScope::Normal
    }
}

/// Who owns the keyboard.
pub fn scope_for_app(app: &TuiApp) -> (r: InputScope)
    ensures
        r == keyboard_owner(*app),
{
    let overlays = app.engine.overlays;
    if overlays.db_goto {
        InputScope::DbGoto
    } else if overlays.hosts_picker {
        InputScope::HostsPicker
    } else if overlays.graph_branch_picker {
        InputScope::GraphBranchPicker
    } else if app.engine.find_widget.active {
        InputScope::FindWidget
    } else if overlays.global_search {
        InputScope::GlobalSearch
    } else if overlays.quick_open {
        InputScope::QuickOpen
    } else if app.engine.vim_search.active {
        InputScope::VimSearch
    } else if overlays.tree_edit {
        InputScope::TreeEdit
    } else if overlays.tree_context_menu {
        InputScope::TreeContextMenu
    } else if overlays.nav_candidates {
        InputScope::NavCandidates
    } else if app.engine.confirm.is_some() {
        InputScope::ConfirmModal
    } else if overlays.paste_conflict {
        InputScope::PasteConflict
    } else if overlays.place_mode {
        InputScope::PlaceMode
    } else if overlays.tree_drag {
        InputScope::TreeDrag
    } else if app.engine.view_mode == ViewMode::Settings {
        InputScope::Settings
    } else if app.engine.view_mode == ViewMode::FocusedPreview {
        InputScope::FocusedPreview
    } else if overlays.commit_editor {
        InputScope::CommitEditor
    } else if overlays.search_input {
        InputScope::SearchInput
    } else {
        InputScope::Normal
    }
}

} // verus!
