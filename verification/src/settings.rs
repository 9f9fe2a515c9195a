//! The settings page: what its rows say and what a row does when it is cycled.

use crate::app::{Theme, TuiApp};
use crate::command::{none, one, two, AppCommand, Effect, Resume, Toast, ToastText};
use crate::engine::{DiffLayout, DiffMode, NavLang, SettingItem, SettingSection, ThemePref};
use vstd::prelude::*;

verus! {

/// A text of the tab bar or of the settings page. The words are put to it when it is shown.
#[derive(Clone, Copy, Debug, PartialEq, Eq, Structural)]
pub enum Msg {
    TabFiles,
    TabSearch,
    TabGit,
    TabGraph,
    SectionGeneral,
    SectionEditor,
    SectionGit,
    SectionGraph,
    SectionNav,
    Item(ItemText),
    Description(ItemText),
    ThemeAuto,
    ThemeDark,
    ThemeLight,
    LayoutUnified,
    LayoutSideBySide,
    ModeCompact,
    ModeFullFile,
}

/// The row that a label or a description belongs to. All language servers share one.
#[derive(Clone, Copy, Debug, PartialEq, Eq, Structural)]
pub enum ItemText {
    Theme,
    Editor,
    DiffLayout,
    DiffMode,
    StatusTreeMode,
    CommitDiffLayout,
    CommitDiffMode,
    CommitFilesTreeMode,
    Lsp,
}

/// The heading of a section.
#[verifier::allow_in_spec]
pub fn section_label(section: SettingSection) -> Msg
    returns
        (match section {
            SettingSection::General => Msg::SectionGeneral,
            SettingSection::Editor => Msg::SectionEditor,
            SettingSection::Git => Msg::SectionGit,
            SettingSection::Graph => Msg::SectionGraph,
            SettingSection::Nav => Msg::SectionNav,
        }),
{
    match section {
        SettingSection::General => Msg::SectionGeneral,
        SettingSection::Editor => Msg::SectionEditor,
        SettingSection::Git => Msg::SectionGit,
        SettingSection::Graph => Msg::SectionGraph,
        SettingSection::Nav => Msg::SectionNav,
    }
}

/// The row that an item's texts belong to.
#[verifier::allow_in_spec]
pub fn item_text(item: SettingItem) -> ItemText
    returns
        (match item {
            SettingItem::Theme => ItemText::Theme,
            SettingItem::EditorCommand => ItemText::Editor,
            SettingItem::DiffLayout => ItemText::DiffLayout,
            SettingItem::DiffMode => ItemText::DiffMode,
            SettingItem::StatusTreeMode => ItemText::StatusTreeMode,
            SettingItem::CommitDiffLayout => ItemText::CommitDiffLayout,
            SettingItem::CommitDiffMode => ItemText::CommitDiffMode,
            SettingItem::CommitFilesTreeMode => ItemText::CommitFilesTreeMode,
            SettingItem::Lsp(_) => ItemText::Lsp,
        }),
{
    match item {
        SettingItem::Theme => ItemText::Theme,
        SettingItem::EditorCommand => ItemText::Editor,
        SettingItem::DiffLayout => ItemText::DiffLayout,
        SettingItem::DiffMode => ItemText::DiffMode,
        SettingItem::StatusTreeMode => ItemText::StatusTreeMode,
        SettingItem::CommitDiffLayout => ItemText::CommitDiffLayout,
        SettingItem::CommitDiffMode => ItemText::CommitDiffMode,
        SettingItem::CommitFilesTreeMode => ItemText::CommitFilesTreeMode,
        SettingItem::Lsp(_) => ItemText::Lsp,
    }
}

/// What a row is called.
#[verifier::allow_in_spec]
pub fn item_label(item: SettingItem) -> Msg
    returns
        Msg::Item(item_text(item)),
{
    Msg::Item(item_text(item))
}

/// What a row is about.
#[verifier::allow_in_spec]
pub fn item_description(item: SettingItem) -> Msg
    returns
        Msg::Description(item_text(item)),
{
    Msg::Description(item_text(item))
}

/// What a theme is called.
#[verifier::allow_in_spec]
pub fn theme_label(pref: ThemePref) -> Msg
    returns
        (match pref {
            ThemePref::Auto => Msg::ThemeAuto,
            ThemePref::Dark => Msg::ThemeDark,
            ThemePref::Light => Msg::ThemeLight,
        }),
{
    match pref {
        ThemePref::Auto => Msg::ThemeAuto,
        ThemePref::Dark => Msg::ThemeDark,
        ThemePref::Light => Msg::ThemeLight,
    }
}

/// What a diff layout is called.
#[verifier::allow_in_spec]
pub fn diff_layout_label(layout: DiffLayout) -> Msg
    returns
        (match layout {
            DiffLayout::Unified => Msg::LayoutUnified,
            DiffLayout::SideBySide => Msg::LayoutSideBySide,
        }),
{
    match layout {
        DiffLayout::Unified => Msg::LayoutUnified,
        DiffLayout::SideBySide => Msg::LayoutSideBySide,
    }
}

/// What a diff mode is called.
#[verifier::allow_in_spec]
pub fn diff_mode_label(mode: DiffMode) -> Msg
    returns
        (match mode {
            DiffMode::Compact => Msg::ModeCompact,
            DiffMode::FullFile => Msg::ModeFullFile,
        }),
{
    match mode {
        DiffMode::Compact => Msg::ModeCompact,
        DiffMode::FullFile => Msg::ModeFullFile,
    }
}

/// The state of a language server, as its row shows it.
#[derive(Clone, Copy, Debug, PartialEq, Eq, Structural)]
pub enum LspRowState {
    /// Installed, and a session has answered.
    Ready,
    /// Installed, and not asked for yet.
    Available,
    /// Starting or indexing.
    Booting,
    /// The last request failed; the next one starts it again.
    Crashed,
    /// Not installed.
    Missing,
}

/// What a row shows as its value.
#[derive(Debug)]
pub enum ItemValue {
    Bool(bool),
    Choice(Msg),
    Text(String),
    LspStatus { lang: NavLang, state: LspRowState },
}

/// What the row of `item` shows as its value. `lsp` is the state of the language server
/// that the row is about, if it is about one.
pub fn current_value(item: SettingItem, app: &TuiApp, lsp: LspRowState) -> (r: ItemValue)
    ensures
        r == (match item {
            SettingItem::Theme => ItemValue::Choice(theme_label(app.engine.settings.theme_pref)),
            SettingItem::EditorCommand => ItemValue::Text(app.engine.editor_command),
            SettingItem::DiffLayout => ItemValue::Choice(diff_layout_label(app.engine.diff_layout)),
            SettingItem::DiffMode => ItemValue::Choice(diff_mode_label(app.engine.diff_mode)),
            SettingItem::StatusTreeMode => ItemValue::Bool(app.engine.status_tree_mode),
            SettingItem::CommitDiffLayout => ItemValue::Choice(
                diff_layout_label(app.engine.commit_diff_layout),
            ),
            SettingItem::CommitDiffMode => ItemValue::Choice(
                diff_mode_label(app.engine.commit_diff_mode),
            ),
            SettingItem::CommitFilesTreeMode => ItemValue::Bool(app.engine.commit_files_tree_mode),
            SettingItem::Lsp(lang) => ItemValue::LspStatus { lang, state: lsp },
        }),
{
    match item {
        SettingItem::Theme => ItemValue::Choice(theme_label(app.engine.settings.theme_pref)),
        SettingItem::EditorCommand => ItemValue::Text(app.engine.editor_command.clone()),
        SettingItem::DiffLayout => ItemValue::Choice(diff_layout_label(app.engine.diff_layout)),
        SettingItem::DiffMode => ItemValue::Choice(diff_mode_label(app.engine.diff_mode)),
        SettingItem::StatusTreeMode => ItemValue::Bool(app.engine.status_tree_mode),
        SettingItem::CommitDiffLayout => ItemValue::Choice(
            diff_layout_label(app.engine.commit_diff_layout),
        ),
        SettingItem::CommitDiffMode => ItemValue::Choice(
            diff_mode_label(app.engine.commit_diff_mode),
        ),
        SettingItem::CommitFilesTreeMode => ItemValue::Bool(app.engine.commit_files_tree_mode),
        SettingItem::Lsp(lang) => ItemValue::LspStatus { lang, state: lsp },
    }
}

/// The theme that follows when the row is cycled.
#[verifier::allow_in_spec]
pub fn next_theme(pref: ThemePref) -> ThemePref
    returns
        (match pref {
            ThemePref::Auto => ThemePref::Dark,
            ThemePref::Dark => ThemePref::Light,
            ThemePref::Light => ThemePref::Auto,
        }),
{
    match pref {
        ThemePref::Auto => ThemePref::Dark,
        ThemePref::Dark => ThemePref::Light,
        ThemePref::Light => ThemePref::Auto,
    }
}

/// What cycling the theme does. Dark and light take hold at once; the automatic choice
/// does at the next start, which a toast says.
pub open spec fn cycle_theme_spec(app: TuiApp) -> (TuiApp, Seq<Effect>) {
    let next = next_theme(app.engine.settings.theme_pref);
    let save = Effect::SaveThemePref(next);
    match next {
        ThemePref::Dark => (TuiApp { theme: Theme { is_dark: true }, ..app }, seq![save]),
        ThemePref::Light => (TuiApp { theme: Theme { is_dark: false }, ..app }, seq![save]),
        ThemePref::Auto => (
            app,
            seq![
                save,
                Effect::Run(AppCommand::PushToast(Toast::info(ToastText::AutoThemeOnNextLaunch))),
            ],
        ),
    }
}

fn cycle_theme(app: &mut TuiApp) -> (r: Vec<Effect>)
    ensures
        *final(app) == cycle_theme_spec(*old(app)).0,
        r@ == cycle_theme_spec(*old(app)).1,
{
    let next = next_theme(app.engine.settings.theme_pref);
    let save = Effect::SaveThemePref(next);
    match next {
        ThemePref::Dark => {
            app.theme = Theme { is_dark: true };
            one(save)
        },
        ThemePref::Light => {
            app.theme = Theme { is_dark: false };
            one(save)
        },
        ThemePref::Auto => two(
            save,
            Effect::Run(AppCommand::PushToast(Toast::info(ToastText::AutoThemeOnNextLaunch))),
        ),
    }
}

/// The state without a diff selection.
pub open spec fn no_diff_selection(app: TuiApp) -> TuiApp {
    TuiApp { diff_selection: None, diff_click_state: None, ..app }
}

/// The state without a selection in the commit's details.
pub open spec fn no_commit_selection(app: TuiApp) -> TuiApp {
    TuiApp { commit_detail_selection: None, commit_detail_click_state: None, ..app }
}

/// What cycling a row does, apart from reading the preferences again.
pub open spec fn cycle_effects(app: TuiApp, item: SettingItem) -> (TuiApp, Seq<Effect>) {
    match item {
        SettingItem::Theme => cycle_theme_spec(app),
        SettingItem::EditorCommand => (app, Seq::empty()),
        SettingItem::DiffLayout => (
            no_diff_selection(app),
            seq![Effect::Run(AppCommand::ToggleDiffLayout), Effect::SaveDiffPrefs],
        ),
        SettingItem::DiffMode => (
            no_diff_selection(app),
            seq![
                Effect::Run(AppCommand::ToggleDiffMode { dark: app.theme.is_dark }),
                Effect::SaveDiffPrefs,
            ],
        ),
        SettingItem::StatusTreeMode => (
            app,
            seq![Effect::Run(AppCommand::ToggleStatusTreeMode), Effect::SaveStatusTreeMode],
        ),
        SettingItem::CommitDiffLayout => (
            no_commit_selection(app),
            seq![Effect::Run(AppCommand::ToggleCommitDiffLayout), Effect::SaveCommitDiffLayout],
        ),
        SettingItem::CommitDiffMode => (
            no_commit_selection(app),
            seq![
                Effect::Run(AppCommand::ToggleCommitDiffMode),
                Effect::SaveCommitDiffMode,
                Effect::Run(
                    AppCommand::ReloadCommitFileDiff {
                        dark: app.theme.is_dark,
                        uses_three_col: app.graph_uses_three_col(),
                    },
                ),
                Effect::Then(Resume::RuntimeEvents),
            ],
        ),
        SettingItem::CommitFilesTreeMode => (
            no_commit_selection(app),
            seq![
                Effect::Run(AppCommand::ToggleCommitFilesTreeMode),
                Effect::SaveCommitFilesTreeMode,
            ],
        ),
        SettingItem::Lsp(lang) => (app, seq![Effect::ActivateLspRow(lang)]),
    }
}

/// What cycling a row does. Afterwards the page reads the preferences again, except
/// after a language server's row, which saves none.
pub open spec fn cycle_spec(app: TuiApp, item: SettingItem) -> (TuiApp, Seq<Effect>) {
    let (next, effects) = cycle_effects(app, item);
    (
        next,
        if item is Lsp {
            effects
        } else {
            effects.push(Effect::RefreshPrefCache)
        },
    )
}

/// Cycles a row. The editor command's row has nothing to cycle: it is typed.
pub fn cycle(app: &mut TuiApp, item: SettingItem) -> (r: Vec<Effect>)
    ensures
        *final(app) == cycle_spec(*old(app), item).0,
        r@ == cycle_spec(*old(app), item).1,
{
    let mut effects = match item {
        SettingItem::Theme => cycle_theme(app),
        SettingItem::EditorCommand => none(),
        SettingItem::DiffLayout => app.toggle_diff_layout(),
        SettingItem::DiffMode => app.toggle_diff_mode(),
        SettingItem::StatusTreeMode => app.toggle_status_tree_mode(),
        SettingItem::CommitDiffLayout => app.toggle_commit_diff_layout(),
        SettingItem::CommitDiffMode => app.toggle_commit_diff_mode(),
        SettingItem::CommitFilesTreeMode => app.toggle_commit_files_tree_mode(),
        SettingItem::Lsp(lang) => {
            return one(Effect::ActivateLspRow(lang));
        },
    };
    effects.push(Effect::RefreshPrefCache);
    effects
}

/// Cycling the theme three times comes back to where it began.
pub proof fn themes_go_round(pref: ThemePref)
    ensures
        next_theme(next_theme(next_theme(pref))) == pref,
        next_theme(pref) != pref,
{
}

/// The Git tab and the Graph tab keep their diff preferences apart: cycling a row of
/// one never saves or toggles those of the other.
pub proof fn diff_preferences_stay_apart(app: TuiApp)
    ensures
        !cycle_spec(app, SettingItem::CommitDiffLayout).1.contains(Effect::SaveDiffPrefs),
        !cycle_spec(app, SettingItem::CommitDiffMode).1.contains(Effect::SaveDiffPrefs),
        !cycle_spec(app, SettingItem::DiffLayout).1.contains(Effect::SaveCommitDiffLayout),
        !cycle_spec(app, SettingItem::DiffMode).1.contains(Effect::SaveCommitDiffMode),
{
}

/// Every row and every value is called by its own name.
pub proof fn settings_are_called_by_their_name(lang: NavLang)
    ensures
        item_label(SettingItem::Theme) == Msg::Item(ItemText::Theme),
        item_label(SettingItem::EditorCommand) == Msg::Item(ItemText::Editor),
        item_label(SettingItem::DiffLayout) == Msg::Item(ItemText::DiffLayout),
        item_label(SettingItem::DiffMode) == Msg::Item(ItemText::DiffMode),
        item_label(SettingItem::StatusTreeMode) == Msg::Item(ItemText::StatusTreeMode),
        item_label(SettingItem::CommitDiffLayout) == Msg::Item(ItemText::CommitDiffLayout),
        item_label(SettingItem::CommitDiffMode) == Msg::Item(ItemText::CommitDiffMode),
        item_label(SettingItem::CommitFilesTreeMode) == Msg::Item(ItemText::CommitFilesTreeMode),
        item_label(SettingItem::Lsp(lang)) == Msg::Item(ItemText::Lsp),
        forall|item: SettingItem|
            item_label(item) matches Msg::Item(text) && (#[trigger] item_description(item))
                == Msg::Description(text),
        section_label(SettingSection::General) == Msg::SectionGeneral,
        section_label(SettingSection::Editor) == Msg::SectionEditor,
        section_label(SettingSection::Git) == Msg::SectionGit,
        section_label(SettingSection::Graph) == Msg::SectionGraph,
        section_label(SettingSection::Nav) == Msg::SectionNav,
        theme_label(ThemePref::Auto) == Msg::ThemeAuto,
        theme_label(ThemePref::Dark) == Msg::ThemeDark,
        theme_label(ThemePref::Light) == Msg::ThemeLight,
        diff_layout_label(DiffLayout::Unified) == Msg::LayoutUnified,
        diff_layout_label(DiffLayout::SideBySide) == Msg::LayoutSideBySide,
        diff_mode_label(DiffMode::Compact) == Msg::ModeCompact,
        diff_mode_label(DiffMode::FullFile) == Msg::ModeFullFile,
{
}

} // verus!
