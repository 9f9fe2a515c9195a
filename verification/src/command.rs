//! What a decision asks for: commands to the engine and work at the terminal.

use crate::engine::{
    FindPlace, FindTarget, NavLang, Panel, SearchTarget, Tab, ThemePref, TreeDeleteConfirm,
};
use crate::event::{KeyEvent, KeyModifiers, MouseEvent};
use crate::input_edit::TextEditOp;
use crate::picker_core::PickerInput;
use crate::prefs::GraphScope;
use crate::time::Timestamp;
use vstd::prelude::*;

verus! {

/// How loud a toast is.
#[derive(Clone, Copy, Debug, PartialEq, Eq, Structural)]
pub enum ToastLevel {
    Info,
    Warn,
    Error,
}

/// A change to the file tree that a worker made.
#[derive(Clone, Copy, Debug, PartialEq, Eq, Structural)]
pub struct FsMutationKind {
    pub id: u64,
}

/// What a toast says. The words are put to it when it is shown.
#[derive(Debug, PartialEq, Eq)]
pub enum ToastText {
    ClipboardCopied,
    ClipboardCopyFailed,
    CopyPathLossy,
    CopyPathDone(usize),
    CopyRelativePathDone(usize),
    CopyPathFailed,
    SidebarHiddenHint,
    CommitSuccess,
    CommitFailed(String),
    PushSuccess,
    ForcePushSuccess,
    PushFailed(String),
    PlaceModeCopied(usize),
    PlaceModeCopyFailed(String),
    FsMutationSuccess(FsMutationKind),
    FsMutationError(FsMutationKind, String),
    ReplaceDone {
        lines: usize,
        files: usize,
        stale: Option<usize>,
        too_large: Option<usize>,
        errors: Option<usize>,
    },
    ReplaceFailed(String),
    GraphScopeStaleBranch(String),
    GraphPickerNotReady,
    PlaceCopyInFlight,
    TreeOpInFlight,
    PasteClipboardEmpty,
    PasteSelfIntoDescendant,
    PasteNothingToDo,
    PasteCancelled,
    RevealNotOnRemote,
    RevealUnsupported,
    RevealFailed(String),
    MarkdownLinkNotFound(String),
    AutoThemeOnNextLaunch,
}

/// A short notice.
#[derive(Debug, PartialEq, Eq)]
pub struct Toast {
    pub level: ToastLevel,
    pub text: ToastText,
}

impl Toast {
    #[verifier::allow_in_spec]
    pub fn info(text: ToastText) -> Toast
        returns
            (Toast { level: ToastLevel::Info, text }),
    {
        Toast { level: ToastLevel::Info, text }
    }

    #[verifier::allow_in_spec]
    pub fn warn(text: ToastText) -> Toast
        returns
            (Toast { level: ToastLevel::Warn, text }),
    {
        Toast { level: ToastLevel::Warn, text }
    }

    #[verifier::allow_in_spec]
    pub fn error(text: ToastText) -> Toast
        returns
            (Toast { level: ToastLevel::Error, text }),
    {
        Toast { level: ToastLevel::Error, text }
    }
}

/// Moves through a database preview.
#[derive(Clone, Copy, Debug, PartialEq, Eq, Structural)]
pub enum DbNav {
    PrevPage,
    NextPage,
    PrevTable,
    NextTable,
    FirstPage,
    LastPage,
}

/// Paths of the file tree that an action is meant for.
#[derive(Clone, Copy, Debug, PartialEq, Eq, Structural)]
pub enum PathSet {
    Nothing,
    /// The entry at this row.
    Entry(usize),
    /// The whole multi-selection.
    Selection,
}

/// The files of a copy from outside.
#[derive(Debug, PartialEq, Eq)]
pub enum CopySources {
    /// What place mode carries.
    PlaceMode,
    Paths(Vec<String>),
}

/// What the inline editor of the file tree is for.
#[derive(Clone, Copy, Debug, PartialEq, Eq, Structural)]
pub enum TreeEditMode {
    NewFile,
    NewFolder,
    Rename,
}

/// What becomes of a pasted file whose name is taken.
#[derive(Debug, PartialEq, Eq)]
pub enum Resolution {
    Replace,
    Skip,
    /// Keep both, the new one under this name, or under the engine's stand-in.
    KeepBoth(Option<String>),
}

/// The switches of the find widget.
#[derive(Clone, Copy, Debug, PartialEq, Eq, Structural)]
pub enum FindWidgetToggle {
    MatchCase,
    WholeWord,
    Regex,
}

/// The modifiers that a drag looks at.
#[derive(Clone, Copy, Debug, PartialEq, Eq, Structural)]
pub struct InputModifiers {
    pub alt: bool,
    pub ctrl: bool,
    pub shift: bool,
}

/// The modifiers that a drag looks at, out of all that are held.
#[verifier::allow_in_spec]
pub fn input_modifiers(mods: KeyModifiers) -> InputModifiers
    returns
        (InputModifiers { alt: mods.alt, ctrl: mods.control, shift: mods.shift }),
{
    InputModifiers { alt: mods.alt, ctrl: mods.control, shift: mods.shift }
}

/// How many rows of each content panel are on screen.
#[derive(Clone, Copy, Debug, PartialEq, Eq, Structural)]
pub struct SearchViewport {
    pub preview_view_h: usize,
    pub diff_view_h: usize,
    pub commit_detail_view_h: usize,
}

/// Where a jump to a definition started.
#[derive(Clone, Copy, Debug, PartialEq, Eq, Structural)]
pub enum NavAnchor {
    Keyboard,
    Mouse { col: u16, row: u16 },
}

/// A command to the engine.
#[derive(Debug, PartialEq, Eq)]
pub enum AppCommand {
    Quit,
    OpenHelp,
    CloseHelp,
    PushToast(Toast),
    SetActivePanel(Panel),
    SetActiveTab(Tab),
    CyclePanel { reverse: bool, uses_three_col: bool },
    NormalizeActivePanel { uses_three_col: bool },
    ToggleSidebar,
    SetSplitPercent(u16),
    SetGraphDiffSplitPercent(u16),
    CopyToClipboard { text: String, success: Option<Toast>, failure: Toast },
    OpenUrl(String),
    CloseActivePalettes,
    // File tree.
    NavigateFileTree(i32),
    ScrollFileTree(i32),
    ActivateSelectedFileTreeEntry,
    ActivateFileTreeEntryAtIndex(usize),
    ToggleFileTreeExpand(usize),
    RequestEditSelectedFileTreeEntry,
    RefreshFileTree,
    RefreshFileTreeWithTarget(Option<String>),
    RevealFileTreePath(String),
    CollapseAllTreeEntries,
    ClearFileTreeSelectionAndEdit,
    ToggleCurrentFileSelection,
    ToggleFileSelectionAtIndex(usize),
    ExtendFileSelectionToIndex(usize),
    ExtendFileSelectionAfterTreeNav(i32),
    ClearFileSelection,
    MarkCut(PathSet),
    MarkCopy(PathSet),
    ClearClipboard,
    /// Paste into this directory, or into the root.
    PasteInto(Option<String>),
    DuplicateSelection,
    DuplicatePaths(PathSet),
    BeginTreeEdit {
        mode: TreeEditMode,
        /// The root where there is none.
        parent_dir: Option<String>,
        rename_target: Option<String>,
        anchor_idx: Option<usize>,
    },
    CommitTreeEdit,
    CancelTreeEdit,
    EditTreeEditInput(TextEditOp),
    PasteTreeEdit(String),
    OpenTreeContextMenu { target_entry_idx: Option<usize>, anchor: (u16, u16) },
    CloseTreeContextMenu,
    NavigateTreeContextMenu(i32),
    RequestTreeDeleteConfirm { path: String, is_dir: bool, hard: bool },
    ExecuteTreeDelete(TreeDeleteConfirm),
    DismissConfirm,
    ArmFileTreeDragPress { idx: usize, col: u16, row: u16, mods: InputModifiers },
    BeginTreeDrag { sources: PathSet, mods: InputModifiers },
    UpdateTreeDragHover(Option<usize>),
    UpdateTreeDragModifiers(InputModifiers),
    DropTreeDrag { release_mods: InputModifiers },
    CancelTreeDrag,
    AutoExpandTreeDragHover { now: Timestamp },
    EnterPlaceMode(Vec<String>),
    ExitPlaceMode,
    RequestFileCopy { sources: CopySources, dest_dir: String },
    AutoExpandPlaceModeHover { now: Timestamp },
    ResolvePasteConflict { resolution: Resolution, apply_to_all: bool },
    CancelPasteConflict,
    // Preview.
    LoadSelectedPreview,
    LoadPreview(String),
    ReloadPreviewNow { dark: bool, wants_decoded_image: bool },
    PreviewScroll(i32),
    SetPreviewVerticalScroll(usize),
    PreviewHorizontalScroll(i32),
    SetPreviewHorizontalScroll(usize),
    HorizontalScrollAtColumn { column: u16, total_width: u16, delta: i32 },
    SetCtrlHoverTarget(Option<(usize, usize, usize)>),
    OpenDbGoto,
    CloseDbGoto,
    ConfirmDbGoto,
    EditDbGoto(TextEditOp),
    PasteDbGoto(String),
    DbNavigate(DbNav),
    DbNavigateToPage(u64),
    DbSelectObject { schema: String, name: String, kind: u8 },
    DbToggleSchema(String),
    EnterFocusedPreview { uses_three_col: bool },
    EnterFocusedPreviewWithFile { rel: String, dark: bool, wants_decoded_image: bool },
    CloseFocusedPreview,
    ToggleFocusedPreview { uses_three_col: bool },
    OpenFocusedPreviewFiles,
    CloseFocusedPreviewFiles,
    ToggleFocusedPreviewFiles,
    MoveFocusedPreviewFilesSelection(i32),
    SetFocusedPreviewFilesSelection(usize),
    ConfirmFocusedPreviewFilesSelection { dark: bool, uses_three_col: bool },
    PickFocusedPreviewFile { idx: usize, dark: bool, uses_three_col: bool },
    // Git and graph.
    NavigateGitFiles(i32),
    SelectGitFile { path: String, is_staged: bool, dark: bool },
    SelectGitFileForDiscard { path: String, is_staged: bool, dark: bool },
    RefreshStatus,
    StageFile { path: String, dark: bool },
    UnstageFile { path: String, dark: bool },
    StageAll { dark: bool },
    UnstageAll { dark: bool },
    StageFolder { path: String, dark: bool },
    UnstageFolder { path: String, dark: bool },
    ConfirmDiscard { dark: bool },
    RequestEditSelectedGitFile,
    LoadDiff { dark: bool },
    DiffScroll(i32),
    SetDiffVerticalScroll(usize),
    SetActiveDiffVerticalScroll(usize),
    DiffHorizontalScroll(i32),
    SetDiffHorizontalScroll(usize),
    ToggleDiffLayout,
    ToggleDiffMode { dark: bool },
    ToggleStatusTreeMode,
    ToggleCommitDiffLayout,
    ToggleCommitDiffMode,
    ToggleCommitFilesTreeMode,
    ReloadCommitFileDiff { dark: bool, uses_three_col: bool },
    SetCommitEditing(bool),
    EditCommitMessage(TextEditOp),
    PasteCommitMessage(String),
    RunCommit,
    RunPush { force: bool },
    RefreshGraph,
    RefreshGraphUncached,
    SetGraphScope(GraphScope),
    LoadCommitDetail,
    LoadCommitRangeDetail,
    ReloadGraphSelection,
    LoadCommitFileDiff { path: String, dark: bool, uses_three_col: bool },
    SelectGraphCommit(String),
    FocusGraphCommit(String),
    MoveGraphSelection(i32),
    ExtendGraphSelection(i32),
    ClearGraphRange,
    ResetGraphVisualAnchor,
    OpenGraphBranchPicker,
    CloseGraphBranchPicker,
    ConfirmGraphBranchPicker,
    SelectGraphBranchPickerRow { idx: usize, visible_rows: usize },
    MoveGraphBranchPickerSelection { delta: i32, visible_rows: usize },
    ApplyGraphBranchPickerInput { input: PickerInput, visible_rows: usize },
    PasteGraphBranchPicker(String),
    ScrollCommitDetailFileDiffVertical(i32),
    SetCommitDetailVerticalScroll(usize),
    SetCommitDetailFileDiffVerticalScroll(usize),
    // Search.
    BeginVimSearch { target: SearchTarget, backwards: bool },
    ConfirmVimSearch,
    CancelVimSearch { dark: bool },
    ClearVimSearch,
    ClearVimSearchIfTarget(SearchTarget),
    EditVimSearchInput(TextEditOp),
    PasteVimSearchInput(String),
    StepVimSearch { reverse: bool, dark: bool, viewport: SearchViewport },
    /// Search the rows of the target again.
    RecomputeVimSearch { target: SearchTarget, dark: bool, viewport: SearchViewport },
    BeginFindWidget { place: FindPlace, query: Option<String> },
    CloseFindWidget { dark: bool },
    StepFindWidget { reverse: bool, viewport: SearchViewport },
    ToggleFindWidgetOption(FindWidgetToggle),
    EditFindWidgetInput(TextEditOp),
    PasteFindWidgetInput(String),
    /// Search the rows of the target again.
    RecomputeFindWidget { target: FindTarget, dark: bool, viewport: SearchViewport },
    OpenGlobalSearch { seed: Option<String> },
    OpenGlobalReplaceTab,
    CloseGlobalSearch,
    /// The selected hit, once the engine has named it.
    AcceptGlobalSearchHit,
    PinGlobalSearchToTab,
    SelectGlobalSearchResult { idx: usize, visible_rows: usize },
    MoveGlobalSearchSelection { delta: i32, visible_rows: usize },
    ApplyGlobalSearchPickerInput { input: PickerInput, now: Timestamp, visible_rows: usize },
    ScheduleGlobalSearchPreviewSync { now: Timestamp },
    SyncGlobalSearchPreviewToSelected,
    DrainGlobalSearchPreviewSyncDebounce { now: Timestamp },
    ReloadGlobalSearch { now: Timestamp },
    PasteGlobalSearchOverlay { text: String, now: Timestamp },
    PasteGlobalSearchTab { text: String, now: Timestamp },
    FocusGlobalSearchFindInput,
    FocusGlobalSearchReplaceInput,
    FocusGlobalSearchList,
    CycleGlobalSearchFocusForward,
    CycleGlobalSearchFocusBackward,
    EditGlobalSearchFindInput { op: TextEditOp, now: Timestamp },
    EditGlobalSearchReplaceInput(TextEditOp),
    ToggleGlobalSearchReplace,
    ToggleGlobalSearchReplaceForSearchTab,
    ToggleGlobalSearchMatchExcluded(usize),
    CommitReplaceInFiles,
    ScrollGlobalSearchResultsHorizontal(i32),
    SetGlobalSearchResultsHorizontalScroll(usize),
    /// As far to the right as the results go.
    ScrollGlobalSearchResultsToEnd,
    OpenQuickOpen,
    CloseQuickOpen,
    /// Open the selected file, and remember this many of the files opened last.
    AcceptQuickOpenSelection { mru_cap: usize },
    SelectQuickOpenMatch { idx: usize, visible_rows: usize },
    MoveQuickOpenSelection { delta: i32, visible_rows: usize },
    ApplyQuickOpenPickerInput { input: PickerInput, visible_rows: usize },
    PasteQuickOpen(String),
    // Hosts picker.
    CloseHostsPicker,
    ConfirmHostsPicker,
    EnterHostsPickerPathMode,
    ReturnHostsPickerToSearchMode,
    SelectHostsPickerRow(usize),
    MoveHostsPickerSelection(i32),
    ApplyHostsPickerSearchInput(PickerInput),
    EditHostsPickerPathInput(TextEditOp),
    PasteHostsPicker(String),
    // Settings.
    OpenSettings,
    CloseSettings,
    SelectSettingsRow(usize),
    MoveSettingsSelection(i32),
    BeginSettingsEditorCommandEdit,
    CancelSettingsEditorCommandEdit,
    EditSettingsEditorCommand(TextEditOp),
    PasteSettingsEditorCommand(String),
    RefreshLspInstalled,
    // Code navigation.
    SelectNavCandidate(usize),
}

/// A decision that goes on once the engine has done what was asked before it.
#[derive(Clone, Copy, Debug, PartialEq, Eq, Structural)]
pub enum Resume {
    /// `find_widget::begin_resolved`
    BeginFind,
    /// `global_search::accept`
    AcceptGlobalSearch,
    /// `quick_open::accept`
    AcceptQuickOpen,
    /// `TuiApp::activate_selected_setting`
    SettingsRow,
    /// `input::mouse::handle_mouse_outside_editor`, with the same event.
    Mouse(MouseEvent),
    /// `input::git::after_commit_edit`, with the same key and what became of the edit.
    CommitKey(KeyEvent),
    /// `input::scrolling::extend_preview_drag`, with the place now under the cursor.
    PreviewDrag,
    /// `input::scrolling::extend_diff_drag`, with the place now under the cursor.
    DiffDrag,
    /// `TuiApp::apply_runtime_event`, for each event that the engine has queued.
    RuntimeEvents,
    /// `global_search::sync_preview_if_due`, with the engine's word on that.
    PreviewSyncIfDue,
    /// `TuiApp::finish_tick`
    FinishTick,
}

/// What the engine is told at every tick.
#[derive(Clone, Copy, Debug, PartialEq, Eq, Structural)]
pub struct TickOptions {
    pub dark: bool,
    pub wants_decoded_image: bool,
    pub uses_three_col: bool,
}

/// One thing to do. A list of them is done in order.
#[derive(Debug, PartialEq, Eq)]
pub enum Effect {
    /// Hand a command to the engine.
    Run(AppCommand),
    /// Go on with a decision.
    Then(Resume),
    /// Read the ssh hosts and the recent targets, and open the hosts picker on them.
    OpenHostsPicker,
    /// Save the diff layout and mode that the engine now has.
    SaveDiffPrefs,
    SaveStatusTreeMode,
    SaveCommitDiffLayout,
    SaveCommitDiffMode,
    SaveCommitFilesTreeMode,
    SaveThemePref(ThemePref),
    /// Save this encoded list of recently opened files.
    SaveQuickOpenMru(String),
    SaveHostsRecent(Vec<String>),
    SaveGraphScope,
    /// Take over the editor command that was typed, and save what the engine makes of
    /// it.
    CommitEditorCommand,
    /// Read the settings' preferences again and hand them to the engine.
    RefreshPrefCache,
    /// Put the paths on the clipboard, absolute or relative to the root.
    CopyPaths { paths: PathSet, relative: bool },
    RevealPath(String),
    /// Find out what a Markdown link leads to, and go on with `open_markdown_link`.
    ResolveMarkdownLink(String),
    ActivateLspRow(NavLang),
    /// Keys and scrolls of panels that draw themselves.
    GitStatusKey(StatusKey),
    GitStatusScroll(i32),
    /// Hand the graph panel its up or down key this many times.
    GitGraphKeys { up: bool, times: u8 },
    GitGraphScroll(i32),
    CommitDetailKey(char),
    CommitDetailScroll(i32),
    GitCommand { command: String, payload: usize },
    /// Let the engine move on to this time.
    EngineTick { now: Timestamp, options: TickOptions },
    /// Let the mark on a revealed line fade.
    FadePreviewHighlight,
    /// Take over the terminal images that were resized meanwhile.
    TakeResizedImages,
    /// Take over the terminal images that were built meanwhile, as far as
    /// `TuiApp::wants_built_image` says.
    TakeBuiltImages,
    // Code navigation.
    /// Index the symbols of the project, where its files are at hand.
    BuildSymbolIndex,
    GotoDefinition { in_diff: bool, anchor: NavAnchor },
    FindReferences { in_diff: bool, anchor: NavAnchor },
    LocationBack,
    LocationForward,
    PushLocationBeforeJump,
    NavCloseCandidates,
    NavMoveCandidates(i32),
    NavScrollCandidates(i32),
    NavPickCandidate,
    /// Fold the places of a file in, or out.
    NavToggleCandidateGroup(usize),
    /// Remember where a jump began, and go where it leads.
    NavPushBackAndJump { origin: FilePlace, location: FilePlace },
    /// Put the preview's cursor back where it was.
    RestorePreviewCursor(FilePlace),
    ResolvePendingHighlight,
    /// Build a new terminal image for the preview of this generation.
    BuildImageProtocol(u64),
    /// Keep the terminal image there is, and drop the decoded one of this generation.
    KeepImageProtocol(u64),
    /// Drop the terminal image there is.
    DropImageProtocol,
    /// Hand the preview of this generation on to the engine.
    ApplyPreviewResult { generation: u64, preview_view_h: usize },
}

/// A place in a file of the project.
#[derive(Clone, Debug, PartialEq, Eq)]
pub struct FilePlace {
    pub path: String,
    pub line: usize,
    pub byte: usize,
}

/// The keys of the status panel.
#[derive(Clone, Copy, Debug, PartialEq, Eq, Structural)]
pub enum StatusKey {
    Stage,
    Unstage,
    Discard,
    Yes,
    No,
    Escape,
    Refresh,
    TreeMode,
}

/// A command followed by whatever runtime events it has queued.
pub open spec fn run_and_drain(command: AppCommand) -> Seq<Effect> {
    seq![Effect::Run(command), Effect::Then(Resume::RuntimeEvents)]
}

/// A single command.
pub open spec fn run_only(command: AppCommand) -> Seq<Effect> {
    seq![Effect::Run(command)]
}

/// Nothing to do.
pub open spec fn nothing() -> Seq<Effect> {
    Seq::empty()
}

pub fn none() -> (r: Vec<Effect>)
    ensures
        r@ == nothing(),
{
    Vec::new()
}

pub fn run(command: AppCommand) -> (r: Vec<Effect>)
    ensures
        r@ == run_only(command),
{
    vec![Effect::Run(command)]
}

pub fn run_then_drain(command: AppCommand) -> (r: Vec<Effect>)
    ensures
        r@ == run_and_drain(command),
{
    vec![Effect::Run(command), Effect::Then(Resume::RuntimeEvents)]
}

pub fn one(effect: Effect) -> (r: Vec<Effect>)
    ensures
        r@ == seq![effect],
{
    vec![effect]
}

pub fn two(first: Effect, second: Effect) -> (r: Vec<Effect>)
    ensures
        r@ == seq![first, second],
{
    vec![first, second]
}

/// The effects of `first`, then those of `second`.
pub fn join(first: Vec<Effect>, second: Vec<Effect>) -> (r: Vec<Effect>)
    ensures
        r@ == first@ + second@,
{
    let mut all = first;
    let mut rest = second;
    all.append(&mut rest);
    all
}

} // verus!
