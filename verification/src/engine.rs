//! What the terminal reads of the workbench engine, as plain values.

use crate::tree_context_menu::ContextMenuItem;
use vstd::prelude::*;

verus! {

/// The tabs of the workbench.
#[derive(Clone, Copy, Debug, PartialEq, Eq, Structural)]
pub enum Tab {
    Files,
    Search,
    Git,
    Graph,
}

impl Tab {
    /// The tabs in the order of the tab bar.
    pub const ALL: [Tab; 4] = [Tab::Files, Tab::Search, Tab::Git, Tab::Graph];
}

/// The columns of a tab.
#[derive(Clone, Copy, Debug, PartialEq, Eq, Structural)]
pub enum Panel {
    Files,
    Commit,
    Diff,
}

/// What fills the screen.
#[derive(Clone, Copy, Debug, PartialEq, Eq, Structural)]
pub enum ViewMode {
    Main,
    Settings,
    FocusedPreview,
}

/// How a diff is laid out.
#[derive(Clone, Copy, Debug, PartialEq, Eq, Structural)]
pub enum DiffLayout {
    Unified,
    SideBySide,
}

/// How much of a file a diff shows.
#[derive(Clone, Copy, Debug, PartialEq, Eq, Structural)]
pub enum DiffMode {
    Compact,
    FullFile,
}

/// Which half of a diff a column belongs to.
#[derive(Clone, Copy, Debug, PartialEq, Eq, Structural)]
pub enum DiffSide {
    Unified,
    SbsLeft,
    SbsRight,
}

/// The row of the Search tab's sidebar that has the focus.
#[derive(Clone, Copy, Debug, PartialEq, Eq, Structural)]
pub enum SearchPanelFocus {
    FindInput,
    ReplaceInput,
    List,
}

/// The two inputs of the hosts picker.
#[derive(Clone, Copy, Debug, PartialEq, Eq, Structural)]
pub enum InputMode {
    Search,
    Path,
}

/// What the in-panel search looks through.
#[derive(Clone, Copy, Debug, PartialEq, Eq, Structural)]
pub enum SearchTarget {
    FileTree,
    GitStatus,
    CommitGraph,
    FilePreview,
    Diff,
    GraphDiff,
    CommitDetail,
}

/// What the find widget looks through.
#[derive(Clone, Copy, Debug, PartialEq, Eq, Structural)]
pub enum FindTarget {
    FilePreview,
    DiffUnified,
    DiffSbsLeft,
    DiffSbsRight,
    GraphDiffUnified,
    GraphDiffSbsLeft,
    GraphDiffSbsRight,
}

/// Where the find widget opens. Which half of a side-by-side diff it looks through is
/// for the engine to say, from the half that holds the selection.
#[derive(Clone, Copy, Debug, PartialEq, Eq, Structural)]
pub enum FindPlace {
    FilePreview,
    Diff { layout: DiffLayout, side: Option<DiffSide>, graph: bool },
}

/// A language with a language server.
#[derive(Clone, Copy, Debug, PartialEq, Eq, Structural)]
pub struct NavLang {
    pub id: u8,
}

/// The rows of the settings page.
#[derive(Clone, Copy, Debug, PartialEq, Eq, Structural)]
pub enum SettingItem {
    Theme,
    EditorCommand,
    DiffLayout,
    DiffMode,
    StatusTreeMode,
    CommitDiffLayout,
    CommitDiffMode,
    CommitFilesTreeMode,
    Lsp(NavLang),
}

/// The sections of the settings page.
#[derive(Clone, Copy, Debug, PartialEq, Eq, Structural)]
pub enum SettingSection {
    General,
    Editor,
    Git,
    Graph,
    Nav,
}

/// The theme the user asked for.
#[derive(Clone, Copy, Debug, PartialEq, Eq, Structural)]
pub enum ThemePref {
    Auto,
    Dark,
    Light,
}

/// Which overlays are up.
#[derive(Clone, Copy, Debug, PartialEq, Eq, Structural)]
pub struct Overlays {
    pub db_goto: bool,
    pub hosts_picker: bool,
    pub graph_branch_picker: bool,
    pub global_search: bool,
    pub quick_open: bool,
    pub tree_edit: bool,
    pub tree_context_menu: bool,
    pub nav_candidates: bool,
    pub paste_conflict: bool,
    pub place_mode: bool,
    pub tree_drag: bool,
    pub commit_editor: bool,
    pub search_input: bool,
}

/// A delete that waits for the user's word.
#[derive(Debug, PartialEq, Eq)]
pub struct TreeDeleteConfirm {
    pub path: String,
    pub is_dir: bool,
    pub hard: bool,
}

impl Clone for TreeDeleteConfirm {
    fn clone(&self) -> (r: Self)
        ensures
            r == *self,
    {
        TreeDeleteConfirm { path: self.path.clone(), is_dir: self.is_dir, hard: self.hard }
    }
}

/// A question that waits for the user's word, and the characters that say yes.
#[derive(Debug)]
pub struct ConfirmRequest {
    pub delete: TreeDeleteConfirm,
    pub confirm_keys: Vec<char>,
}

/// The in-panel search.
#[derive(Clone, Copy, Debug, PartialEq, Eq, Structural)]
pub struct VimSearch {
    pub active: bool,
    pub has_matches: bool,
    pub target: Option<SearchTarget>,
    /// What a search begun now would look through while the Graph tab shows three
    /// columns.
    pub three_column_target: Option<SearchTarget>,
    /// What it would look through otherwise.
    pub other_target: Option<SearchTarget>,
    pub can_step: bool,
}

/// The find widget.
#[derive(Clone, Copy, Debug, PartialEq, Eq, Structural)]
pub struct FindWidget {
    pub active: bool,
    pub query_is_empty: bool,
    pub has_matches: bool,
    pub target: Option<FindTarget>,
}

/// The global search and the Search tab.
#[derive(Clone, Copy, Debug, PartialEq, Eq, Structural)]
pub struct GlobalSearch {
    pub query_is_empty: bool,
    pub replace_open: bool,
    pub selected_idx: usize,
    pub focus: SearchPanelFocus,
    pub has_selected_hit: bool,
    /// Whether the preview shows something else than the selected hit.
    pub preview_is_stale: bool,
    pub loading: bool,
}

/// The quick-open palette.
#[derive(Clone, Copy, Debug, PartialEq, Eq, Structural)]
pub struct QuickOpen {
    pub query_is_empty: bool,
    pub has_selection: bool,
}

/// What kind of thing the preview shows.
#[derive(Clone, Copy, Debug, PartialEq, Eq, Structural)]
pub enum PreviewKind {
    Empty,
    Text,
    Markdown,
    Database,
    Image,
    Other,
}

/// The facts about an image that tell one from another.
#[derive(Debug)]
pub struct ImageFacts {
    pub bytes_on_disk: u64,
    pub width_px: u32,
    pub height_px: u32,
    pub format: String,
}

/// The file preview.
#[derive(Debug)]
pub struct Preview {
    pub kind: PreviewKind,
    pub path: String,
    /// Lines of a text, or rows of a rendered Markdown page.
    pub row_count: usize,
    pub scroll: usize,
    pub h_scroll: usize,
    pub image: Option<ImageFacts>,
    pub generation: u64,
}

impl Preview {
    /// Whether the preview shows rows of text that can be selected.
    #[verifier::allow_in_spec]
    pub fn is_text(&self) -> bool
        returns
            self.kind == PreviewKind::Text || self.kind == PreviewKind::Markdown,
    {
        self.kind == PreviewKind::Text || self.kind == PreviewKind::Markdown
    }
}

/// The settings page.
#[derive(Clone, Copy, Debug, PartialEq, Eq, Structural)]
pub struct Settings {
    pub editing_editor_command: bool,
    pub selected: SettingItem,
    pub row_count: usize,
    pub theme_pref: ThemePref,
}

/// The commit graph.
#[derive(Debug)]
pub struct Graph {
    pub in_visual_mode: bool,
    pub has_range_anchor: bool,
    pub selected_idx: usize,
    /// The commits of the graph's rows, top to bottom.
    pub oids: Vec<String>,
    pub file_diff_loaded: bool,
    pub file_diff_loading: bool,
}

/// A row of the file tree.
#[derive(Debug)]
pub struct TreeEntry {
    /// Relative to the tree's root.
    pub path: String,
    /// The directory that holds the entry, relative to the tree's root.
    pub parent: String,
    pub abs_path: String,
    pub is_dir: bool,
    pub is_expanded: bool,
}

/// The file tree, its selection and its context menu.
#[derive(Debug)]
pub struct FileTree {
    pub root: String,
    pub entries: Vec<TreeEntry>,
    pub selected: usize,
    /// The paths of the multi-selection, relative to the root.
    pub selection: Vec<String>,
    pub clipboard_is_empty: bool,
    pub menu_target: Option<usize>,
    pub menu_current: Option<ContextMenuItem>,
    pub drag_press_armed: bool,
    pub keep_both_name: Option<String>,
}

/// How the columns share the screen.
#[derive(Clone, Copy, Debug, PartialEq, Eq, Structural)]
pub struct Columns {
    pub split_percent: u16,
    pub graph_diff_split_percent: u16,
    pub sidebar_hidden: bool,
}

/// Everything that the terminal reads of the engine.
#[derive(Debug)]
pub struct Engine {
    pub active_tab: Tab,
    pub active_panel: Panel,
    pub view_mode: ViewMode,
    pub overlays: Overlays,
    pub confirm: Option<ConfirmRequest>,
    pub vim_search: VimSearch,
    pub find_widget: FindWidget,
    pub global_search: GlobalSearch,
    pub quick_open: QuickOpen,
    pub preview: Preview,
    pub settings: Settings,
    pub graph: Graph,
    pub tree: FileTree,
    pub columns: Columns,
    pub hosts_picker_mode: InputMode,
    pub commit_editing: bool,
    pub commit_message_is_empty: bool,
    pub git_confirm_prompt: bool,
    pub focused_preview_files_open: bool,
    pub focused_preview_file_count: usize,
    pub nav_opened_by_ctrl_click: bool,
    pub diff_layout: DiffLayout,
    pub diff_mode: DiffMode,
    pub status_tree_mode: bool,
    pub commit_diff_layout: DiffLayout,
    pub commit_diff_mode: DiffMode,
    pub commit_files_tree_mode: bool,
    pub editor_command: String,
    pub active_diff_scroll: Option<usize>,
    pub backend_is_remote: bool,
    pub git_file_count: usize,
}

impl Overlays {
    /// No overlay is up.
    #[verifier::allow_in_spec]
    pub fn none() -> Overlays
        returns
            (Overlays {
                db_goto: false,
                hosts_picker: false,
                graph_branch_picker: false,
                global_search: false,
                quick_open: false,
                tree_edit: false,
                tree_context_menu: false,
                nav_candidates: false,
                paste_conflict: false,
                place_mode: false,
                tree_drag: false,
                commit_editor: false,
                search_input: false,
            }),
    {
        Overlays {
            db_goto: false,
            hosts_picker: false,
            graph_branch_picker: false,
            global_search: false,
            quick_open: false,
            tree_edit: false,
            tree_context_menu: false,
            nav_candidates: false,
            paste_conflict: false,
            place_mode: false,
            tree_drag: false,
            commit_editor: false,
            search_input: false,
        }
    }
}

impl Default for Engine {
    /// An empty project, seen for the first time.
    fn default() -> (r: Engine)
        ensures
            r.active_tab == Tab::Files,
            r.active_panel == Panel::Files,
            r.view_mode == ViewMode::Main,
            r.overlays == Overlays::none(),
            r.confirm is None,
            !r.vim_search.active && !r.find_widget.active,
            r.preview.kind == PreviewKind::Empty && r.preview.path@.len() == 0,
            r.graph.oids@.len() == 0,
            r.tree.entries@.len() == 0 && r.tree.selection@.len() == 0,
            !r.commit_editing && !r.git_confirm_prompt && !r.focused_preview_files_open,
    {
        Engine {
            active_tab: Tab::Files,
            active_panel: Panel::Files,
            view_mode: ViewMode::Main,
            overlays: Overlays::none(),
            confirm: None,
            vim_search: VimSearch {
                active: false,
                has_matches: false,
                target: None,
                three_column_target: None,
                other_target: None,
                can_step: false,
            },
            find_widget: FindWidget {
                active: false,
                query_is_empty: true,
                has_matches: false,
                target: None,
            },
            global_search: GlobalSearch {
                query_is_empty: true,
                replace_open: false,
                selected_idx: 0,
                focus: SearchPanelFocus::List,
                has_selected_hit: false,
                preview_is_stale: false,
                loading: false,
            },
            quick_open: QuickOpen { query_is_empty: true, has_selection: false },
            preview: Preview {
                kind: PreviewKind::Empty,
                path: String::new(),
                row_count: 0,
                scroll: 0,
                h_scroll: 0,
                image: None,
                generation: 0,
            },
            settings: Settings {
                editing_editor_command: false,
                selected: SettingItem::Theme,
                row_count: 0,
                theme_pref: ThemePref::Auto,
            },
            graph: Graph {
                in_visual_mode: false,
                has_range_anchor: false,
                selected_idx: 0,
                oids: Vec::new(),
                file_diff_loaded: false,
                file_diff_loading: false,
            },
            tree: FileTree {
                root: String::new(),
                entries: Vec::new(),
                selected: 0,
                selection: Vec::new(),
                clipboard_is_empty: true,
                menu_target: None,
                menu_current: None,
                drag_press_armed: false,
                keep_both_name: None,
            },
            columns: Columns {
                split_percent: 30,
                graph_diff_split_percent: 60,
                sidebar_hidden: false,
            },
            hosts_picker_mode: InputMode::Search,
            commit_editing: false,
            commit_message_is_empty: true,
            git_confirm_prompt: false,
            focused_preview_files_open: false,
            focused_preview_file_count: 0,
            nav_opened_by_ctrl_click: false,
            diff_layout: DiffLayout::Unified,
            diff_mode: DiffMode::Compact,
            status_tree_mode: false,
            commit_diff_layout: DiffLayout::Unified,
            commit_diff_mode: DiffMode::Compact,
            commit_files_tree_mode: false,
            editor_command: String::new(),
            active_diff_scroll: None,
            backend_is_remote: false,
            git_file_count: 0,
        }
    }
}

} // verus!
