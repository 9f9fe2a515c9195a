//! What the file tree's actions are meant for.

use crate::app::TuiApp;
use crate::command::{
    join, none, nothing, one, run, run_and_drain, run_only, run_then_drain, AppCommand, Effect,
    InputModifiers, PathSet, Toast, ToastText, TreeEditMode,
};
use crate::engine::{FileTree, TreeEntry};
use crate::text::{begins_with, contains_text, holds_text};
use crate::tree_context_menu::ContextMenuItem;
use vstd::prelude::*;

verus! {

/// Whether `paths` holds `path`.
pub open spec fn holds_path(paths: Seq<String>, path: Seq<char>) -> bool {
    exists|i: int| 0 <= i < paths.len() && #[trigger] paths[i]@ == path
}

fn contains_path(paths: &Vec<String>, path: &String) -> (r: bool)
    ensures
        r == holds_path(paths@, path@),
{
    let mut i: usize = 0;
    while i < paths.len()
        invariant
            i <= paths.len(),
            forall|j: int| 0 <= j < i ==> #[trigger] paths@[j]@ != path@,
        decreases paths.len() - i,
    {
        if paths[i] == *path {
            assert(paths@[i as int]@ == path@);
            return true;
        }
        i += 1;
    }
    false
}

impl FileTree {
    /// The paths that an action on the entry at `idx` is meant for: the whole
    /// selection where the entry belongs to it, and the entry alone otherwise.
    pub open spec fn paths_at(&self, idx: Option<usize>) -> PathSet {
        match idx {
            Some(i) if i < self.entries@.len() =>
                if holds_path(self.selection@, self.entries@[i as int].path@) {
                    PathSet::Selection
                } else {
                    PathSet::Entry(i)
                },
            _ => PathSet::Nothing,
        }
    }

    fn action_paths(&self, idx: Option<usize>) -> (r: PathSet)
        ensures
            r == self.paths_at(idx),
    {
        match idx {
            Some(i) => {
                if i < self.entries.len() {
                    if contains_path(&self.selection, &self.entries[i].path) {
                        PathSet::Selection
                    } else {
                        PathSet::Entry(i)
                    }
                } else {
                    PathSet::Nothing
                }
            },
            None => PathSet::Nothing,
        }
    }

    /// The directory that a paste on the entry at `idx` goes into: a folder itself, a
    /// file's parent, and the root where no entry is meant.
    pub open spec fn paste_dir(&self, idx: Option<usize>) -> Option<Seq<char>> {
        match idx {
            None => Some(Seq::empty()),
            Some(i) if i < self.entries@.len() => {
                let entry = self.entries@[i as int];
                Some(
                    if entry.is_dir {
                        entry.path@
                    } else {
                        entry.parent@
                    },
                )
            },
            Some(_) => None,
        }
    }
}

/// The paths of a set, as texts.
pub open spec fn texts_of(tree: &FileTree, set: PathSet) -> Seq<Seq<char>> {
    match set {
        PathSet::Nothing => Seq::empty(),
        PathSet::Entry(i) => seq![tree.entries@[i as int].path@],
        PathSet::Selection => tree.selection@.map_values(|p: String| p@),
    }
}

impl TuiApp {
    /// The paths that the next action on the tree is meant for: the whole selection
    /// where the cursor's row belongs to it, and the cursor's row alone otherwise.
    pub open spec fn action_set(&self) -> PathSet {
        self.engine.tree.paths_at(Some(self.engine.tree.selected))
    }

    pub fn effective_path_set(&self) -> (r: PathSet)
        ensures
            r == self.action_set(),
    {
        self.engine.tree.action_paths(Some(self.engine.tree.selected))
    }

    /// The paths that the next action on the tree is meant for.
    pub fn effective_action_paths(&self) -> (r: Vec<String>)
        ensures
            r@.map_values(|p: String| p@) == texts_of(&self.engine.tree, self.action_set()),
    {
        match self.effective_path_set() {
            PathSet::Nothing => {
                let out: Vec<String> = Vec::new();
                assert(out@.map_values(|p: String| p@) =~= Seq::<Seq<char>>::empty());
                out
            },
            PathSet::Entry(i) => {
                let out: Vec<String> = vec![self.engine.tree.entries[i].path.clone()];
                assert(out@.map_values(|p: String| p@) =~= seq![
                    self.engine.tree.entries@[i as int].path@,
                ]);
                out
            },
            PathSet::Selection => {
                let mut out: Vec<String> = Vec::new();
                let mut i: usize = 0;
                while i < self.engine.tree.selection.len()
                    invariant
                        i <= self.engine.tree.selection.len(),
                        out@ == self.engine.tree.selection@.take(i as int),
                    decreases self.engine.tree.selection.len() - i,
                {
                    out.push(self.engine.tree.selection[i].clone());
                    i += 1;
                    assert(self.engine.tree.selection@.take(i as int)
                        == self.engine.tree.selection@.take(i - 1).push(
                        self.engine.tree.selection@[i - 1],
                    ));
                }
                assert(out@ =~= self.engine.tree.selection@);
                out
            },
        }
    }

    /// The directory that the next paste goes into: the folder under the cursor, the
    /// parent of the file under it, or the root.
    pub fn paste_target_dir(&self) -> (r: String)
        ensures
            r@ == (match self.engine.tree.paste_dir(Some(self.engine.tree.selected)) {
                Some(dir) => dir,
                None => Seq::empty(),
            }),
            self.engine.tree.selected < self.engine.tree.entries@.len() ==> r == (
            if self.engine.tree.entries@[self.engine.tree.selected as int].is_dir {
                self.engine.tree.entries@[self.engine.tree.selected as int].path
            } else {
                self.engine.tree.entries@[self.engine.tree.selected as int].parent
            }),
    {
        let tree = &self.engine.tree;
        if tree.selected < tree.entries.len() {
            if tree.entries[tree.selected].is_dir {
                tree.entries[tree.selected].path.clone()
            } else {
                tree.entries[tree.selected].parent.clone()
            }
        } else {
            String::new()
        }
    }

    /// The directory that the next paste goes into, unless it is the root.
    pub open spec fn paste_dest_spec(&self) -> Option<String> {
        let tree = self.engine.tree;
        if tree.selected < tree.entries@.len() {
            let entry = tree.entries@[tree.selected as int];
            Some(
                if entry.is_dir {
                    entry.path
                } else {
                    entry.parent
                },
            )
        } else {
            None
        }
    }

    pub fn paste_dest(&self) -> (r: Option<String>)
        ensures
            r == self.paste_dest_spec(),
    {
        if self.engine.tree.selected < self.engine.tree.entries.len() {
            Some(self.paste_target_dir())
        } else {
            None
        }
    }

    /// The name under which both files of the current paste conflict can stay.
    pub fn keep_both_name_for_current_conflict(&self) -> (r: Option<String>)
        ensures
            r == self.engine.tree.keep_both_name,
    {
        match &self.engine.tree.keep_both_name {
            Some(name) => Some(name.clone()),
            None => None,
        }
    }
}

/// Where a new entry goes: the collapsed folder to open first, the directory (the
/// root where there is none) and the row that the name is typed under.
#[derive(Debug)]
pub struct CreateAnchor {
    pub expand: Option<usize>,
    pub parent: Option<String>,
    pub anchor: Option<usize>,
}

impl FileTree {
    /// Where an entry created on the row `target` goes: into a folder, beside a file,
    /// and into the root where no row is meant.
    pub open spec fn create_anchor(&self, target: Option<usize>) -> CreateAnchor {
        match target {
            Some(i) if i < self.entries@.len() => {
                let entry = self.entries@[i as int];
                if entry.is_dir {
                    CreateAnchor {
                        expand: if entry.is_expanded {
                            None
                        } else {
                            Some(i)
                        },
                        parent: Some(entry.path),
                        anchor: Some(i),
                    }
                } else {
                    CreateAnchor { expand: None, parent: Some(entry.parent), anchor: Some(i) }
                }
            },
            _ => CreateAnchor { expand: None, parent: None, anchor: None },
        }
    }

    /// Where an entry created on the row `target` goes.
    pub fn resolve_create_anchor(&self, target: Option<usize>) -> (r: CreateAnchor)
        ensures
            r == self.create_anchor(target),
    {
        match target {
            Some(i) => {
                if i < self.entries.len() {
                    let entry = &self.entries[i];
                    if entry.is_dir {
                        CreateAnchor {
                            expand: if entry.is_expanded {
                                None
                            } else {
                                Some(i)
                            },
                            parent: Some(entry.path.clone()),
                            anchor: Some(i),
                        }
                    } else {
                        CreateAnchor {
                            expand: None,
                            parent: Some(entry.parent.clone()),
                            anchor: Some(i),
                        }
                    }
                } else {
                    CreateAnchor { expand: None, parent: None, anchor: None }
                }
            },
            None => CreateAnchor { expand: None, parent: None, anchor: None },
        }
    }
}

/// What creating an entry at `at` asks for.
pub open spec fn create_effects(mode: TreeEditMode, at: CreateAnchor) -> Seq<Effect> {
    let edit = run_and_drain(
        AppCommand::BeginTreeEdit {
            mode,
            parent_dir: at.parent,
            rename_target: None,
            anchor_idx: at.anchor,
        },
    );
    match at.expand {
        Some(i) => seq![Effect::Run(AppCommand::ToggleFileTreeExpand(i))] + edit,
        None => edit,
    }
}

/// What renaming an entry asks for.
pub open spec fn rename_effects(entry: TreeEntry, idx: usize) -> Seq<Effect> {
    run_and_drain(
        AppCommand::BeginTreeEdit {
            mode: TreeEditMode::Rename,
            parent_dir: Some(entry.parent),
            rename_target: Some(entry.path),
            anchor_idx: Some(idx),
        },
    )
}

/// What asking before a delete asks for. The context menu goes first.
pub open spec fn delete_prompt_effects(entry: TreeEntry, hard: bool) -> Seq<Effect> {
    seq![
        Effect::Run(AppCommand::CloseTreeContextMenu),
        Effect::Run(
            AppCommand::RequestTreeDeleteConfirm {
                path: entry.abs_path,
                is_dir: entry.is_dir,
                hard,
            },
        ),
    ]
}

fn begin_create(mode: TreeEditMode, at: CreateAnchor) -> (r: Vec<Effect>)
    ensures
        r@ == create_effects(mode, at),
{
    let edit = run_then_drain(
        AppCommand::BeginTreeEdit {
            mode,
            parent_dir: at.parent,
            rename_target: None,
            anchor_idx: at.anchor,
        },
    );
    match at.expand {
        Some(i) => join(run(AppCommand::ToggleFileTreeExpand(i)), edit),
        None => edit,
    }
}

/// Opens the inline editor on the name of an entry.
pub fn begin_rename(entry: &TreeEntry, idx: usize) -> (r: Vec<Effect>)
    ensures
        r@ == rename_effects(*entry, idx),
{
    run_then_drain(
        AppCommand::BeginTreeEdit {
            mode: TreeEditMode::Rename,
            parent_dir: Some(entry.parent.clone()),
            rename_target: Some(entry.path.clone()),
            anchor_idx: Some(idx),
        },
    )
}

impl TuiApp {
    /// Asks before a delete. `hard` deletes for good, otherwise the entry goes to the
    /// trash.
    pub fn prompt_tree_delete(&self, path: String, is_dir: bool, hard: bool) -> (r: Vec<Effect>)
        ensures
            r@ == seq![
                Effect::Run(AppCommand::CloseTreeContextMenu),
                Effect::Run(AppCommand::RequestTreeDeleteConfirm { path, is_dir, hard }),
            ],
    {
        vec![
            Effect::Run(AppCommand::CloseTreeContextMenu),
            Effect::Run(AppCommand::RequestTreeDeleteConfirm { path, is_dir, hard }),
        ]
    }

    /// What picking `item` in the tree's context menu asks for, once the menu is down.
    pub open spec fn menu_item_effects(&self, item: ContextMenuItem) -> Seq<Effect> {
        let tree = self.engine.tree;
        let target = tree.menu_target;
        let paths = tree.paths_at(target);
        let entry = match target {
            Some(i) if i < tree.entries@.len() => Some(tree.entries@[i as int]),
            _ => None,
        };
        match item {
            ContextMenuItem::Cut => run_only(AppCommand::MarkCut(paths)),
            ContextMenuItem::Copy => run_only(AppCommand::MarkCopy(paths)),
            ContextMenuItem::Paste => match (target, entry) {
                (None, _) => run_and_drain(AppCommand::PasteInto(None)),
                (Some(_), Some(e)) => run_and_drain(
                    AppCommand::PasteInto(
                        Some(
                            if e.is_dir {
                                e.path
                            } else {
                                e.parent
                            },
                        ),
                    ),
                ),
                (Some(_), None) => nothing(),
            },
            ContextMenuItem::Duplicate => run_and_drain(AppCommand::DuplicatePaths(paths)),
            ContextMenuItem::CopyPath => seq![Effect::CopyPaths { paths, relative: false }],
            ContextMenuItem::CopyRelativePath => seq![Effect::CopyPaths { paths, relative: true }],
            ContextMenuItem::NewFile => create_effects(
                TreeEditMode::NewFile,
                tree.create_anchor(target),
            ),
            ContextMenuItem::NewFolder => create_effects(
                TreeEditMode::NewFolder,
                tree.create_anchor(target),
            ),
            ContextMenuItem::Rename => match (target, entry) {
                (Some(i), Some(e)) => rename_effects(e, i),
                _ => nothing(),
            },
            ContextMenuItem::Delete => match entry {
                Some(e) => delete_prompt_effects(e, false),
                None => nothing(),
            },
            ContextMenuItem::RevealInFinder => if self.engine.backend_is_remote {
                run_only(AppCommand::PushToast(Toast::warn(ToastText::RevealNotOnRemote)))
            } else {
                match entry {
                    Some(e) => seq![Effect::RevealPath(e.abs_path)],
                    None => seq![Effect::RevealPath(tree.root)],
                }
            },
        }
    }

    /// What picking `item` in the tree's context menu asks for. The menu always goes
    /// down; an item that is disabled does nothing more.
    pub open spec fn picked_effects(&self, item: ContextMenuItem) -> Seq<Effect> {
        run_only(AppCommand::CloseTreeContextMenu) + (if item.is_enabled(
            self.engine.tree.clipboard_is_empty,
        ) {
            self.menu_item_effects(item)
        } else {
            nothing()
        })
    }

    /// Picks `item` in the tree's context menu.
    pub fn dispatch_context_menu_item(&self, item: ContextMenuItem) -> (r: Vec<Effect>)
        ensures
            r@ == self.picked_effects(item),
    {
        let close = self.close_tree_context_menu();
        if !item.is_enabled(self.engine.tree.clipboard_is_empty) {
            return close;
        }
        let effects = self.run_menu_item(item);
        join(close, effects)
    }

    fn run_menu_item(&self, item: ContextMenuItem) -> (r: Vec<Effect>)
        ensures
            r@ == self.menu_item_effects(item),
    {
        let tree = &self.engine.tree;
        let target = tree.menu_target;
        let entry: Option<&TreeEntry> = match target {
            Some(i) => if i < tree.entries.len() {
                Some(&tree.entries[i])
            } else {
                None
            },
            None => None,
        };
        match item {
            ContextMenuItem::Cut => self.mark_cut(tree.action_paths(target)),
            ContextMenuItem::Copy => self.mark_copy(tree.action_paths(target)),
            ContextMenuItem::Paste => match (target, entry) {
                (None, _) => self.paste_into(None),
                (Some(_), Some(e)) => {
                    let dest = if e.is_dir {
                        e.path.clone()
                    } else {
                        e.parent.clone()
                    };
                    self.paste_into(Some(dest))
                },
                (Some(_), None) => none(),
            },
            ContextMenuItem::Duplicate => self.duplicate_paths(tree.action_paths(target)),
            ContextMenuItem::CopyPath => one(
                Effect::CopyPaths { paths: tree.action_paths(target), relative: false },
            ),
            ContextMenuItem::CopyRelativePath => one(
                Effect::CopyPaths { paths: tree.action_paths(target), relative: true },
            ),
            ContextMenuItem::NewFile => begin_create(
                TreeEditMode::NewFile,
                tree.resolve_create_anchor(target),
            ),
            ContextMenuItem::NewFolder => begin_create(
                TreeEditMode::NewFolder,
                tree.resolve_create_anchor(target),
            ),
            ContextMenuItem::Rename => match (target, entry) {
                (Some(i), Some(e)) => begin_rename(e, i),
                _ => none(),
            },
            ContextMenuItem::Delete => match entry {
                Some(e) => self.prompt_tree_delete(e.abs_path.clone(), e.is_dir, false),
                None => none(),
            },
            ContextMenuItem::RevealInFinder => {
                if self.engine.backend_is_remote {
                    return self.push_toast(Toast::warn(ToastText::RevealNotOnRemote));
                }
                match entry {
                    Some(e) => one(Effect::RevealPath(e.abs_path.clone())),
                    None => one(Effect::RevealPath(tree.root.clone())),
                }
            },
        }
    }

    /// What is said where the desktop could not show a file: that this platform has no
    /// way to, or else what went wrong.
    pub open spec fn reveal_failure(error: String) -> Toast {
        Toast::error(
            if holds_text(error@, "not supported"@) {
                ToastText::RevealUnsupported
            } else {
                ToastText::RevealFailed(error)
            },
        )
    }

    /// Says that the desktop could not show a file.
    pub fn reveal_failed(&self, error: String) -> (r: Vec<Effect>)
        ensures
            r@ == run_only(AppCommand::PushToast(TuiApp::reveal_failure(error))),
    {
        let text = if contains_text(error.as_str(), "not supported") {
            ToastText::RevealUnsupported
        } else {
            ToastText::RevealFailed(error)
        };
        self.push_toast(Toast::error(text))
    }

    /// What creating an entry from the tree's toolbar asks for.
    pub open spec fn toolbar_create_effects(&self, mode: TreeEditMode) -> Seq<Effect> {
        create_effects(mode, self.engine.tree.create_anchor(Some(self.engine.tree.selected)))
    }

    /// The row that the toolbar creates on: the selected one, or none where the tree
    /// does not have it.
    pub fn toolbar_create_target(&self) -> (r: Option<usize>)
        ensures
            r == (if self.engine.tree.selected < self.engine.tree.entries@.len() {
                Some(self.engine.tree.selected)
            } else {
                None
            }),
    {
        if self.engine.tree.selected < self.engine.tree.entries.len() {
            Some(self.engine.tree.selected)
        } else {
            None
        }
    }

    pub fn toolbar_create(&self, mode: TreeEditMode) -> (r: Vec<Effect>)
        ensures
            r@ == self.toolbar_create_effects(mode),
    {
        let target = self.toolbar_create_target();
        begin_create(mode, self.engine.tree.resolve_create_anchor(target))
    }

    /// What promoting a press on the tree to a drag asks for.
    pub open spec fn tree_drag_effects(&self, mods: InputModifiers) -> Seq<Effect> {
        let sources = self.action_set();
        if self.engine.overlays.tree_drag {
            nothing()
        } else if sources == PathSet::Nothing {
            run_only(AppCommand::CancelTreeDrag)
        } else if self.engine.overlays.place_mode {
            nothing()
        } else {
            run_only(AppCommand::BeginTreeDrag { sources, mods })
        }
    }

    /// Promotes a press on the tree to a drag of what is selected now.
    pub fn begin_tree_drag(&self, mods: InputModifiers) -> (r: Vec<Effect>)
        ensures
            r@ == self.tree_drag_effects(mods),
    {
        if self.engine.overlays.tree_drag {
            return none();
        }
        let sources = self.effective_path_set();
        if sources == PathSet::Nothing {
            return self.cancel_tree_drag();
        }
        if self.engine.overlays.place_mode {
            return none();
        }
        run(AppCommand::BeginTreeDrag { sources, mods })
    }

    /// What a right-click on the tree asks for.
    pub open spec fn open_menu_effects(&self, target: Option<usize>, anchor: (u16, u16)) -> Seq<
        Effect,
    > {
        if self.engine.overlays.place_mode || self.engine.overlays.tree_edit {
            nothing()
        } else {
            run_only(AppCommand::OpenTreeContextMenu { target_entry_idx: target, anchor })
        }
    }

    /// Puts the context menu up over the row that was right-clicked, or over the root.
    /// The selection stays where it is.
    pub fn open_tree_context_menu(&self, target: Option<usize>, anchor: (u16, u16)) -> (r: Vec<
        Effect,
    >)
        ensures
            r@ == self.open_menu_effects(target, anchor),
    {
        if self.engine.overlays.place_mode || self.engine.overlays.tree_edit {
            return none();
        }
        run(AppCommand::OpenTreeContextMenu { target_entry_idx: target, anchor })
    }

    /// What saying yes to the question that is up asks for.
    pub open spec fn confirm_effects(&self) -> Seq<Effect> {
        match self.engine.confirm {
            Some(request) => run_only(AppCommand::DismissConfirm) + run_and_drain(
                AppCommand::ExecuteTreeDelete(request.delete),
            ),
            None => nothing(),
        }
    }

    /// Says yes to the question that is up.
    pub fn fire_confirm_primary(&self) -> (r: Vec<Effect>)
        ensures
            r@ == self.confirm_effects(),
    {
        match &self.engine.confirm {
            Some(request) => join(
                self.dismiss_confirm(),
                run_then_drain(AppCommand::ExecuteTreeDelete(request.delete.clone())),
            ),
            None => none(),
        }
    }

    /// Says no to the question that is up.
    pub fn fire_confirm_cancel(&self) -> (r: Vec<Effect>)
        ensures
            r@ == run_only(AppCommand::DismissConfirm),
    {
        self.dismiss_confirm()
    }

    /// What deleting the selected entry asks for: a question first, always.
    pub open spec fn delete_selected_effects(&self, hard: bool) -> Seq<Effect> {
        let tree = self.engine.tree;
        if tree.selected < tree.entries@.len() {
            delete_prompt_effects(tree.entries@[tree.selected as int], hard)
        } else {
            nothing()
        }
    }

    /// Asks before deleting the selected entry.
    pub fn prompt_delete_selected(&self, hard: bool) -> (r: Vec<Effect>)
        ensures
            r@ == self.delete_selected_effects(hard),
    {
        let tree = &self.engine.tree;
        if tree.selected < tree.entries.len() {
            let entry = &tree.entries[tree.selected];
            self.prompt_tree_delete(entry.abs_path.clone(), entry.is_dir, hard)
        } else {
            none()
        }
    }

    /// Puts the paths of the next action on the clipboard.
    pub fn copy_path_to_clipboard(&self, relative: bool) -> (r: Vec<Effect>)
        ensures
            r@ == seq![Effect::CopyPaths { paths: self.action_set(), relative }],
    {
        one(Effect::CopyPaths { paths: self.effective_path_set(), relative })
    }
}

/// A path as a text, and whether the text stands for bytes that it cannot show.
#[derive(Debug)]
pub struct CopiedPath {
    pub text: String,
    pub lossy: bool,
}

/// The texts of the paths, one per line.
pub open spec fn lines_of(paths: Seq<CopiedPath>) -> Seq<char>
    decreases paths.len(),
{
    if paths.len() == 0 {
        Seq::empty()
    } else {
        let head = lines_of(paths.drop_last());
        if head.len() == 0 {
            paths.last().text@
        } else {
            head.push('\n') + paths.last().text@
        }
    }
}

/// Whether some path could not be shown faithfully.
pub open spec fn any_lossy(paths: Seq<CopiedPath>) -> bool {
    exists|i: int| 0 <= i < paths.len() && #[trigger] paths[i].lossy
}

/// The command that puts `paths` on the clipboard, one per line, with a toast that
/// counts them or warns that one of them lost something. Nothing is copied where
/// there is no path.
pub fn copy_paths_command(paths: &Vec<CopiedPath>, relative: bool) -> (r: Option<AppCommand>)
    ensures
        match r {
            None => paths@.len() == 0,
            Some(command) => {
                &&& paths@.len() > 0
                &&& command matches AppCommand::CopyToClipboard { text, success, failure }
                &&& text@ == lines_of(paths@)
                &&& success == Some(
                    if any_lossy(paths@) {
                        Toast::warn(ToastText::CopyPathLossy)
                    } else if relative {
                        Toast::info(ToastText::CopyRelativePathDone(paths@.len() as usize))
                    } else {
                        Toast::info(ToastText::CopyPathDone(paths@.len() as usize))
                    },
                )
                &&& failure == Toast::error(ToastText::CopyPathFailed)
            },
        },
{
    if paths.is_empty() {
        return None;
    }
    let mut payload = String::new();
    let mut had_lossy = false;
    let mut i: usize = 0;
    while i < paths.len()
        invariant
            i <= paths.len(),
            payload@ == lines_of(paths@.take(i as int)),
            had_lossy == any_lossy(paths@.take(i as int)),
        decreases paths.len() - i,
    {
        let ghost before = paths@.take(i as int);
        let ghost after = paths@.take(i + 1);
        assert(after.drop_last() =~= before);
        assert(after.last() == paths@[i as int]);
        if paths[i].lossy {
            had_lossy = true;
            assert(after[i as int].lossy);
        }
        assert(any_lossy(after) == (any_lossy(before) || paths@[i as int].lossy)) by {
            if any_lossy(before) {
                let w = choose|w: int| 0 <= w < before.len() && #[trigger] before[w].lossy;
                assert(after[w].lossy);
            }
            if any_lossy(after) {
                let w = choose|w: int| 0 <= w < after.len() && #[trigger] after[w].lossy;
                if w < i {
                    assert(before[w].lossy);
                }
            }
        }
        if !payload.is_empty() {
            payload.push('\n');
        }
        payload.push_str(paths[i].text.as_str());
        i += 1;
    }
    assert(paths@.take(i as int) =~= paths@);
    let success = if had_lossy {
        Toast::warn(ToastText::CopyPathLossy)
    } else if relative {
        Toast::info(ToastText::CopyRelativePathDone(paths.len()))
    } else {
        Toast::info(ToastText::CopyPathDone(paths.len()))
    };
    Some(
        AppCommand::CopyToClipboard {
            text: payload,
            success: Some(success),
            failure: Toast::error(ToastText::CopyPathFailed),
        },
    )
}

/// A paste goes into the folder under the cursor, beside the file under it, and into the root
/// where neither is meant.
pub proof fn pastes_go_where_the_cursor_is(tree: FileTree, i: usize)
    ensures
        tree.paste_dir(None) == Some(Seq::<char>::empty()),
        i < tree.entries@.len() && tree.entries@[i as int].is_dir ==> tree.paste_dir(Some(i))
            == Some(tree.entries@[i as int].path@),
        i < tree.entries@.len() && !tree.entries@[i as int].is_dir ==> tree.paste_dir(Some(i))
            == Some(tree.entries@[i as int].parent@),
        i >= tree.entries@.len() ==> tree.paste_dir(Some(i)) is None,
{
}

/// An action on an entry that is selected is meant for all that is selected, and one on
/// another entry for that entry alone.
pub proof fn actions_are_meant_for_the_selection(tree: FileTree, i: usize, k: int)
    requires
        i < tree.entries@.len(),
    ensures
        0 <= k < tree.selection@.len() && tree.selection@[k]@ == tree.entries@[i as int].path@
            ==> tree.paths_at(Some(i)) == PathSet::Selection && texts_of(
            &tree,
            tree.paths_at(Some(i)),
        ).len() == tree.selection@.len() && texts_of(&tree, tree.paths_at(Some(i)))[k]
            == tree.selection@[k]@,
        (forall|j: int|
            0 <= j < tree.selection@.len() ==> #[trigger] tree.selection@[j]@
                != tree.entries@[i as int].path@) ==> tree.paths_at(Some(i)) == PathSet::Entry(i)
            && texts_of(&tree, tree.paths_at(Some(i))) == seq![tree.entries@[i as int].path@],
        tree.paths_at(None) == PathSet::Nothing,
        texts_of(&tree, PathSet::Nothing).len() == 0,
{
}

/// Where the platform has no way to show a file, that is said, and otherwise what went wrong.
pub proof fn failures_to_reveal_are_told(error: String, at: int)
    ensures
        0 <= at && at + "not supported"@.len() <= error@.len() && error@.subrange(
            at,
            at + "not supported"@.len(),
        ) == "not supported"@ ==> TuiApp::reveal_failure(error) == Toast::error(
            ToastText::RevealUnsupported,
        ),
        !holds_text(error@, "not supported"@) ==> TuiApp::reveal_failure(error) == Toast::error(
            ToastText::RevealFailed(error),
        ),
{
    if 0 <= at && at + "not supported"@.len() <= error@.len() && error@.subrange(
        at,
        at + "not supported"@.len(),
    ) == "not supported"@ {
        assert(error@.skip(at).take("not supported"@.len() as int) =~= error@.subrange(
            at,
            at + "not supported"@.len(),
        ));
        assert(begins_with(error@.skip(at), "not supported"@));
    }
}

} // verus!
