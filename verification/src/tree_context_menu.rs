//! Right-click menu of the file tree.

use crate::menu::{can_move, wrap_selection};
use vstd::prelude::*;

verus! {

/// A single action offered by the right-click menu.
#[derive(Clone, Copy, Debug, PartialEq, Eq, Structural)]
pub enum ContextMenuItem {
    /// Mark the entry, or the selection it belongs to, for a move.
    Cut,
    /// Mark the entry, or the selection it belongs to, for a copy.
    Copy,
    /// Drop what is marked below the entry. Disabled while nothing is marked.
    Paste,
    /// Copy the entry beside itself under a fresh name.
    Duplicate,
    NewFile,
    NewFolder,
    Rename,
    /// Move the entry to the trash, once confirmed.
    Delete,
    CopyPath,
    CopyRelativePath,
    RevealInFinder,
}

impl ContextMenuItem {
    /// The menu over an entry: clipboard, create, modify, paths, reveal.
    pub const ALL_FOR_ENTRY: [ContextMenuItem; 11] = [
        ContextMenuItem::Cut,
        ContextMenuItem::Copy,
        ContextMenuItem::Paste,
        ContextMenuItem::Duplicate,
        ContextMenuItem::NewFile,
        ContextMenuItem::NewFolder,
        ContextMenuItem::Rename,
        ContextMenuItem::Delete,
        ContextMenuItem::CopyPath,
        ContextMenuItem::CopyRelativePath,
        ContextMenuItem::RevealInFinder,
    ];

    /// The menu over empty space, where no entry is meant.
    pub const ALL_FOR_ROOT: [ContextMenuItem; 4] = [
        ContextMenuItem::Paste,
        ContextMenuItem::NewFile,
        ContextMenuItem::NewFolder,
        ContextMenuItem::RevealInFinder,
    ];

    /// Whether the item does anything now. Only `Paste` depends on the clipboard.
    #[verifier::allow_in_spec]
    pub fn is_enabled(&self, clipboard_is_empty: bool) -> bool
        returns
            *self != ContextMenuItem::Paste || !clipboard_is_empty,
    {
        match self {
            ContextMenuItem::Paste => !clipboard_is_empty,
            _ => true,
        }
    }
}

/// The items offered for a right-click on an entry, or on empty space.
pub open spec fn items_for(target_entry_idx: Option<usize>) -> Seq<ContextMenuItem> {
    if target_entry_idx is Some {
        ContextMenuItem::ALL_FOR_ENTRY@
    } else {
        ContextMenuItem::ALL_FOR_ROOT@
    }
}

/// The menu while it is up, or its empty form.
#[derive(Debug)]
pub struct ContextMenuState {
    /// Whether the menu is up and owns the keyboard.
    pub active: bool,
    /// The cell that was clicked, column first.
    pub anchor: (u16, u16),
    /// The tree entry that was clicked, if any.
    pub target_entry_idx: Option<usize>,
    pub items: Vec<ContextMenuItem>,
    /// The highlighted row.
    pub selected: usize,
}

impl Default for ContextMenuState {
    fn default() -> (r: ContextMenuState)
        ensures
            r.is_closed(),
    {
        ContextMenuState {
            active: false,
            anchor: (0, 0),
            target_entry_idx: None,
            items: Vec::new(),
            selected: 0,
        }
    }
}

impl ContextMenuState {
    /// The menu is down and holds nothing.
    pub open spec fn is_closed(&self) -> bool {
        &&& !self.active
        &&& self.anchor == (0u16, 0u16)
        &&& self.target_entry_idx is None
        &&& self.items@ == Seq::<ContextMenuItem>::empty()
        &&& self.selected == 0
    }

    /// A row is highlighted wherever there is one, and the items are those of the
    /// click that opened the menu.
    pub open spec fn wf(&self) -> bool {
        if self.active {
            &&& self.items@ == items_for(self.target_entry_idx)
            &&& self.selected < self.items@.len()
        } else {
            self.is_closed()
        }
    }

    /// Puts the menu up over an entry, or over empty space.
    pub fn open(&mut self, anchor: (u16, u16), target_entry_idx: Option<usize>)
        ensures
            final(self).wf(),
            final(self).active,
            final(self).anchor == anchor,
            final(self).target_entry_idx == target_entry_idx,
            final(self).items@ == items_for(target_entry_idx),
            final(self).selected == 0,
    {
        self.active = true;
        self.anchor = anchor;
        self.target_entry_idx = target_entry_idx;
        self.items = if target_entry_idx.is_some() {
            collect_items(&ContextMenuItem::ALL_FOR_ENTRY)
        } else {
            collect_items(&ContextMenuItem::ALL_FOR_ROOT)
        };
        self.selected = 0;
    }

    /// Takes the menu down.
    pub fn close(&mut self)
        ensures
            final(self).is_closed(),
            final(self).wf(),
    {
        *self = ContextMenuState::default();
    }

    /// Moves the highlight by `delta` rows, around the ends of the menu.
    pub fn navigate(&mut self, delta: i32)
        requires
            old(self).items@.len() > 0 ==> can_move(old(self).selected, delta),
            old(self).items@.len() <= i32::MAX,
        ensures
            *final(self) == (ContextMenuState {
                selected: if old(self).items@.len() == 0 {
                    old(self).selected
                } else {
                    ((old(self).selected + delta) % (old(self).items@.len() as int)) as usize
                },
                ..*old(self)
            }),
            old(self).wf() ==> final(self).wf(),
    {
        if self.items.is_empty() {
            return;
        }
        self.selected = wrap_selection(self.selected, delta, self.items.len());
    }

    /// The highlighted item.
    pub fn current(&self) -> (r: Option<ContextMenuItem>)
        ensures
            r == (if self.selected < self.items@.len() {
                Some(self.items@[self.selected as int])
            } else {
                None
            }),
    {
        if self.selected < self.items.len() {
            Some(self.items[self.selected])
        } else {
            None
        }
    }
}

fn collect_items<const N: usize>(items: &[ContextMenuItem; N]) -> (r: Vec<ContextMenuItem>)
    ensures
        r@ == items@,
{
    let mut out: Vec<ContextMenuItem> = Vec::new();
    let mut i: usize = 0;
    while i < N
        invariant
            i <= N,
            out@ == items@.take(i as int),
        decreases N - i,
    {
        out.push(items[i]);
        i += 1;
        assert(items@.take(i as int) == items@.take(i - 1).push(items@[i - 1]));
    }
    assert(items@.take(N as int) == items@);
    out
}

/// The menu over empty space offers nothing that needs an entry.
pub proof fn root_menu_needs_no_entry(i: int)
    requires
        0 <= i < items_for(None).len(),
    ensures
        items_for(None)[i] == ContextMenuItem::Paste || items_for(None)[i]
            == ContextMenuItem::NewFile || items_for(None)[i] == ContextMenuItem::NewFolder
            || items_for(None)[i] == ContextMenuItem::RevealInFinder,
{
}

/// With an empty clipboard `Paste` is the only item that does nothing.
pub proof fn only_paste_waits_for_the_clipboard(item: ContextMenuItem)
    ensures
        item.is_enabled(true) <==> item != ContextMenuItem::Paste,
        item.is_enabled(false),
{
}

/// The menus list their items in this order.
pub proof fn menus_list_their_items(entry: usize)
    ensures
        items_for(Some(entry)) == seq![
            ContextMenuItem::Cut,
            ContextMenuItem::Copy,
            ContextMenuItem::Paste,
            ContextMenuItem::Duplicate,
            ContextMenuItem::NewFile,
            ContextMenuItem::NewFolder,
            ContextMenuItem::Rename,
            ContextMenuItem::Delete,
            ContextMenuItem::CopyPath,
            ContextMenuItem::CopyRelativePath,
            ContextMenuItem::RevealInFinder,
        ],
        items_for(None) == seq![
            ContextMenuItem::Paste,
            ContextMenuItem::NewFile,
            ContextMenuItem::NewFolder,
            ContextMenuItem::RevealInFinder,
        ],
{
}

} // verus!
