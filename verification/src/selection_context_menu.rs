//! Right-click menu of a text selection, in the preview or in a diff.

use crate::engine::DiffSide;
use crate::menu::{can_move, wrap_selection};
use vstd::prelude::*;

verus! {

/// What the menu acts on.
#[derive(Clone, Copy, Debug, PartialEq, Eq, Structural)]
pub enum SelectionContextTarget {
    Preview,
    Diff(DiffSide),
}

/// What the menu offers.
#[derive(Clone, Copy, Debug, PartialEq, Eq, Structural)]
pub enum SelectionContextMenuItem {
    Copy,
    SelectAll,
}

impl SelectionContextMenuItem {
    /// The rows of the menu.
    pub const ALL: [Self; 2] = [Self::Copy, Self::SelectAll];

    /// Whether the row can be chosen: copying needs something to copy.
    #[verifier::allow_in_spec]
    pub fn is_enabled(self, can_copy: bool) -> bool
        returns
            self != SelectionContextMenuItem::Copy || can_copy,
    {
        self != SelectionContextMenuItem::Copy || can_copy
    }
}

/// The menu and its highlighted row.
#[derive(Clone, Copy, Debug)]
pub struct SelectionContextMenuState {
    pub target: Option<SelectionContextTarget>,
    pub anchor: (u16, u16),
    pub selected: usize,
}

impl Default for SelectionContextMenuState {
    fn default() -> (r: SelectionContextMenuState)
        ensures
            r == (SelectionContextMenuState { target: None, anchor: (0, 0), selected: 0 }),
    {
        SelectionContextMenuState { target: None, anchor: (0, 0), selected: 0 }
    }
}

impl SelectionContextMenuState {
    /// The highlighted row is a row of the menu.
    pub open spec fn wf(self) -> bool {
        self.selected < SelectionContextMenuItem::ALL@.len()
    }

    /// Puts the menu up at `anchor`, over `target`.
    pub fn open(&mut self, target: SelectionContextTarget, anchor: (u16, u16))
        ensures
            *final(self) == (SelectionContextMenuState {
                target: Some(target),
                anchor,
                selected: 0,
            }),
    {
        self.target = Some(target);
        self.anchor = anchor;
        self.selected = 0;
    }

    /// Takes the menu down.
    pub fn close(&mut self)
        ensures
            *final(self) == (SelectionContextMenuState {
                target: None,
                selected: 0,
                ..*old(self)
            }),
    {
        self.target = None;
        self.selected = 0;
    }

    /// Whether the menu is up.
    #[verifier::allow_in_spec]
    pub fn is_active(&self) -> bool
        returns
            self.target is Some,
    {
        self.target.is_some()
    }

    /// What the menu acts on.
    #[verifier::allow_in_spec]
    pub fn target(&self) -> Option<SelectionContextTarget>
        returns
            self.target,
    {
        self.target
    }

    /// Where the menu was put up.
    #[verifier::allow_in_spec]
    pub fn anchor(&self) -> (u16, u16)
        returns
            self.anchor,
    {
        self.anchor
    }

    /// The highlighted row.
    #[verifier::allow_in_spec]
    pub fn selected(&self) -> usize
        returns
            self.selected,
    {
        self.selected
    }

    /// Moves the highlight by `delta` rows, around the ends of the menu.
    pub fn navigate(&mut self, delta: i32)
        requires
            can_move(old(self).selected, delta),
        ensures
            *final(self) == (SelectionContextMenuState {
                selected: ((old(self).selected + delta) % 2) as usize,
                ..*old(self)
            }),
            final(self).wf(),
    {
        self.selected = wrap_selection(self.selected, delta, SelectionContextMenuItem::ALL.len());
    }

    /// The highlighted item.
    pub fn current(&self) -> (r: SelectionContextMenuItem)
        requires
            self.wf(),
        ensures
            r == SelectionContextMenuItem::ALL@[self.selected as int],
    {
        SelectionContextMenuItem::ALL[self.selected]
    }
}

/// The menu offers to copy and then to select all, and copying needs something to copy.
pub proof fn copying_needs_a_selection()
    ensures
        SelectionContextMenuItem::ALL@ == seq![
            SelectionContextMenuItem::Copy,
            SelectionContextMenuItem::SelectAll,
        ],
        !SelectionContextMenuItem::Copy.is_enabled(false),
        SelectionContextMenuItem::Copy.is_enabled(true),
        SelectionContextMenuItem::SelectAll.is_enabled(false),
        SelectionContextMenuItem::SelectAll.is_enabled(true),
{
}

} // verus!
