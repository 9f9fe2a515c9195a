//! Right-click menu of the preview.

use crate::menu::{can_move, wrap_selection};
use vstd::prelude::*;

verus! {

/// What the menu offers.
#[derive(Clone, Copy, Debug, PartialEq, Eq, Structural)]
pub enum PreviewContextMenuItem {
    Copy,
    SelectAll,
}

impl PreviewContextMenuItem {
    /// The rows of the menu.
    pub const ALL: [Self; 2] = [Self::Copy, Self::SelectAll];

    /// Whether the row can be chosen: copying needs something to copy.
    #[verifier::allow_in_spec]
    pub fn is_enabled(self, can_copy: bool) -> bool
        returns
            self != PreviewContextMenuItem::Copy || can_copy,
    {
        self != PreviewContextMenuItem::Copy || can_copy
    }
}

/// The menu and its highlighted row.
#[derive(Clone, Copy, Debug)]
pub struct PreviewContextMenuState {
    pub active: bool,
    pub anchor: (u16, u16),
    pub selected: usize,
}

impl Default for PreviewContextMenuState {
    fn default() -> (r: PreviewContextMenuState)
        ensures
            r == (PreviewContextMenuState { active: false, anchor: (0, 0), selected: 0 }),
    {
        PreviewContextMenuState { active: false, anchor: (0, 0), selected: 0 }
    }
}

impl PreviewContextMenuState {
    /// The highlighted row is a row of the menu.
    pub open spec fn wf(self) -> bool {
        self.selected < PreviewContextMenuItem::ALL@.len()
    }

    /// Puts the menu up at `anchor`.
    pub fn open(&mut self, anchor: (u16, u16))
        ensures
            *final(self) == (PreviewContextMenuState { active: true, anchor, selected: 0 }),
    {
        self.active = true;
        self.anchor = anchor;
        self.selected = 0;
    }

    /// Takes the menu down.
    pub fn close(&mut self)
        ensures
            *final(self) == (PreviewContextMenuState {
                active: false,
                selected: 0,
                ..*old(self)
            }),
    {
        self.active = false;
        self.selected = 0;
    }

    /// Moves the highlight by `delta` rows, around the ends of the menu.
    pub fn navigate(&mut self, delta: i32)
        requires
            can_move(old(self).selected, delta),
        ensures
            *final(self) == (PreviewContextMenuState {
                selected: ((old(self).selected + delta) % 2) as usize,
                ..*old(self)
            }),
            final(self).wf(),
    {
        self.selected = wrap_selection(self.selected, delta, PreviewContextMenuItem::ALL.len());
    }

    /// The highlighted item.
    pub fn current(&self) -> (r: PreviewContextMenuItem)
        requires
            self.wf(),
        ensures
            r == PreviewContextMenuItem::ALL@[self.selected as int],
    {
        PreviewContextMenuItem::ALL[self.selected]
    }
}

/// The menu offers to copy and then to select all, and copying needs something to copy.
pub proof fn copying_needs_a_selection()
    ensures
        PreviewContextMenuItem::ALL@ == seq![
            PreviewContextMenuItem::Copy,
            PreviewContextMenuItem::SelectAll,
        ],
        !PreviewContextMenuItem::Copy.is_enabled(false),
        PreviewContextMenuItem::Copy.is_enabled(true),
        PreviewContextMenuItem::SelectAll.is_enabled(false),
        PreviewContextMenuItem::SelectAll.is_enabled(true),
{
}

} // verus!
