//! Which popup is open.
use vstd::prelude::*;

verus! {

/// Whether a popup is open, and which.
#[derive(Debug, Clone, Copy, PartialEq, Eq, Structural)]
pub enum PopUpState {
    Open(PopUpKind),
    Closed,
}

/// The popups of the interface.
#[derive(Debug, Clone, Copy, PartialEq, Eq, Structural)]
pub enum PopUpKind {
    /// Details of the highlighted group.
    Info,
    /// Deletion of the selected groups.
    Delete(DeletePopUpKind),
    /// Choice of the column to sort by.
    Sort,
    /// Leaving while groups are selected.
    Exit,
}

/// The two stages of the deletion popup.
#[derive(Debug, Clone, Copy, PartialEq, Eq, Structural)]
pub enum DeletePopUpKind {
    /// The user is asked whether to delete.
    Confirm,
    /// The deletion is running.
    Deleting,
}

} // verus!
