use vstd::prelude::*;

verus! {

/// User-initiated mutation request triggered by a Ctrl-B prefix shortcut.
#[derive(Debug, Clone, Copy, PartialEq, Eq, Structural)]
pub enum Action {
    /// Create a new Window in the focused Session.
    NewWindow,
    /// Split the focused Pane top/bottom.
    SplitPaneHorizontal,
    /// Split the focused Pane left/right.
    SplitPaneVertical,
    /// Add a new Activity to the focused Pane and activate it.
    NewActivity,
}

} // verus!
