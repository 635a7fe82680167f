//! Which part of the display owns the keyboard.
use vstd::prelude::*;

verus! {

/// The modal region that owns keyboard input.
#[derive(Debug, PartialEq, Eq, Structural, Clone, Copy)]
pub enum WindowFocus {
    /// Browsing the directory listing.
    Tree,
    /// Choosing an action from the catalogue.
    ActionMenu,
    /// Typing the text argument of the chosen action.
    ActionMenuStep2,
}

impl Default for WindowFocus {
    fn default() -> (r: Self)
        ensures
            r == WindowFocus::Tree,
    {
        WindowFocus::Tree
    }
}

} // verus!
