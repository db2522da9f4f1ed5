//! The interactive layer: the list and input widgets, the search ranking,
//! and the per-screen key handlers.  Drawing is left to the binary; the
//! types here only hold and transform the state that a renderer reads.

use vstd::prelude::*;

pub mod components;
pub mod screen;
pub mod search;

verus! {

/// The screens of the client.  `Loading` is the initial screen: it asks for
/// one bulk prefetch and then hands over to `Home` or, when no workspace is
/// configured yet, to `WorkspaceSelection`.
#[derive(Debug, Clone, Copy, PartialEq, Eq, Structural)]
pub enum Screen {
    Loading,
    Home,
    WorkspaceSelection,
    TimeEntrySelection,
    ProjectSelection,
    TaskSelection,
    TagSelection,
    DescriptionEdit,
}

/// A key press, reduced to the keys the client reacts to.  The binary maps
/// terminal events onto this type before calling into the library.
#[derive(Debug, Clone, Copy, PartialEq, Eq, Structural)]
pub enum Key {
    Char(char),
    Up,
    Down,
    Enter,
    Backspace,
    Esc,
}

/// The modifier state of a key press: held control, or no modifier.  Key
/// presses with other modifiers are dropped before they reach the library.
#[derive(Debug, Clone, Copy, PartialEq, Eq, Structural)]
pub enum KeyMod {
    Ctrl,
    Bare,
}

} // verus!
