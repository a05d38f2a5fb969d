//! The keys that the components tell apart.

use vstd::prelude::*;

verus! {

/// A key that was pressed. Every key that no component reacts to is `Other`.
#[derive(Debug, PartialEq, Eq, Clone, Copy, Hash, Structural)]
pub enum Key {
    Down,
    Up,
    Enter,
    Delete,
    Backspace,
    Tab,
    Esc,
    PageDown,
    PageUp,
    Home,
    End,
    Other,
}

} // verus!
