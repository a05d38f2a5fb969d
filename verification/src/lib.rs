//! Session logic of a terminal screen on which a boot device is picked from the
//! storage devices that were found, and the storage actions that are pending are
//! shown.

use vstd::prelude::*;

pub mod components;
pub mod event;
pub mod laws;
pub mod model;
pub mod storage;
pub mod widgets;

verus! {

/// What a component hands to the dispatcher.
#[derive(Debug, PartialEq, Eq, Clone, Copy, Structural)]
pub enum Msg {
    /// The session is to end.
    AppClose,
    /// The device at this position of the device list was chosen.
    SelectDeviceChanged(usize),
    /// The device selector gives the focus away.
    SelectDeviceBlur,
    /// The actions viewer gives the focus away.
    TextareaActionsBlur,
    /// Nothing happened that the session has to know of.
    Noop,
}

/// The two components of the screen.
#[derive(Debug, PartialEq, Eq, Clone, Copy, Hash, Structural)]
pub enum Id {
    /// The list from which the boot device is chosen.
    SelectDevice,
    /// The read-only text of the pending storage actions.
    TextareaActions,
}

impl Id {
    /// The component that gets the focus when this one gives it away.
    pub open spec fn other(self) -> Id {
        match self {
            Id::SelectDevice => Id::TextareaActions,
            Id::TextareaActions => Id::SelectDevice,
        }
    }
}

} // verus!
