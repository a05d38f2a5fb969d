//! The two components of the screen. Each takes the keys that are pressed while
//! it has the focus, lets its widget follow them, and says what the session has
//! to know.

pub mod select_device;
pub mod textarea_actions;

pub use select_device::SelectDevice;
pub use textarea_actions::TextareaActions;
