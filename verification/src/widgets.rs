//! The two widgets of `tui_realm_stdlib` that the components are built on.
//!
//! Verus does not read the widgets' code. Each module here says what the session
//! relies on: what a widget holds, and what each call that the components make
//! does to it. These statements are taken from the widgets' source and are not
//! proved.

pub mod select;
pub mod textarea;
