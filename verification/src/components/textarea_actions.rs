//! The actions viewer: the read-only, scrollable text of the storage actions.

use crate::event::Key;
use crate::widgets::textarea::{
    textarea_default, textarea_lines, textarea_perform, textarea_read, textarea_state,
    textarea_step, textarea_text, TextareaCommand, TextareaState,
};
use crate::Msg;
use tui_realm_stdlib::Textarea;
use vstd::prelude::*;

verus! {

/// The number of lines that make a page of the actions viewer.
pub const PAGE_LINES: usize = 4;

/// The actions viewer. Its text holds one line for each storage action.
pub struct TextareaActions {
    pub component: Textarea,
}

impl View for TextareaActions {
    type V = TextareaState;

    /// The viewer stands for what its text holds.
    open spec fn view(&self) -> TextareaState {
        textarea_state(self.component)
    }
}

/// The command that the viewer gives to its text on `key`, where it gives one.
pub open spec fn textarea_command(key: Key) -> Option<TextareaCommand> {
    match key {
        Key::Down => Some(TextareaCommand::MoveDown),
        Key::Up => Some(TextareaCommand::MoveUp),
        Key::PageDown => Some(TextareaCommand::ScrollDown),
        Key::PageUp => Some(TextareaCommand::ScrollUp),
        Key::Home => Some(TextareaCommand::GoToBegin),
        Key::End => Some(TextareaCommand::GoToEnd),
        _ => None,
    }
}

/// The text after `key` was pressed on the viewer with the text `text`.
pub open spec fn textarea_after(text: TextareaState, key: Key) -> TextareaState {
    match textarea_command(key) {
        Some(command) => text.after(command),
        None => text,
    }
}

/// What the viewer says when `key` is pressed.
pub open spec fn textarea_message(key: Key) -> Msg {
    match key {
        Key::Tab => Msg::TextareaActionsBlur,
        Key::Esc => Msg::AppClose,
        _ => Msg::Noop,
    }
}

impl TextareaActions {
    /// The viewer can take every key.
    pub open spec fn wf(&self) -> bool {
        self@.well_formed()
    }

    /// The lines that the viewer shows.
    pub open spec fn lines(&self) -> Seq<Seq<char>> {
        textarea_text(self.component)
    }

    /// The number of lines that the viewer was given, where it was given lines.
    pub open spec fn line_count(&self) -> Option<usize> {
        textarea_lines(self.component)
    }

    /// What the text of the viewer holds.
    pub fn text(&self) -> (text: TextareaState)
        ensures
            text == self@,
    {
        textarea_read(&self.component)
    }

    /// Whether the viewer can take every key. A viewer made by `default` can,
    /// and it stays so whatever keys it gets.
    pub fn is_wf(&self) -> (ok: bool)
        ensures
            ok == self.wf(),
    {
        let text = self.text();
        text.step.is_some() && if text.len == 0 {
            text.index == 0
        } else {
            text.index < text.len
        }
    }

    /// Handles a key that was pressed while the viewer had the focus.
    ///
    /// The arrows scroll by a line, PageDown and PageUp by a page, Home and End
    /// lead to the first and to the last line. Tab is told as
    /// `TextareaActionsBlur`, Escape as `AppClose`; either leaves the current
    /// line where it is. Everything else is told as `Noop`. No key changes the
    /// lines that the viewer shows.
    pub fn on(&mut self, key: Key) -> (msg: Option<Msg>)
        requires
            old(self).wf(),
        ensures
            final(self).wf(),
            final(self)@ == textarea_after(old(self)@, key),
            final(self).lines() == old(self).lines(),
            final(self).line_count() == old(self).line_count(),
            msg == Some(textarea_message(key)),
    {
        match key {
            Key::Down => textarea_perform(&mut self.component, TextareaCommand::MoveDown),
            Key::Up => textarea_perform(&mut self.component, TextareaCommand::MoveUp),
            Key::PageDown => textarea_perform(&mut self.component, TextareaCommand::ScrollDown),
            Key::PageUp => textarea_perform(&mut self.component, TextareaCommand::ScrollUp),
            Key::Home => textarea_perform(&mut self.component, TextareaCommand::GoToBegin),
            Key::End => textarea_perform(&mut self.component, TextareaCommand::GoToEnd),
            Key::Tab => {
                return Some(Msg::TextareaActionsBlur);
            },
            Key::Esc => {
                return Some(Msg::AppClose);
            },
            _ => {},
        }
        Some(Msg::Noop)
    }
}

impl Default for TextareaActions {
    /// A viewer with an empty text whose pages have `PAGE_LINES` lines.
    fn default() -> (viewer: Self)
        ensures
            viewer.wf(),
            viewer@ == (TextareaState { index: 0, len: 0, step: Some(PAGE_LINES) }),
            viewer.lines() == Seq::<Seq<char>>::empty(),
            viewer.line_count() == Some(0usize),
    {
        TextareaActions { component: textarea_step(textarea_default(), PAGE_LINES) }
    }
}

} // verus!
