//! The read-only text `tui_realm_stdlib::Textarea`.
//!
//! The text is a list of lines of which one is the current line; the widget
//! scrolls so that the current line is in sight. Commands move the current line.

use tui_realm_stdlib::Textarea;
use tuirealm::command::{Cmd, Direction, Position};
use tuirealm::{AttrValue, Attribute, MockComponent};
use vstd::prelude::*;

verus! {

/// Makes `Textarea` known to Verus, which sees nothing inside a text: what a
/// text holds is spoken of through [`textarea_state`], [`textarea_lines`] and
/// [`textarea_text`].
#[verifier::external_type_specification]
#[verifier::external_body]
pub struct ExTextarea(Textarea);

/// What a text holds, as far as the commands read or change it.
#[derive(Debug, PartialEq, Eq, Clone, Copy, Structural)]
pub struct TextareaState {
    /// The position of the current line.
    pub index: usize,
    /// The number of lines that the text scrolls over.
    pub len: usize,
    /// The number of lines that a scroll moves by: the length in the text's
    /// `ScrollStep` attribute. `None` where the text has no such attribute, or
    /// one that holds no length.
    pub step: Option<usize>,
}

/// What the text `widget` holds: `list_index` and `list_len` of its `states`,
/// and the length of its `ScrollStep` attribute.
pub uninterp spec fn textarea_state(widget: Textarea) -> TextareaState;

/// The number of lines in the `Text` attribute of the text `widget`, 0 where it
/// has no such attribute or the attribute's payload is no list. `None` where
/// the attribute holds something that is no payload.
pub uninterp spec fn textarea_lines(widget: Textarea) -> Option<usize>;

/// The lines of the text `widget`: for each value in the list payload of its
/// `Text` attribute, in order, the content of the text span that the value holds,
/// or the empty string where it holds no span. No lines where the text has no
/// such attribute, or one without a list payload.
pub uninterp spec fn textarea_text(widget: Textarea) -> Seq<Seq<char>>;

/// The commands that the actions viewer gives to its text.
#[derive(Debug, PartialEq, Eq, Clone, Copy, Structural)]
pub enum TextareaCommand {
    /// Move to the next line.
    MoveDown,
    /// Move to the line before.
    MoveUp,
    /// Move a page down.
    ScrollDown,
    /// Move a page up.
    ScrollUp,
    /// Move to the first line.
    GoToBegin,
    /// Move to the last line.
    GoToEnd,
}

impl TextareaState {
    /// The text can take every command: its scroll step is a length, and the
    /// current line is one of the lines, or the first where there are none.
    pub open spec fn well_formed(self) -> bool {
        &&& self.step is Some
        &&& if self.len == 0 {
            self.index == 0
        } else {
            self.index < self.len
        }
    }

    /// The position of the last line, 0 where there are no lines.
    pub open spec fn last(self) -> usize {
        if self.len > 0 {
            (self.len - 1) as usize
        } else {
            0
        }
    }

    /// The text with the line count set to `len`: the current line stays where
    /// it is still among the lines, else it becomes the last line.
    pub open spec fn fitted(self, len: usize) -> TextareaState {
        TextareaState {
            len,
            index: if len == 0 {
                0
            } else if self.index >= len {
                (len - 1) as usize
            } else {
                self.index
            },
            ..self
        }
    }

    /// The text after `command`. No command leads past the first or the last
    /// line; a scroll moves by the scroll step, or as far as there are lines.
    pub open spec fn after(self, command: TextareaCommand) -> TextareaState
        recommends
            self.well_formed(),
    {
        let step: usize = self.step.unwrap();
        let index: usize = match command {
            TextareaCommand::MoveDown => if self.index + 1 < self.len {
                (self.index + 1) as usize
            } else {
                self.index
            },
            TextareaCommand::MoveUp => if self.index > 0 {
                (self.index - 1) as usize
            } else {
                self.index
            },
            TextareaCommand::ScrollDown => if self.last() - self.index > step {
                (self.index + step) as usize
            } else {
                self.last()
            },
            TextareaCommand::ScrollUp => if self.index > step {
                (self.index - step) as usize
            } else {
                0
            },
            TextareaCommand::GoToBegin => 0,
            TextareaCommand::GoToEnd => self.last(),
        };
        TextareaState { index, ..self }
    }
}

/// `Textarea::default`: a text without lines or attributes, its current line at 0.
#[verifier::external_body]
pub(crate) fn textarea_default() -> (widget: Textarea)
    ensures
        textarea_state(widget) == (TextareaState { index: 0, len: 0, step: None }),
        textarea_lines(widget) == Some(0usize),
        textarea_text(widget) == Seq::<Seq<char>>::empty(),
{
    Textarea::default()
}

/// `Textarea::step`: sets the `ScrollStep` attribute to the length `step`. As
/// every change of an attribute does, it sets the line count to the number of
/// lines in the `Text` attribute and fits the current line to it; it reads that
/// attribute as a payload, and leaves it as it is.
#[verifier::external_body]
pub(crate) fn textarea_step(widget: Textarea, step: usize) -> (stepping: Textarea)
    requires
        textarea_lines(widget) is Some,
    ensures
        textarea_state(stepping) == (TextareaState {
            step: Some(step),
            ..textarea_state(widget).fitted(textarea_lines(widget).unwrap())
        }),
        textarea_lines(stepping) == textarea_lines(widget),
        textarea_text(stepping) == textarea_text(widget),
{
    widget.step(step)
}

/// Reads what the text holds: the fields of `states`, and the `ScrollStep`
/// attribute through `Textarea::query` (of `MockComponent`). This is what
/// [`textarea_state`] stands for.
#[verifier::external_body]
pub(crate) fn textarea_read(widget: &Textarea) -> (state: TextareaState)
    ensures
        state == textarea_state(*widget),
{
    TextareaState {
        index: widget.states.list_index,
        len: widget.states.list_len,
        step: match widget.query(Attribute::ScrollStep) {
            Some(AttrValue::Length(step)) => Some(step),
            _ => None,
        },
    }
}

/// `Textarea::perform` (of `MockComponent`) with a move, a scroll or a jump to
/// either end. Only the current line changes: the call writes to `states` alone,
/// so every attribute, the text among them, stays. A scroll reads the `ScrollStep`
/// attribute as a length and counts the lines behind the current one, so the
/// text is to be well-formed. The call always reports `CmdResult::None`, which
/// is dropped.
#[verifier::external_body]
pub(crate) fn textarea_perform(widget: &mut Textarea, command: TextareaCommand)
    requires
        textarea_state(*old(widget)).well_formed(),
    ensures
        textarea_state(*final(widget)) == textarea_state(*old(widget)).after(command),
        textarea_lines(*final(widget)) == textarea_lines(*old(widget)),
        textarea_text(*final(widget)) == textarea_text(*old(widget)),
{
    let cmd = match command {
        TextareaCommand::MoveDown => Cmd::Move(Direction::Down),
        TextareaCommand::MoveUp => Cmd::Move(Direction::Up),
        TextareaCommand::ScrollDown => Cmd::Scroll(Direction::Down),
        TextareaCommand::ScrollUp => Cmd::Scroll(Direction::Up),
        TextareaCommand::GoToBegin => Cmd::GoTo(Position::Begin),
        TextareaCommand::GoToEnd => Cmd::GoTo(Position::End),
    };
    let _ = widget.perform(cmd);
}

} // verus!
