//! The single-choice list `tui_realm_stdlib::Select`.
//!
//! The list shows one choice while it is closed. Opened, it shows all of them,
//! with one highlighted; the highlight can be moved, and closing the list either
//! keeps the highlighted choice or goes back to the one that was shown before.

use tui_realm_stdlib::Select;
use tuirealm::command::{Cmd, CmdResult, Direction};
use tuirealm::{AttrValue, Attribute, MockComponent, State, StateValue};
use vstd::prelude::*;

verus! {

/// Makes `Select` known to Verus, which sees nothing inside a list: what a list
/// holds is spoken of through [`select_state`] and [`select_choices`].
#[verifier::external_type_specification]
#[verifier::external_body]
pub struct ExSelect(Select);

/// What a list holds, as far as the calls below read or change it.
#[derive(Debug, PartialEq, Eq, Clone, Copy, Structural)]
pub struct SelectState {
    /// The number of choices.
    pub len: usize,
    /// The position of the choice that is shown while the list is closed and
    /// highlighted while it is open.
    pub selected: usize,
    /// The position that was selected when the list was last opened.
    pub previous: usize,
    /// Whether the list is open.
    pub open: bool,
    /// Whether moving past either end of the choices leads to the other end:
    /// the flag in the list's `Rewind` attribute. `None` where the list has no
    /// such attribute, or one that holds no flag.
    pub rewind: Option<bool>,
}

/// What the list `widget` holds: of its `states`, the length of `choices`, then
/// `selected`, `previously_selected` and `tab_open`; and the flag of its
/// `Rewind` attribute.
pub uninterp spec fn select_state(widget: Select) -> SelectState;

/// The choices of the list `widget`, in the order in which it shows them:
/// `choices` of its `states`.
pub uninterp spec fn select_choices(widget: Select) -> Seq<Seq<char>>;

/// The commands that the device selector gives to its list.
#[derive(Debug, PartialEq, Eq, Clone, Copy, Structural)]
pub enum SelectCommand {
    /// Move the highlight to the next choice.
    MoveDown,
    /// Move the highlight to the choice before.
    MoveUp,
    /// Open the list, or close it and keep the highlighted choice.
    Submit,
    /// Close the list and go back to the choice that was selected when it was
    /// opened.
    Cancel,
}

/// What a list reports of a command, as far as the device selector reads it.
#[derive(Debug, PartialEq, Eq, Clone, Copy, Structural)]
pub enum SelectReport {
    /// The selection changed and is now at this position.
    Changed(usize),
    /// The list was closed with the choice at this position.
    Submitted(usize),
    /// There is nothing to report.
    Nothing,
    /// Any other report.
    Other,
}

impl SelectState {
    /// The list can take every command: its rewind attribute holds a flag, and
    /// behind each position that it holds there is another `usize`.
    pub open spec fn well_formed(self) -> bool {
        &&& self.rewind is Some
        &&& self.selected < usize::MAX
        &&& self.previous < usize::MAX
    }

    /// The position after `selected`: the next one where there is one, the first
    /// one from the last where the list rewinds, else `selected` itself.
    pub open spec fn next(self) -> usize {
        if self.rewind == Some(true) && self.selected + 1 >= self.len {
            0
        } else if self.selected + 1 < self.len {
            (self.selected + 1) as usize
        } else {
            self.selected
        }
    }

    /// The position before `selected`: the one before where there is one, the
    /// last one from the first where the list rewinds and has a choice, else
    /// `selected` itself.
    pub open spec fn prev(self) -> usize {
        if self.rewind == Some(true) && self.selected == 0 && self.len > 0 {
            (self.len - 1) as usize
        } else if self.selected > 0 {
            (self.selected - 1) as usize
        } else {
            self.selected
        }
    }

    /// The list after `command`. The highlight moves only while the list is open.
    pub open spec fn after(self, command: SelectCommand) -> SelectState {
        match command {
            SelectCommand::MoveDown => if self.open {
                SelectState { selected: self.next(), ..self }
            } else {
                self
            },
            SelectCommand::MoveUp => if self.open {
                SelectState { selected: self.prev(), ..self }
            } else {
                self
            },
            SelectCommand::Submit => if self.open {
                SelectState { open: false, ..self }
            } else {
                SelectState { previous: self.selected, open: true, ..self }
            },
            SelectCommand::Cancel => SelectState { selected: self.previous, open: false, ..self },
        }
    }

    /// What the list reports of `command`.
    pub open spec fn report(self, command: SelectCommand) -> SelectReport {
        match command {
            SelectCommand::MoveDown | SelectCommand::MoveUp => if self.open {
                SelectReport::Changed(self.after(command).selected)
            } else {
                SelectReport::Nothing
            },
            SelectCommand::Submit => if self.open {
                SelectReport::Submitted(self.selected)
            } else {
                SelectReport::Nothing
            },
            SelectCommand::Cancel => SelectReport::Changed(self.previous),
        }
    }
}

/// `Select::default`: a closed list without choices or attributes, its positions
/// at 0.
#[verifier::external_body]
pub(crate) fn select_default() -> (widget: Select)
    ensures
        select_state(widget) == (SelectState {
            len: 0,
            selected: 0,
            previous: 0,
            open: false,
            rewind: None,
        }),
        select_choices(widget) == Seq::<Seq<char>>::empty(),
{
    Select::default()
}

/// `Select::rewind`: sets the `Rewind` attribute to the flag `rewind`. The
/// choices, the positions and whether the list is open stay as they are.
#[verifier::external_body]
pub(crate) fn select_rewind(widget: Select, rewind: bool) -> (rewinding: Select)
    ensures
        select_state(rewinding) == (SelectState { rewind: Some(rewind), ..select_state(widget) }),
        select_choices(rewinding) == select_choices(widget),
{
    widget.rewind(rewind)
}

/// Reads what the list holds: the fields of `states`, and the `Rewind` attribute
/// through `Select::query` (of `MockComponent`). This is what [`select_state`]
/// stands for; the number of choices is the length of [`select_choices`].
#[verifier::external_body]
pub(crate) fn select_read(widget: &Select) -> (state: SelectState)
    ensures
        state == select_state(*widget),
        state.len == select_choices(*widget).len(),
{
    SelectState {
        len: widget.states.choices.len(),
        selected: widget.states.selected,
        previous: widget.states.previously_selected,
        open: widget.states.tab_open,
        rewind: match widget.query(Attribute::Rewind) {
            Some(AttrValue::Flag(flag)) => Some(flag),
            _ => None,
        },
    }
}

/// `Select::perform` (of `MockComponent`) with a move, `Cmd::Submit` or
/// `Cmd::Cancel`. A move changes the selected position only while the list is
/// open, and is then reported as a change to the new position. `Submit` opens a
/// closed list, which notes the selected position as the previous one and reports
/// nothing; it closes an open list, which is reported as a submit of the selected
/// position. `Cancel` closes the list, selects the previous position and reports
/// a change to it. No command changes the choices. A move reads the `Rewind`
/// attribute as a flag and looks at the position behind the selected one, so the
/// list is to be well-formed.
#[verifier::external_body]
pub(crate) fn select_perform(widget: &mut Select, command: SelectCommand) -> (report:
    SelectReport)
    requires
        select_state(*old(widget)).well_formed(),
    ensures
        select_state(*final(widget)) == select_state(*old(widget)).after(command),
        report == select_state(*old(widget)).report(command),
        select_choices(*final(widget)) == select_choices(*old(widget)),
{
    let cmd = match command {
        SelectCommand::MoveDown => Cmd::Move(Direction::Down),
        SelectCommand::MoveUp => Cmd::Move(Direction::Up),
        SelectCommand::Submit => Cmd::Submit,
        SelectCommand::Cancel => Cmd::Cancel,
    };
    match widget.perform(cmd) {
        CmdResult::Changed(State::One(StateValue::Usize(at))) => SelectReport::Changed(at),
        CmdResult::Submit(State::One(StateValue::Usize(at))) => SelectReport::Submitted(at),
        CmdResult::None => SelectReport::Nothing,
        _ => SelectReport::Other,
    }
}

} // verus!
