//! The device selector: a list of the devices from which one is chosen.

use crate::event::Key;
use crate::widgets::select::{
    select_choices, select_default, select_perform, select_read, select_rewind, select_state,
    SelectCommand, SelectReport, SelectState,
};
use crate::Msg;
use tui_realm_stdlib::Select;
use vstd::prelude::*;

verus! {

/// The device selector. Its list holds the names of the devices; the choice that
/// the list shows while it is closed is the chosen device.
pub struct SelectDevice {
    pub component: Select,
}

impl View for SelectDevice {
    type V = SelectState;

    /// The selector stands for what its list holds.
    open spec fn view(&self) -> SelectState {
        select_state(self.component)
    }
}

/// The command that the selector with the list `list` gives to the list on
/// `key`, where it gives one. Delete and Backspace cancel an open list only: a
/// closed list shows the chosen device, which they leave alone.
pub open spec fn select_command(list: SelectState, key: Key) -> Option<SelectCommand> {
    match key {
        Key::Down => Some(SelectCommand::MoveDown),
        Key::Up => Some(SelectCommand::MoveUp),
        Key::Enter => Some(SelectCommand::Submit),
        Key::Delete | Key::Backspace => if list.open {
            Some(SelectCommand::Cancel)
        } else {
            None
        },
        _ => None,
    }
}

/// The list after `key` was pressed on the selector with the list `list`.
pub open spec fn select_after(list: SelectState, key: Key) -> SelectState {
    match select_command(list, key) {
        Some(command) => list.after(command),
        None => list,
    }
}

/// The position of the chosen device: the one that the closed list shows, and
/// the one that the open list was opened with.
pub open spec fn select_choice(list: SelectState) -> usize {
    if list.open {
        list.previous
    } else {
        list.selected
    }
}

/// Whether `key` closes the list `list` with another choice than the one that
/// was selected when the list was opened.
pub open spec fn select_commits(list: SelectState, key: Key) -> bool {
    key == Key::Enter && list.open && list.selected != list.previous
}

/// What the selector with the list `list` says when `key` is pressed.
pub open spec fn select_message(list: SelectState, key: Key) -> Msg {
    match key {
        Key::Tab => Msg::SelectDeviceBlur,
        Key::Esc => Msg::AppClose,
        _ => if select_commits(list, key) {
            Msg::SelectDeviceChanged(list.selected)
        } else {
            Msg::Noop
        },
    }
}

impl SelectDevice {
    /// The selector can take every key.
    pub open spec fn wf(&self) -> bool {
        self@.well_formed()
    }

    /// The choices that the selector shows, in order.
    pub open spec fn choices(&self) -> Seq<Seq<char>> {
        select_choices(self.component)
    }

    /// What the list of the selector holds.
    pub fn list(&self) -> (list: SelectState)
        ensures
            list == self@,
            list.len == self.choices().len(),
    {
        select_read(&self.component)
    }

    /// Whether the selector can take every key. A selector made by `default`
    /// can, and it stays so whatever keys it gets.
    pub fn is_wf(&self) -> (ok: bool)
        ensures
            ok == self.wf(),
    {
        let list = self.list();
        list.rewind.is_some() && list.selected < usize::MAX && list.previous < usize::MAX
    }

    /// Handles a key that was pressed while the selector had the focus.
    ///
    /// The arrows move the highlight of the open list, Enter opens the list or
    /// closes it with the highlighted choice, Delete and Backspace close the
    /// open list with the choice it was opened with and leave a closed list as
    /// it is. Closing the list with another choice than it was opened with is
    /// told as `SelectDeviceChanged`, Tab as `SelectDeviceBlur`, Escape as
    /// `AppClose`; either of the last two leaves the list as it is. Everything
    /// else is told as `Noop`. No key changes the choices.
    pub fn on(&mut self, key: Key) -> (msg: Option<Msg>)
        requires
            old(self).wf(),
        ensures
            final(self).wf(),
            final(self)@ == select_after(old(self)@, key),
            final(self).choices() == old(self).choices(),
            msg == Some(select_message(old(self)@, key)),
    {
        match key {
            Key::Down => {
                let _ = select_perform(&mut self.component, SelectCommand::MoveDown);
                Some(Msg::Noop)
            },
            Key::Up => {
                let _ = select_perform(&mut self.component, SelectCommand::MoveUp);
                Some(Msg::Noop)
            },
            Key::Enter => {
                let previous: usize = self.list().previous;
                match select_perform(&mut self.component, SelectCommand::Submit) {
                    SelectReport::Submitted(selected) => if selected != previous {
                        Some(Msg::SelectDeviceChanged(selected))
                    } else {
                        Some(Msg::Noop)
                    },
                    _ => Some(Msg::Noop),
                }
            },
            Key::Delete | Key::Backspace => {
                if self.list().open {
                    let _ = select_perform(&mut self.component, SelectCommand::Cancel);
                }
                Some(Msg::Noop)
            },
            Key::Tab => Some(Msg::SelectDeviceBlur),
            Key::Esc => Some(Msg::AppClose),
            _ => Some(Msg::Noop),
        }
    }
}

impl Default for SelectDevice {
    /// A selector with a closed list that has no choices yet and that rewinds:
    /// moving past the last choice leads to the first, and the other way round.
    fn default() -> (selector: Self)
        ensures
            selector.wf(),
            selector@ == (SelectState {
                len: 0,
                selected: 0,
                previous: 0,
                open: false,
                rewind: Some(true),
            }),
            selector.choices() == Seq::<Seq<char>>::empty(),
    {
        SelectDevice { component: select_rewind(select_default(), true) }
    }
}

} // verus!
