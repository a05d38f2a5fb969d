//! What holds of every session and of every list, whatever they hold.

use crate::components::select_device::{select_after, select_choice, select_message};
use crate::event::Key;
use crate::model::{ActionView, SessionState};
use crate::widgets::select::SelectState;
use crate::{Id, Msg};
use vstd::prelude::*;

verus! {

/// The message with which the component `id` gives the focus away.
pub open spec fn blur_of(id: Id) -> Msg {
    match id {
        Id::SelectDevice => Msg::SelectDeviceBlur,
        Id::TextareaActions => Msg::TextareaActionsBlur,
    }
}

/// The session after the messages `msgs` were dispatched one after the other.
pub open spec fn after_all(state: SessionState, msgs: Seq<Msg>) -> SessionState
    decreases msgs.len(),
{
    if msgs.len() == 0 {
        state
    } else {
        after_all(state, msgs.drop_last()).after(msgs.last())
    }
}

/// The choice of a device of the list makes that device the boot device, and
/// asks for settings with that boot device to be saved. The boot device is then
/// one of the devices of the list, whatever it was before.
pub proof fn chosen_device_becomes_boot_device(state: SessionState, index: usize)
    requires
        index < state.devices.len(),
    ensures
        state.after(Msg::SelectDeviceChanged(index)).boot_device == Some(
            state.devices[index as int],
        ),
        state.action(Msg::SelectDeviceChanged(index)) == Some(
            ActionView::SaveSettings(state.after(Msg::SelectDeviceChanged(index)).boot_device),
        ),
        state.after(Msg::SelectDeviceChanged(index)).devices.contains(
            state.after(Msg::SelectDeviceChanged(index)).boot_device.unwrap(),
        ),
        state.after(Msg::SelectDeviceChanged(index)) == (SessionState {
            redraw: true,
            boot_device: Some(state.devices[index as int]),
            ..state
        }),
{
}

/// When the component that has the focus gives it away, the other component has
/// it afterwards, and the caller is asked to give it the focus.
pub proof fn blur_passes_focus_on(state: SessionState)
    ensures
        state.after(blur_of(state.focus)).focus == state.focus.other(),
        state.after(blur_of(state.focus)).focus != state.focus,
        state.action(blur_of(state.focus)) == Some(ActionView::Active(state.focus.other())),
        state.after(blur_of(state.focus)) == (SessionState {
            redraw: true,
            focus: state.focus.other(),
            ..state
        }),
{
}

/// A component that gives the focus away leaves it with the other component,
/// whichever had it before.
pub proof fn blur_sets_focus(state: SessionState, id: Id)
    ensures
        state.after(blur_of(id)).focus == id.other(),
{
}

/// `AppClose` ends the session. The screen is to be painted again, as after
/// every message; nothing else changes, and the caller is asked for nothing.
pub proof fn close_ends_session(state: SessionState)
    ensures
        state.after(Msg::AppClose) == (SessionState { quit: true, redraw: true, ..state }),
        state.redraw ==> state.after(Msg::AppClose) == (SessionState { quit: true, ..state }),
        state.action(Msg::AppClose) is None,
{
}

/// The choice of a position beyond the list leaves the settings, and everything
/// but the request to paint, as they are; nothing is to be saved.
pub proof fn choice_beyond_list_is_dropped(state: SessionState, index: usize)
    requires
        index >= state.devices.len(),
    ensures
        state.after(Msg::SelectDeviceChanged(index)) == (SessionState { redraw: true, ..state }),
        state.after(Msg::SelectDeviceChanged(index)).boot_device == state.boot_device,
        state.action(Msg::SelectDeviceChanged(index)) is None,
{
}

/// However often `Noop` is dispatched, nothing changes but that the screen is to
/// be painted again, and the caller is never asked for anything.
pub proof fn noops_change_nothing(state: SessionState, msgs: Seq<Msg>)
    requires
        forall|i: int| 0 <= i < msgs.len() ==> msgs[i] == Msg::Noop,
    ensures
        after_all(state, msgs) == (SessionState {
            redraw: state.redraw || msgs.len() > 0,
            ..state
        }),
        forall|i: int|
            0 <= i < msgs.len() ==> (#[trigger] after_all(state, msgs.take(i))).action(msgs[i])
                is None,
    decreases msgs.len(),
{
    if msgs.len() > 0 {
        noops_change_nothing(state, msgs.drop_last());
    }
}

/// Every message asks for the screen to be painted again, and none takes back
/// that the session is to end.
pub proof fn every_message_asks_to_paint(state: SessionState, msg: Msg)
    ensures
        state.after(msg).redraw,
        state.quit ==> state.after(msg).quit,
        state.after(msg).devices == state.devices,
        state.after(msg).actions == state.actions,
{
}

/// The highlight of an open list that rewinds goes round: Down on the last
/// choice leads to the first, Up on the first to the last. Anywhere else either
/// key moves the highlight by one.
pub proof fn highlight_goes_round(list: SelectState)
    requires
        list.open,
        list.rewind == Some(true),
        list.selected < list.len,
    ensures
        select_after(list, Key::Down).selected == if list.selected + 1 == list.len {
            0
        } else {
            list.selected + 1
        },
        select_after(list, Key::Up).selected == if list.selected == 0 {
            list.len - 1
        } else {
            list.selected - 1
        },
        select_after(list, Key::Down) == (SelectState {
            selected: select_after(list, Key::Down).selected,
            ..list
        }),
        select_after(list, Key::Up) == (SelectState {
            selected: select_after(list, Key::Up).selected,
            ..list
        }),
{
}

/// Whether the positions that the list holds are positions of its choices, or
/// the first position where it has no choices.
pub open spec fn in_list(list: SelectState) -> bool {
    if list.len == 0 {
        list.selected == 0 && list.previous == 0
    } else {
        list.selected < list.len && list.previous < list.len
    }
}

/// A selector tells the choice of positions of its list only: as long as the
/// list holds positions of its choices, so it does after every key, and a choice
/// that the selector tells is one of them. Where the list holds a choice for
/// each device, the session thus takes every choice that is told.
pub proof fn selector_tells_choices_of_its_list(list: SelectState, key: Key, state: SessionState)
    requires
        in_list(list),
        list.len == state.devices.len(),
    ensures
        in_list(select_after(list, key)),
        select_message(list, key) matches Msg::SelectDeviceChanged(index) ==> {
            &&& index < list.len
            &&& index == select_after(list, key).selected
            &&& state.after(select_message(list, key)).boot_device == Some(
                state.devices[index as int],
            )
        },
{
}

/// Delete and Backspace never change the chosen device, and tell nothing: an
/// open list is closed on the choice that it was opened with, a closed list
/// stays as it is.
pub proof fn cancel_keeps_choice(list: SelectState, key: Key)
    requires
        key == Key::Delete || key == Key::Backspace,
    ensures
        !select_after(list, key).open,
        select_after(list, key).selected == select_choice(list),
        select_choice(select_after(list, key)) == select_choice(list),
        select_message(list, key) == Msg::Noop,
        !list.open ==> select_after(list, key) == list,
{
}

/// The selector tells every change of the chosen device, and nothing else as
/// one: whatever the key, the chosen device is another one afterwards exactly
/// where the selector tells `SelectDeviceChanged`, and what it tells is the
/// position that is chosen then.
pub proof fn selector_tells_every_change_of_choice(list: SelectState, key: Key)
    ensures
        select_choice(select_after(list, key)) != select_choice(list) <==> select_message(
            list,
            key,
        ) is SelectDeviceChanged,
        select_message(list, key) matches Msg::SelectDeviceChanged(index) ==> index
            == select_choice(select_after(list, key)),
{
}

/// Delete gives back the choice that a list was opened with: whatever the keys
/// that moved the highlight since Enter opened the list, the list is then closed
/// and shows the choice that it showed before.
pub proof fn cancel_restores_choice(list: SelectState, moves: Seq<Key>)
    requires
        !list.open,
        forall|i: int| 0 <= i < moves.len() ==> moves[i] == Key::Down || moves[i] == Key::Up,
    ensures
        select_after(after_keys(select_after(list, Key::Enter), moves), Key::Delete) == (
        SelectState { previous: list.selected, ..list }),
{
    moves_keep_previous(select_after(list, Key::Enter), moves);
}

/// The list after the keys `keys` were pressed on the selector one after the
/// other.
pub open spec fn after_keys(list: SelectState, keys: Seq<Key>) -> SelectState
    decreases keys.len(),
{
    if keys.len() == 0 {
        list
    } else {
        select_after(after_keys(list, keys.drop_last()), keys.last())
    }
}

/// Moving the highlight changes nothing of a list but the selected position.
proof fn moves_keep_previous(list: SelectState, moves: Seq<Key>)
    requires
        forall|i: int| 0 <= i < moves.len() ==> moves[i] == Key::Down || moves[i] == Key::Up,
    ensures
        after_keys(list, moves) == (SelectState {
            selected: after_keys(list, moves).selected,
            ..list
        }),
    decreases moves.len(),
{
    if moves.len() > 0 {
        moves_keep_previous(list, moves.drop_last());
    }
}

} // verus!
