//! The session: what it holds, and how a message changes it.
//!
//! The session does no input or output. What has to happen outside of it (the
//! focus given to a component, an attribute set on one, the settings saved) it
//! hands back as an [`Action`], for the caller to perform.

use crate::storage::{StorageDevice, StorageSettings};
use crate::{Id, Msg};
use vstd::prelude::*;

verus! {

/// What the session asks its caller to do.
#[derive(Debug, PartialEq, Eq)]
pub enum Action {
    /// Give the device selector these choices.
    SetSelectContent(Vec<String>),
    /// Let the device selector select the choice at this position.
    SetSelectValue(usize),
    /// Give the actions viewer these lines.
    SetTextareaText(Vec<String>),
    /// Give the focus to this component.
    Active(Id),
    /// Save these settings to the settings store.
    SaveSettings(StorageSettings),
}

/// An [`Action`] with its strings as sequences of characters.
pub enum ActionView {
    SetSelectContent(Seq<Seq<char>>),
    SetSelectValue(usize),
    SetTextareaText(Seq<Seq<char>>),
    Active(Id),
    SaveSettings(Option<Seq<char>>),
}

impl View for Action {
    type V = ActionView;

    open spec fn view(&self) -> ActionView {
        match self {
            Action::SetSelectContent(choices) => ActionView::SetSelectContent(choices.deep_view()),
            Action::SetSelectValue(position) => ActionView::SetSelectValue(*position),
            Action::SetTextareaText(lines) => ActionView::SetTextareaText(lines.deep_view()),
            Action::Active(id) => ActionView::Active(*id),
            Action::SaveSettings(settings) => ActionView::SaveSettings(settings@),
        }
    }
}

impl DeepView for Action {
    type V = ActionView;

    open spec fn deep_view(&self) -> ActionView {
        self@
    }
}

/// The heights, in rows, of what the screen shows from top to bottom, and the
/// margin around all of it.
#[derive(Debug, PartialEq, Eq, Clone, Copy, Structural)]
pub struct Panes {
    pub margin: u16,
    pub select_device: u16,
    pub textarea_actions: u16,
    pub footer: u16,
}

/// The height of the device selector while its list is closed and shows the
/// chosen device.
pub const SELECT_CLOSED_ROWS: u16 = 3;

/// The height of the device selector while its list is open.
pub const SELECT_OPEN_ROWS: u16 = 5;

/// The height of the actions viewer.
pub const ACTIONS_ROWS: u16 = 12;

/// The height of the footer.
pub const FOOTER_ROWS: u16 = 1;

/// The margin around the panes.
pub const MARGIN: u16 = 1;

/// The panes of the screen; `value_shown` says whether the device selector
/// shows the one chosen device, which it does while its list is closed.
pub open spec fn panes(value_shown: bool) -> Panes {
    Panes {
        margin: MARGIN,
        select_device: if value_shown {
            SELECT_CLOSED_ROWS
        } else {
            SELECT_OPEN_ROWS
        },
        textarea_actions: ACTIONS_ROWS,
        footer: FOOTER_ROWS,
    }
}

/// What a session holds, with its strings as sequences of characters.
pub struct SessionState {
    /// Whether the session is to end.
    pub quit: bool,
    /// Whether the screen has to be painted again.
    pub redraw: bool,
    /// The names of the devices that were found, in the order of the device
    /// directory.
    pub devices: Seq<Seq<char>>,
    /// The descriptions of the storage actions.
    pub actions: Seq<Seq<char>>,
    /// The name of the boot device, where one is set.
    pub boot_device: Option<Seq<char>>,
    /// The component that has the focus.
    pub focus: Id,
}

impl SessionState {
    /// The session after `msg` was dispatched. Every message asks for the
    /// screen to be painted again. Besides that, `AppClose` ends the session, a
    /// component that gives the focus away passes it to the other one, and the
    /// choice of a device of the list makes that device the boot device. The
    /// choice of a position beyond the list changes nothing else, and neither
    /// does `Noop`.
    pub open spec fn after(self, msg: Msg) -> SessionState {
        let painted = SessionState { redraw: true, ..self };
        match msg {
            Msg::AppClose => SessionState { quit: true, ..painted },
            Msg::SelectDeviceBlur => SessionState { focus: Id::TextareaActions, ..painted },
            Msg::TextareaActionsBlur => SessionState { focus: Id::SelectDevice, ..painted },
            Msg::SelectDeviceChanged(index) => if index < self.devices.len() {
                SessionState { boot_device: Some(self.devices[index as int]), ..painted }
            } else {
                painted
            },
            Msg::Noop => painted,
        }
    }

    /// What the caller has to do when `msg` is dispatched: move the focus where
    /// the session moved it, and save the settings where a device of the list
    /// was chosen.
    pub open spec fn action(self, msg: Msg) -> Option<ActionView> {
        match msg {
            Msg::SelectDeviceBlur => Some(ActionView::Active(Id::TextareaActions)),
            Msg::TextareaActionsBlur => Some(ActionView::Active(Id::SelectDevice)),
            Msg::SelectDeviceChanged(index) => if index < self.devices.len() {
                Some(ActionView::SaveSettings(Some(self.devices[index as int])))
            } else {
                None
            },
            _ => None,
        }
    }

    /// The position of the boot device in the list of devices: the first
    /// position whose device has the name that the settings hold. `None` where
    /// the settings hold no name, or one that no device of the list has.
    pub open spec fn boot_device_index(self) -> Option<int> {
        match self.boot_device {
            Some(name) => self.devices.index_of_first(name),
            None => None,
        }
    }

    /// What the caller has to do once the devices and the settings are there:
    /// fill the device selector, let it select the boot device where the list
    /// has it, and fill the actions viewer.
    pub open spec fn init_actions(self) -> Seq<ActionView> {
        let select = match self.boot_device_index() {
            Some(index) => seq![ActionView::SetSelectValue(index as usize)],
            None => seq![],
        };
        seq![ActionView::SetSelectContent(self.devices)] + select + seq![
            ActionView::SetTextareaText(self.actions),
        ]
    }
}

/// The session.
#[derive(Debug, PartialEq, Eq)]
pub struct Model {
    /// Becomes true when the session is to end.
    pub quit: bool,
    /// Tells whether the screen has to be painted again.
    pub redraw: bool,
    /// The devices that were found when the session started.
    pub available_devices: Vec<StorageDevice>,
    /// The descriptions of the storage actions.
    pub proposal_actions: Vec<String>,
    /// The storage settings.
    pub settings: StorageSettings,
    /// The component that has the focus.
    pub focus: Id,
}

impl Model {
    /// What the session holds.
    pub open spec fn state(&self) -> SessionState {
        SessionState {
            quit: self.quit,
            redraw: self.redraw,
            devices: self.available_devices.deep_view(),
            actions: self.proposal_actions.deep_view(),
            boot_device: self.settings@,
            focus: self.focus,
        }
    }

    /// The names of the devices, in the order of the list.
    pub fn device_names(&self) -> (names: Vec<String>)
        ensures
            names.deep_view() == self.state().devices,
    {
        let mut names: Vec<String> = Vec::new();
        let mut i: usize = 0;
        while i < self.available_devices.len()
            invariant
                i <= self.available_devices.len(),
                names.len() == i,
                forall|j: int| 0 <= j < i ==> names[j]@ == self.available_devices[j].name@,
            decreases self.available_devices.len() - i,
        {
            names.push(self.available_devices[i].name.clone());
            i += 1;
        }
        names
    }

    /// The position of the boot device in the list of devices: the first
    /// position whose device has the name that the settings hold.
    pub fn boot_device_idx(&self) -> (idx: Option<usize>)
        ensures
            match idx {
                Some(index) => self.state().boot_device_index() == Some(index as int),
                None => self.state().boot_device_index() is None,
            },
    {
        let ghost devices = self.state().devices;
        match &self.settings.boot_device {
            Some(device_name) => {
                let mut i: usize = 0;
                while i < self.available_devices.len()
                    invariant
                        i <= self.available_devices.len(),
                        devices == self.state().devices,
                        self.state().boot_device == Some(device_name@),
                        forall|j: int| 0 <= j < i ==> devices[j] != device_name@,
                    decreases self.available_devices.len() - i,
                {
                    if self.available_devices[i].name == *device_name {
                        proof {
                            assert(devices[i as int] == device_name@);
                            devices.index_of_first_ensures(device_name@);
                        }
                        return Some(i);
                    }
                    i += 1;
                }
                proof {
                    devices.index_of_first_ensures(device_name@);
                }
                None
            },
            None => None,
        }
    }

    /// Takes up the devices and the settings that were fetched, and says how to
    /// set up the components for them.
    pub fn init(
        &mut self,
        devices: Vec<StorageDevice>,
        settings: StorageSettings,
    ) -> (actions: Vec<Action>)
        ensures
            final(self).state() == (SessionState {
                devices: devices.deep_view(),
                boot_device: settings@,
                ..old(self).state()
            }),
            actions.deep_view() == final(self).state().init_actions(),
    {
        self.available_devices = devices;
        self.settings = settings;
        let mut actions: Vec<Action> = Vec::new();
        actions.push(Action::SetSelectContent(self.device_names()));
        match self.boot_device_idx() {
            Some(index) => {
                actions.push(Action::SetSelectValue(index));
            },
            None => {},
        }
        actions.push(Action::SetTextareaText(self.proposal_actions.clone()));
        actions
    }

    /// The panes of the screen; `value_shown` says whether the device selector
    /// shows the one chosen device.
    pub fn view(&self, value_shown: bool) -> (layout: Panes)
        ensures
            layout == panes(value_shown),
    {
        let select_device_len: u16 = if value_shown {
            SELECT_CLOSED_ROWS
        } else {
            SELECT_OPEN_ROWS
        };
        Panes {
            margin: MARGIN,
            select_device: select_device_len,
            textarea_actions: ACTIONS_ROWS,
            footer: FOOTER_ROWS,
        }
    }

    /// The panes to paint, where the screen has to be painted again; the session
    /// then takes the screen as painted.
    pub fn repaint(&mut self, value_shown: bool) -> (layout: Option<Panes>)
        ensures
            final(self).state() == (SessionState { redraw: false, ..old(self).state() }),
            layout == if old(self).redraw {
                Some(panes(value_shown))
            } else {
                None
            },
    {
        if self.redraw {
            self.redraw = false;
            Some(self.view(value_shown))
        } else {
            None
        }
    }

    /// Dispatches one message, where there is one; no message is taken as
    /// `Noop`. Gives back the message to dispatch next, which there never is,
    /// and what the caller has to do.
    pub fn update(&mut self, msg: Option<Msg>) -> (next: (Option<Msg>, Option<Action>))
        ensures
            final(self).state() == old(self).state().after(msg.unwrap_or(Msg::Noop)),
            next.0 is None,
            next.1.deep_view() == old(self).state().action(msg.unwrap_or(Msg::Noop)),
    {
        self.redraw = true;
        let action = match msg.unwrap_or(Msg::Noop) {
            Msg::AppClose => {
                self.quit = true;
                None
            },
            Msg::SelectDeviceBlur => {
                self.focus = Id::TextareaActions;
                Some(Action::Active(Id::TextareaActions))
            },
            Msg::TextareaActionsBlur => {
                self.focus = Id::SelectDevice;
                Some(Action::Active(Id::SelectDevice))
            },
            Msg::SelectDeviceChanged(index) => {
                if index < self.available_devices.len() {
                    let name = self.available_devices[index].name.clone();
                    self.settings.boot_device = Some(name);
                    Some(Action::SaveSettings(self.settings.clone()))
                } else {
                    None
                }
            },
            Msg::Noop => None,
        };
        (None, action)
    }

    /// Dispatches `msg` and then every message that a dispatch gives back, until
    /// there is none. Gives back what the caller has to do, in the order of the
    /// dispatches.
    pub fn dispatch(&mut self, msg: Msg) -> (actions: Vec<Action>)
        ensures
            final(self).state() == old(self).state().after(msg),
            actions.deep_view() == match old(self).state().action(msg) {
                Some(action) => seq![action],
                None => seq![],
            },
    {
        let mut actions: Vec<Action> = Vec::new();
        let mut msg: Option<Msg> = Some(msg);
        let ghost first = msg.unwrap();
        while msg.is_some()
            invariant
                msg is Some ==> msg == Some(first) && self.state() == old(self).state()
                    && actions.len() == 0,
                msg is None ==> self.state() == old(self).state().after(first)
                    && actions.deep_view() == match old(self).state().action(first) {
                    Some(action) => seq![action],
                    None => seq![],
                },
            decreases
                    (if msg is Some {
                        1int
                    } else {
                        0int
                    }),
        {
            let (next, action) = self.update(msg);
            match action {
                Some(action) => {
                    actions.push(action);
                },
                None => {},
            }
            msg = next;
        }
        actions
    }
}

impl Default for Model {
    /// A session that has just started: nothing was fetched yet, the screen is
    /// to be painted, and the device selector has the focus.
    fn default() -> (model: Self)
        ensures
            model.state() == (SessionState {
                quit: false,
                redraw: true,
                devices: Seq::empty(),
                actions: seq!["Action one"@, "Second action"@],
                boot_device: None,
                focus: Id::SelectDevice,
            }),
    {
        let mut proposal_actions: Vec<String> = Vec::new();
        proposal_actions.push("Action one".to_owned());
        proposal_actions.push("Second action".to_owned());
        let model = Model {
            quit: false,
            redraw: true,
            available_devices: Vec::new(),
            proposal_actions,
            settings: StorageSettings::default(),
            focus: Id::SelectDevice,
        };
        assert(model.state().devices =~= Seq::empty());
        assert(model.state().actions =~= seq!["Action one"@, "Second action"@]);
        model
    }
}

} // verus!
