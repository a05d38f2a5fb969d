use agama_hackweek_ancor::components::{SelectDevice, TextareaActions};
use agama_hackweek_ancor::event::Key;
use agama_hackweek_ancor::widgets::select::SelectState;
use agama_hackweek_ancor::widgets::textarea::TextareaState;
use agama_hackweek_ancor::Msg;
use tuirealm::props::{AttrValue, Attribute, PropPayload, PropValue, TextSpan};
use tuirealm::MockComponent;

const KEYS: [Key; 12] = [
    Key::Down,
    Key::Up,
    Key::Enter,
    Key::Delete,
    Key::Backspace,
    Key::Tab,
    Key::Esc,
    Key::PageDown,
    Key::PageUp,
    Key::Home,
    Key::End,
    Key::Other,
];

fn key_sequences(length: usize) -> Vec<Vec<Key>> {
    let mut sequences: Vec<Vec<Key>> = vec![Vec::new()];
    for _ in 0..length {
        let mut longer = Vec::new();
        for sequence in &sequences {
            for key in KEYS {
                let mut next = sequence.clone();
                next.push(key);
                longer.push(next);
            }
        }
        sequences = longer;
    }
    sequences
}

fn list_with(len: usize, selected: usize, rewind: bool) -> SelectDevice {
    let mut selector = SelectDevice::default();
    selector.component.attr(Attribute::Rewind, AttrValue::Flag(rewind));
    selector.component.attr(
        Attribute::Content,
        AttrValue::Payload(PropPayload::Vec(
            (0..len).map(|choice| PropValue::Str(format!("sd{}", choice))).collect(),
        )),
    );
    selector.component.attr(
        Attribute::Value,
        AttrValue::Payload(PropPayload::One(PropValue::Usize(selected))),
    );
    selector
}

fn text_with(len: usize) -> TextareaActions {
    let mut viewer = TextareaActions::default();
    viewer.component.attr(
        Attribute::Text,
        AttrValue::Payload(PropPayload::Vec(
            (0..len)
                .map(|line| PropValue::TextSpan(TextSpan::from(format!("{}", line))))
                .collect(),
        )),
    );
    viewer
}

fn choice_of(list: SelectState) -> usize {
    if list.open {
        list.previous
    } else {
        list.selected
    }
}

fn expected_list(list: SelectState, key: Key) -> (SelectState, Msg) {
    let rewinds = list.rewind == Some(true);
    match key {
        Key::Down if list.open => {
            let selected = if list.selected + 1 < list.len {
                list.selected + 1
            } else if rewinds {
                0
            } else {
                list.selected
            };
            (SelectState { selected, ..list }, Msg::Noop)
        }
        Key::Up if list.open => {
            let selected = if list.selected > 0 {
                list.selected - 1
            } else if rewinds && list.len > 0 {
                list.len - 1
            } else {
                list.selected
            };
            (SelectState { selected, ..list }, Msg::Noop)
        }
        Key::Enter if list.open => {
            let msg = if list.selected != list.previous {
                Msg::SelectDeviceChanged(list.selected)
            } else {
                Msg::Noop
            };
            (SelectState { open: false, ..list }, msg)
        }
        Key::Enter => (SelectState { open: true, previous: list.selected, ..list }, Msg::Noop),
        Key::Delete | Key::Backspace if list.open => {
            (SelectState { open: false, selected: list.previous, ..list }, Msg::Noop)
        }
        Key::Tab => (list, Msg::SelectDeviceBlur),
        Key::Esc => (list, Msg::AppClose),
        _ => (list, Msg::Noop),
    }
}

fn expected_text(text: TextareaState, key: Key) -> (TextareaState, Msg) {
    let last = text.len.saturating_sub(1);
    let page = text.step.unwrap();
    let index = match key {
        Key::Down => (text.index + 1).min(last),
        Key::Up => text.index.saturating_sub(1),
        Key::PageDown => (text.index + page).min(last),
        Key::PageUp => text.index.saturating_sub(page),
        Key::Home => 0,
        Key::End => last,
        _ => text.index,
    };
    let msg = match key {
        Key::Tab => Msg::TextareaActionsBlur,
        Key::Esc => Msg::AppClose,
        _ => Msg::Noop,
    };
    (TextareaState { index, ..text }, msg)
}

#[test]
fn selector_follows_every_short_run_of_keys() {
    let sequences = key_sequences(3);
    for rewind in [true, false] {
        for len in 0..4 {
            for selected in 0..len.max(1) {
                for sequence in &sequences {
                    let mut selector = list_with(len, selected, rewind);
                    let mut list = selector.list();
                    let rewind = Some(rewind);
                    assert_eq!(
                        list,
                        SelectState { len, selected, previous: 0, open: false, rewind }
                    );
                    let choices = selector.component.states.choices.clone();
                    for key in sequence {
                        assert!(selector.is_wf());
                        let (after, msg) = expected_list(list, *key);
                        assert_eq!(selector.on(*key), Some(msg));
                        let told = msg == Msg::SelectDeviceChanged(choice_of(after));
                        assert_eq!(choice_of(after) != choice_of(list), told);
                        list = selector.list();
                        assert_eq!(list, after);
                    }
                    assert_eq!(selector.component.states.choices, choices);
                }
            }
        }
    }
}

#[test]
fn selector_follows_long_walks_through_its_list() {
    let walk = [
        Key::Enter,
        Key::Down,
        Key::Down,
        Key::Down,
        Key::Down,
        Key::Down,
        Key::Enter,
        Key::Enter,
        Key::Up,
        Key::Up,
        Key::Up,
        Key::Delete,
        Key::Enter,
        Key::Up,
        Key::Up,
        Key::Up,
        Key::Up,
        Key::Up,
        Key::Up,
        Key::Enter,
    ];
    for rewind in [true, false] {
        for len in 0..7 {
            let mut selector = list_with(len, 0, rewind);
            let mut list = selector.list();
            for key in walk {
                let (after, msg) = expected_list(list, key);
                assert_eq!(selector.on(key), Some(msg));
                list = selector.list();
                assert_eq!(list, after);
            }
        }
    }
}

#[test]
fn viewer_follows_every_short_run_of_keys() {
    let sequences = key_sequences(3);
    for len in 0..12 {
        for sequence in &sequences {
            let mut viewer = text_with(len);
            let mut text = viewer.text();
            assert_eq!(text, TextareaState { index: 0, len, step: Some(4) });
            let lines = viewer.component.query(Attribute::Text);
            for key in sequence {
                assert!(viewer.is_wf());
                let (after, msg) = expected_text(text, *key);
                assert_eq!(viewer.on(*key), Some(msg));
                text = viewer.text();
                assert_eq!(text, after);
            }
            assert_eq!(viewer.component.query(Attribute::Text), lines);
        }
    }
}

#[test]
fn viewer_pages_by_its_scroll_step() {
    for page in [0, 1, 3, 8, 20] {
        for len in [0, 1, 9, 30] {
            let mut viewer = text_with(len);
            viewer.component.attr(Attribute::ScrollStep, AttrValue::Length(page));
            let mut text = viewer.text();
            assert_eq!(text, TextareaState { index: 0, len, step: Some(page) });
            let keys =
                [Key::PageDown, Key::Down, Key::PageDown, Key::PageUp, Key::Up, Key::PageUp];
            for key in keys {
                let (after, msg) = expected_text(text, key);
                assert_eq!(viewer.on(key), Some(msg));
                text = viewer.text();
                assert_eq!(text, after);
            }
        }
    }
}
