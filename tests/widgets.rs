use ratatelm::keys::{KeyCode, KeyEvent};
use ratatelm::sniper::Message;
use ratatelm::file_entry::FileEntry;
use ratatelm::widgets::{EventOrMessage, List, Widget};

fn key(code: KeyCode) -> KeyEvent {
    KeyEvent::new(code, 0)
}

fn list_of(paths: &[&str]) -> List<FileEntry> {
    let mut l = List::new(paths.iter().map(|p| FileEntry::new(p)).collect(), "Files".to_string());
    l.on_select();
    l
}

fn offer(l: &mut List<FileEntry>, code: KeyCode) -> Option<EventOrMessage<Message>> {
    Widget::<Message>::handle_key(l, key(code))
}

#[test]
fn up_down_stay_within_bounds() {
    let mut l = list_of(&["a", "b", "c"]);
    let keys = [
        KeyCode::Up, KeyCode::Up, KeyCode::Down, KeyCode::Down, KeyCode::Down, KeyCode::Down,
        KeyCode::Down, KeyCode::Up, KeyCode::Down, KeyCode::Down,
    ];
    for k in keys {
        assert_eq!(offer(&mut l, k), None);
        let i = l.selected().expect("something is selected");
        assert!(i < 3);
    }
    assert_eq!(l.selected(), Some(2));
}

#[test]
fn first_up_or_down_selects_first_element() {
    let mut l = list_of(&["a", "b"]);
    assert_eq!(l.selected(), None);
    offer(&mut l, KeyCode::Up);
    assert_eq!(l.selected(), Some(0));
    offer(&mut l, KeyCode::Up);
    assert_eq!(l.selected(), Some(0));

    let mut m = list_of(&["a", "b"]);
    offer(&mut m, KeyCode::Down);
    assert_eq!(m.selected(), Some(0));
    offer(&mut m, KeyCode::Down);
    assert_eq!(m.selected(), Some(1));
}

#[test]
fn empty_list_does_not_panic() {
    let mut l = list_of(&[]);
    assert_eq!(offer(&mut l, KeyCode::Up), None);
    assert_eq!(offer(&mut l, KeyCode::Down), None);
    assert_eq!(l.selected(), None);
    assert_eq!(
        offer(&mut l, KeyCode::Enter),
        Some(EventOrMessage::Message(Message::Error("No item selected".to_string())))
    );
}

#[test]
fn enter_without_on_select_is_consumed() {
    let mut l: List<FileEntry> = List::new(vec![FileEntry::new("a")], "t".to_string());
    offer(&mut l, KeyCode::Down);
    assert_eq!(offer(&mut l, KeyCode::Enter), None);
}

#[test]
fn enter_chooses_selected_element() {
    let mut l = list_of(&["./a", "./b"]);
    offer(&mut l, KeyCode::Down);
    offer(&mut l, KeyCode::Down);
    assert_eq!(
        offer(&mut l, KeyCode::Enter),
        Some(EventOrMessage::Message(Message::OpenPath("b".to_string())))
    );
}

#[test]
fn other_keys_pass_on() {
    let mut l = list_of(&["a"]);
    let e = KeyEvent::new(KeyCode::Char('x'), 2);
    assert_eq!(Widget::<Message>::handle_key(&mut l, e), Some(EventOrMessage::Event(e)));
    assert_eq!(l.selected(), None);
}

#[test]
fn selection_clamps_after_elements_shrink() {
    let mut l = list_of(&["a", "b", "c", "d"]);
    for _ in 0..4 {
        offer(&mut l, KeyCode::Down);
    }
    assert_eq!(l.selected(), Some(3));
    l.set_elems(vec![FileEntry::new("x"), FileEntry::new("y")]);
    assert_eq!(l.selected(), Some(1));
    assert_eq!(offer(&mut l, KeyCode::Enter), Some(EventOrMessage::Message(Message::OpenPath("y".to_string()))));
    offer(&mut l, KeyCode::Down);
    assert_eq!(l.selected(), Some(1));
    l.set_elems(vec![FileEntry::new("x"), FileEntry::new("y"), FileEntry::new("z")]);
    assert_eq!(l.selected(), Some(1));
    offer(&mut l, KeyCode::Up);
    assert_eq!(l.selected(), Some(0));
    l.set_elems(vec![]);
    assert_eq!(l.selected(), None);
    assert_eq!(
        offer(&mut l, KeyCode::Enter),
        Some(EventOrMessage::Message(Message::Error("No item selected".to_string())))
    );
}
