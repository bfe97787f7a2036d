use ratatelm::file_entry::{get_file_entries, get_files, FileEntry};
use ratatelm::keys::{KeyCode, KeyEvent};
use ratatelm::runtime::{handle_key_event, process_key, settle};
use ratatelm::sniper::{handle_key, update, Action, Message, PathKind, Sniper, SniperMode};
use ratatelm::widgets::{EventOrMessage, Selectable, Widget};

const FUEL: usize = 64;

fn key(code: KeyCode) -> KeyEvent {
    KeyEvent::new(code, 0)
}

fn names(xs: &[&str]) -> Vec<String> {
    xs.iter().map(|s| s.to_string()).collect()
}

fn shown(model: &Sniper) -> Vec<String> {
    model.file_list.elems.iter().map(|f| f.to_string()).collect()
}

/// Answers the pending action the way a file system holding `dirs` would,
/// where `listing` gives the entries read from each directory.
fn answer(model: &mut Sniper, dirs: &[&str], listing: &dyn Fn(&str) -> Vec<String>) {
    while let Some(action) = model.take_action() {
        let reply = match action {
            Action::Probe(p) => {
                let kind = if dirs.contains(&p.as_str()) { PathKind::Dir } else { PathKind::File };
                Message::Probed(p, kind)
            }
            Action::ChangeDir(p) => Message::Listed(listing(&p)),
            Action::Open(_) => continue,
        };
        let _ = settle::<Message, Sniper>(model, Some(reply), FUEL);
    }
}

#[test]
fn test_files_sorted() {
    let read = names(&["./zeta", "./alpha", "./Beta", "./mid/dle", "./alpha2"]);
    let files = get_file_entries(&get_files(read));
    let mut files_sorted = files.clone();
    files_sorted.sort_by_key(|f| f.to_string());
    assert_eq!(files, files_sorted);
}

#[test]
fn test_files_listing_starts_with_dot_entries() {
    let files = get_files(names(&["./b", "./a"]));
    assert_eq!(files, names(&[".", "..", "./b", "./a"]));
    let entries = get_file_entries(&files);
    let shown: Vec<String> = entries.iter().map(|f| f.to_string()).collect();
    assert_eq!(shown, names(&[".", "..", "a", "b"]));
}

#[test]
fn test_prefix_stripped() {
    let this = ".";
    let parent = "..";
    let lead = "./";
    let mut child: String = lead.to_string();
    child.push_str("foo");

    for f in [this, parent, child.as_str()].map(FileEntry::new) {
        assert!(!f.to_string().starts_with(lead));
    }
    assert_eq!(FileEntry::new("./foo").to_string(), "foo");
    assert_eq!(FileEntry::new("foo/./bar").to_string(), "foo/./bar");
}

#[test]
fn test_change_dir_fewer_files_in_target_than_previous_selection_does_not_panic() {
    let dirs = ["./test", "sub"];
    let listing = |p: &str| -> Vec<String> {
        if p == "./test" {
            names(&["./a.txt", "./z.txt", "./sub"])
        } else {
            names(&["./only.txt"])
        }
    };
    let mut app = Sniper::new("./test".into());
    answer(&mut app, &dirs, &listing);
    assert_eq!(shown(&app), names(&[".", "..", "a.txt", "sub", "z.txt"]));

    let down = key(KeyCode::Down);
    for _ in 0..4 {
        process_key::<Message, Sniper>(&mut app, down, FUEL);
    }
    assert_eq!(app.file_list.selected(), Some(3));

    process_key::<Message, Sniper>(&mut app, key(KeyCode::Enter), FUEL);
    answer(&mut app, &dirs, &listing);
    assert_eq!(shown(&app), names(&[".", "..", "only.txt"]));
    assert_eq!(app.file_list.selected(), Some(2));

    process_key::<Message, Sniper>(&mut app, down, FUEL);
    assert_eq!(app.file_list.selected(), Some(2));
}

#[test]
fn test_search_bar_swallows_quit_key() {
    let mut app = Sniper::new(".".into());
    let _ = app.take_action();
    let _ = settle::<Message, Sniper>(&mut app, Some(Message::Listed(vec![])), FUEL);

    let slash = handle_key_event::<Message, Sniper>(&mut app, key(KeyCode::Char('/')));
    assert_eq!(slash, Some(Message::EnterMode(SniperMode::Searching)));
    let _ = settle::<Message, Sniper>(&mut app, slash, FUEL);
    assert_eq!(app.mode, SniperMode::Searching);

    let q = handle_key_event::<Message, Sniper>(&mut app, key(KeyCode::Char('q')));
    assert_eq!(q, None);
    assert_eq!(app.mode, SniperMode::Searching);
    assert_eq!(app.search_bar.typed(), &vec![key(KeyCode::Char('q'))]);

    let esc = handle_key_event::<Message, Sniper>(&mut app, key(KeyCode::Esc));
    assert_eq!(esc, Some(Message::EnterMode(SniperMode::Navigating)));
    let _ = settle::<Message, Sniper>(&mut app, esc, FUEL);

    let quit = handle_key_event::<Message, Sniper>(&mut app, key(KeyCode::Char('q')));
    assert_eq!(quit, Some(Message::Quit));
    let _ = settle::<Message, Sniper>(&mut app, quit, FUEL);
    assert!(!app.is_running());
}

#[test]
fn test_listing_of_empty_directory_clears_selection() {
    let mut app = Sniper::new(".".into());
    let _ = app.take_action();
    let _ = settle::<Message, Sniper>(&mut app, Some(Message::Listed(names(&["./a", "./b", "./c"]))), FUEL);
    for _ in 0..5 {
        process_key::<Message, Sniper>(&mut app, key(KeyCode::Down), FUEL);
    }
    assert_eq!(app.file_list.selected(), Some(4));
    let _ = settle::<Message, Sniper>(&mut app, Some(Message::Listed(vec![])), FUEL);
    assert_eq!(shown(&app), names(&[".", ".."]));
    assert_eq!(app.file_list.selected(), Some(1));
    assert_eq!(app.mode, SniperMode::Navigating);
}

#[test]
fn test_application_keys() {
    let mut app = Sniper::new(".".into());
    assert_eq!(handle_key(&app, key(KeyCode::Char('q'))), Some(Message::Quit));
    assert_eq!(handle_key(&app, key(KeyCode::Char('r'))), Some(Message::OpenDir(".".into())));
    assert_eq!(handle_key(&app, key(KeyCode::Char('x'))), None);
    app.mode = SniperMode::Searching;
    assert_eq!(handle_key(&app, key(KeyCode::Enter)), Some(Message::EnterMode(SniperMode::Navigating)));
    assert_eq!(handle_key(&app, key(KeyCode::Char('q'))), None);
    app.mode = SniperMode::Quit;
    assert_eq!(handle_key(&app, key(KeyCode::Char('q'))), None);
}

#[test]
fn test_update_steps() {
    let mut app = Sniper::new("start".into());
    assert_eq!(app.take_action(), Some(Action::ChangeDir("start".into())));
    assert_eq!(app.take_action(), None);

    assert_eq!(update(&mut app, Message::OpenPath("x".into())), None);
    assert_eq!(app.take_action(), Some(Action::Probe("x".into())));
    assert_eq!(
        update(&mut app, Message::Probed("d".into(), PathKind::Dir)),
        Some(Message::OpenDir("d".into()))
    );
    assert_eq!(
        update(&mut app, Message::Probed("f".into(), PathKind::File)),
        Some(Message::OpenFile("f".into()))
    );
    assert_eq!(
        update(&mut app, Message::Probed("p".into(), PathKind::Other)),
        Some(Message::Error("Unable to open p - unknown file type".into()))
    );
    assert_eq!(update(&mut app, Message::OpenFile("f".into())), None);
    assert_eq!(app.take_action(), Some(Action::Open("f".into())));

    assert_eq!(update(&mut app, Message::Error("oops".into())), None);
    assert_eq!(app.message, "oops");
    assert_eq!(update(&mut app, Message::EnterMode(SniperMode::Navigating)), None);
    assert_eq!(app.message, "");
    assert_eq!(update(&mut app, Message::Quit), None);
    assert_eq!(app.mode, SniperMode::Quit);
}

#[test]
fn test_enter_opens_selected_entry() {
    let mut app = Sniper::new(".".into());
    let _ = app.take_action();
    let _ = settle::<Message, Sniper>(&mut app, Some(Message::Listed(names(&["./f.txt"]))), FUEL);
    assert_eq!(
        handle_key_event::<Message, Sniper>(&mut app, key(KeyCode::Enter)),
        Some(Message::Error("No item selected".into()))
    );
    for _ in 0..3 {
        process_key::<Message, Sniper>(&mut app, key(KeyCode::Down), FUEL);
    }
    assert_eq!(
        handle_key_event::<Message, Sniper>(&mut app, key(KeyCode::Enter)),
        Some(Message::OpenPath("f.txt".into()))
    );
}

#[test]
fn test_file_entry_passes_keys_and_selects() {
    let mut f = FileEntry::new("./a");
    let e = key(KeyCode::Up);
    assert_eq!(Widget::<Message>::handle_key(&mut f, e), Some(EventOrMessage::Event(e)));
    assert_eq!(Selectable::<Message>::selected_message(&f), Message::OpenPath("a".into()));
    assert_eq!(
        <FileEntry as Selectable<Message>>::nothing_selected(),
        Message::Error("No item selected".into())
    );
}
