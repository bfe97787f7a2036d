//! A file browser built on the runtime: a listing of the current directory
//! that Enter descends into or opens from, and a search bar.
//!
//! The model is pure: work on the file system is left as a pending
//! `Action`, which the caller performs and answers with a message.

use vstd::prelude::*;
use vstd::string::StringExecFns;

use crate::file_entry::{get_file_entries, get_files, sort_entries, listing, FileEntry};
use crate::keys::{KeyCode, KeyEvent};
use crate::runtime::App;
use crate::search_bar::SearchBar;
use crate::widgets::{clamped_selection, EventOrMessage, List, ListView, Widget};

verus! {

/// What the browser is doing.
#[derive(Clone, Copy, Debug, PartialEq, Eq, Structural)]
pub enum SniperMode {
    /// The user is navigating through directories.
    Navigating,
    /// The user is searching using the bottom bar.
    Searching,
    /// The browser is terminating.
    Quit,
}

/// What a path names on disk.
#[derive(Clone, Copy, Debug, PartialEq, Eq, Structural)]
pub enum PathKind {
    /// A directory.
    Dir,
    /// A regular file.
    File,
    /// Nothing, or something that is neither.
    Other,
}

/// The messages of the browser.
#[derive(Debug, PartialEq, Eq)]
pub enum Message {
    Quit,
    /// Change to this directory and list it.
    OpenDir(String),
    /// Open this file with the program the system associates with it.
    OpenFile(String),
    /// Open this path, whatever it names.
    OpenPath(String),
    /// Show this text in the status line.
    Error(String),
    EnterMode(SniperMode),
    /// What a path named on disk, in answer to `Action::Probe`.
    Probed(String, PathKind),
    /// The entries of the current directory, in answer to `Action::ChangeDir`.
    Listed(Vec<String>),
}

/// A message with its text seen as characters.
pub enum MessageView {
    Quit,
    OpenDir(Seq<char>),
    OpenFile(Seq<char>),
    OpenPath(Seq<char>),
    Error(Seq<char>),
    EnterMode(SniperMode),
    Probed(Seq<char>, PathKind),
    Listed(Seq<Seq<char>>),
}

impl View for Message {
    type V = MessageView;

    open spec fn view(&self) -> MessageView {
        match self {
            Message::Quit => MessageView::Quit,
            Message::OpenDir(p) => MessageView::OpenDir(p@),
            Message::OpenFile(p) => MessageView::OpenFile(p@),
            Message::OpenPath(p) => MessageView::OpenPath(p@),
            Message::Error(s) => MessageView::Error(s@),
            Message::EnterMode(m) => MessageView::EnterMode(*m),
            Message::Probed(p, k) => MessageView::Probed(p@, *k),
            Message::Listed(v) => MessageView::Listed(v.deep_view()),
        }
    }
}

/// Work on the file system that the browser waits for.
#[derive(Debug, PartialEq, Eq)]
pub enum Action {
    /// Find out what the path names; answer with `Message::Probed`.
    Probe(String),
    /// Open the file with its associated program; answer with nothing, or
    /// with `Message::Error` on failure.
    Open(String),
    /// Make the directory current and read it; answer with
    /// `Message::Listed`, or with `Message::Error` on failure.
    ChangeDir(String),
}

/// An action with its paths seen as characters.
pub enum ActionView {
    Probe(Seq<char>),
    Open(Seq<char>),
    ChangeDir(Seq<char>),
}

impl View for Action {
    type V = ActionView;

    open spec fn view(&self) -> ActionView {
        match self {
            Action::Probe(p) => ActionView::Probe(p@),
            Action::Open(p) => ActionView::Open(p@),
            Action::ChangeDir(p) => ActionView::ChangeDir(p@),
        }
    }
}

/// The browser's model.
pub struct Sniper {
    pub file_list: List<FileEntry>,
    pub mode: SniperMode,
    pub search_bar: SearchBar,
    /// The status line.
    pub message: String,
    pending: Option<Action>,
}

/// The abstract state of the browser.
pub struct SniperView {
    pub files: ListView<Seq<char>>,
    pub mode: SniperMode,
    pub search: Seq<KeyEvent>,
    pub message: Seq<char>,
    pub pending: Option<ActionView>,
}

impl View for Sniper {
    type V = SniperView;

    closed spec fn view(&self) -> SniperView {
        SniperView {
            files: self.file_list@,
            mode: self.mode,
            search: self.search_bar@,
            message: self.message@,
            pending: match self.pending {
                Some(a) => Some(a@),
                None => None,
            },
        }
    }
}

/// The index of the file list in the focus chain.
pub const FILE_LIST: usize = 0;

/// The index of the search bar in the focus chain.
pub const SEARCH_BAR: usize = 1;

/// The text of the message for Enter on an empty selection.
pub open spec fn no_item_selected() -> Seq<char> {
    "No item selected"@
}

/// The message text for Enter on an empty selection.
pub fn no_item_selected_text() -> (r: String)
    ensures
        r@ == no_item_selected(),
{
    "No item selected".to_owned()
}

/// The text of the message for a path that is neither file nor directory.
pub open spec fn unknown_type(p: Seq<char>) -> Seq<char> {
    "Unable to open "@ + p + " - unknown file type"@
}

/// The application-level keys: in navigation `q` quits, `r` lists the
/// current directory again and `/` starts a search; in a search Esc and
/// Enter return to navigation.
pub open spec fn handle_key_spec(mode: SniperMode, e: KeyEvent) -> Option<MessageView> {
    match mode {
        SniperMode::Navigating => match e.code {
            KeyCode::Char('q') => Some(MessageView::Quit),
            KeyCode::Char('r') => Some(MessageView::OpenDir(seq!['.'])),
            KeyCode::Char('/') => Some(MessageView::EnterMode(SniperMode::Searching)),
            _ => None,
        },
        SniperMode::Searching => match e.code {
            KeyCode::Esc | KeyCode::Enter => Some(MessageView::EnterMode(SniperMode::Navigating)),
            _ => None,
        },
        SniperMode::Quit => None,
    }
}

/// The update step of the browser.
pub open spec fn update_spec(v: SniperView, m: MessageView) -> (SniperView, Option<MessageView>) {
    match m {
        MessageView::Quit => (SniperView { mode: SniperMode::Quit, ..v }, None),
        MessageView::OpenPath(p) => (SniperView { pending: Some(ActionView::Probe(p)), ..v }, None),
        MessageView::Probed(p, kind) => (
            v,
            Some(
                match kind {
                    PathKind::Dir => MessageView::OpenDir(p),
                    PathKind::File => MessageView::OpenFile(p),
                    PathKind::Other => MessageView::Error(unknown_type(p)),
                },
            ),
        ),
        MessageView::OpenFile(p) => (SniperView { pending: Some(ActionView::Open(p)), ..v }, None),
        MessageView::OpenDir(p) => (SniperView { pending: Some(ActionView::ChangeDir(p)), ..v }, None),
        MessageView::Listed(names) => (
            SniperView {
                files: ListView {
                    elems: sort_entries(listing(names)),
                    selected: clamped_selection(v.files.selected, sort_entries(listing(names)).len()),
                    ..v.files
                },
                ..v
            },
            None,
        ),
        MessageView::Error(s) => (SniperView { message: s, ..v }, None),
        MessageView::EnterMode(mode) => (
            SniperView {
                mode,
                message: if mode == SniperMode::Navigating {
                    Seq::<char>::empty()
                } else {
                    v.message
                },
                search: if mode == SniperMode::Searching {
                    Seq::<KeyEvent>::empty()
                } else {
                    v.search
                },
                ..v
            },
            None,
        ),
    }
}

/// After a new listing arrives, the file list's selection is nothing or one
/// of the new entries.
pub proof fn lemma_listing_keeps_selection_in_bounds(v: SniperView, names: Seq<Seq<char>>)
    ensures
        crate::widgets::selection_in_bounds(update_spec(v, MessageView::Listed(names)).0.files),
{
}

/// The application-level key handler.
pub fn handle_key(model: &Sniper, key: KeyEvent) -> (r: Option<Message>)
    ensures
        match r {
            Some(m) => handle_key_spec(model@.mode, key) == Some(m@),
            None => handle_key_spec(model@.mode, key) is None,
        },
{
    match model.mode {
        SniperMode::Navigating => match key.code {
            KeyCode::Char('q') => Some(Message::Quit),
            KeyCode::Char('r') => {
                let dot = ".".to_owned();
                proof {
                    reveal_strlit(".");
                }
                assert(dot@ =~= seq!['.']);
                Some(Message::OpenDir(dot))
            },
            KeyCode::Char('/') => Some(Message::EnterMode(SniperMode::Searching)),
            _ => None,
        },
        SniperMode::Searching => match key.code {
            KeyCode::Esc | KeyCode::Enter => Some(Message::EnterMode(SniperMode::Navigating)),
            _ => None,
        },
        SniperMode::Quit => None,
    }
}

/// Folds `msg` into the model; returns the follow-up message, if any.
pub fn update(model: &mut Sniper, msg: Message) -> (r: Option<Message>)
    ensures
        (final(model)@, match r {
            Some(m) => Some(m@),
            None => None,
        }) == update_spec(old(model)@, msg@),
{
    match msg {
        Message::Quit => {
            model.mode = SniperMode::Quit;
            None
        },
        Message::OpenPath(path) => {
            model.pending = Some(Action::Probe(path));
            None
        },
        Message::Probed(path, kind) => match kind {
            PathKind::Dir => Some(Message::OpenDir(path)),
            PathKind::File => Some(Message::OpenFile(path)),
            PathKind::Other => {
                let mut text = "Unable to open ".to_owned();
                text.append(path.as_str());
                text.append(" - unknown file type");
                Some(Message::Error(text))
            },
        },
        Message::OpenFile(path) => {
            model.pending = Some(Action::Open(path));
            None
        },
        Message::OpenDir(path) => {
            model.pending = Some(Action::ChangeDir(path));
            None
        },
        Message::Listed(names) => {
            let paths = get_files(names);
            let entries = get_file_entries(&paths);
            model.file_list.set_elems(entries);
            None
        },
        Message::Error(text) => {
            model.message = text;
            None
        },
        Message::EnterMode(mode) => {
            model.mode = mode;
            match mode {
                SniperMode::Navigating => {
                    model.message = String::new();
                },
                SniperMode::Searching => {
                    model.search_bar.clear();
                },
                SniperMode::Quit => {},
            }
            None
        },
    }
}

impl Sniper {
    /// A browser that lists `path` once the caller has performed the
    /// pending `ChangeDir` action.
    pub fn new(path: String) -> (r: Sniper)
        ensures
            r@ == (SniperView {
                files: ListView {
                    elems: Seq::<Seq<char>>::empty(),
                    title: "Files"@,
                    selected: None,
                    selectable: true,
                },
                mode: SniperMode::Navigating,
                search: Seq::<KeyEvent>::empty(),
                message: Seq::<char>::empty(),
                pending: Some(ActionView::ChangeDir(path@)),
            }),
    {
        let mut file_list = List::new(Vec::new(), "Files".to_owned());
        file_list.on_select();
        let mut model = Sniper {
            file_list,
            mode: SniperMode::Navigating,
            search_bar: SearchBar::new(),
            message: String::new(),
            pending: None,
        };
        let _ = update(&mut model, Message::OpenDir(path));
        assert(model@.files.elems =~= Seq::<Seq<char>>::empty());
        model
    }

    /// Takes the pending work on the file system, if any.
    pub fn take_action(&mut self) -> (r: Option<Action>)
        ensures
            match r {
                Some(a) => old(self)@.pending == Some(a@),
                None => old(self)@.pending is None,
            },
            final(self)@ == (SniperView { pending: None, ..old(self)@ }),
    {
        self.pending.take()
    }

    /// Whether the browser is still running.
    pub fn is_running(&self) -> (r: bool)
        ensures
            r == (self@.mode != SniperMode::Quit),
    {
        match self.mode {
            SniperMode::Quit => false,
            _ => true,
        }
    }
}

impl App<Message> for Sniper {
    open spec fn running_spec(v: SniperView) -> bool {
        v.mode != SniperMode::Quit
    }

    open spec fn chain_spec(v: SniperView) -> Seq<usize> {
        match v.mode {
            SniperMode::Navigating => seq![FILE_LIST],
            SniperMode::Searching => seq![SEARCH_BAR],
            SniperMode::Quit => Seq::<usize>::empty(),
        }
    }

    open spec fn offer_spec(v: SniperView, id: usize, e: KeyEvent) -> (SniperView, Option<EventOrMessage<MessageView>>) {
        if id == FILE_LIST {
            let (files, o) = <List<FileEntry> as Widget<Message>>::key_spec(v.files, e);
            (SniperView { files, ..v }, o)
        } else if id == SEARCH_BAR {
            let (search, o) = <SearchBar as Widget<Message>>::key_spec(v.search, e);
            (SniperView { search, ..v }, o)
        } else {
            (v, Some(EventOrMessage::Event(e)))
        }
    }

    open spec fn fallback_spec(v: SniperView, e: KeyEvent) -> Option<MessageView> {
        handle_key_spec(v.mode, e)
    }

    open spec fn update_spec(v: SniperView, m: MessageView) -> (SniperView, Result<Option<MessageView>, Seq<char>>) {
        let (w, n) = update_spec(v, m);
        (w, Ok(n))
    }

    open spec fn err_spec(s: Seq<char>) -> MessageView {
        MessageView::Error(s)
    }

    fn is_running(&self) -> (r: bool) {
        Sniper::is_running(self)
    }

    /// The file list while navigating, the search bar while searching.
    fn focused_widgets(&self) -> (r: Vec<usize>) {
        match self.mode {
            SniperMode::Navigating => vec![FILE_LIST],
            SniperMode::Searching => vec![SEARCH_BAR],
            SniperMode::Quit => Vec::new(),
        }
    }

    fn offer_key(&mut self, id: usize, e: KeyEvent) -> (r: Option<EventOrMessage<Message>>) {
        if id == FILE_LIST {
            self.file_list.handle_key(e)
        } else if id == SEARCH_BAR {
            self.search_bar.handle_key(e)
        } else {
            Some(EventOrMessage::Event(e))
        }
    }

    fn handle_key(&self, e: KeyEvent) -> (r: Option<Message>) {
        handle_key(self, e)
    }

    fn update(&mut self, m: Message) -> (r: Result<Option<Message>, String>) {
        Ok(update(self, m))
    }

    fn on_err(s: String) -> (r: Message) {
        Message::Error(s)
    }
}

} // verus!
