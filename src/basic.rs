//! The smallest application on the runtime: a model that runs until it
//! receives `Quit`, with a list of file names and no components.

use vstd::prelude::*;

use crate::keys::KeyEvent;
use crate::runtime::App;
use crate::widgets::EventOrMessage;

verus! {

/// Whether the application runs.
#[derive(Clone, Copy, Debug, Default, PartialEq, Eq, Structural)]
pub enum RunningState {
    #[default]
    Running,
    Done,
}

/// File names and the index of the selected one.
#[derive(Debug, Default)]
pub struct FileList {
    pub files: Vec<String>,
    pub selected: Option<usize>,
}

/// The application's model.
#[derive(Debug, Default)]
pub struct Model {
    pub running_state: RunningState,
    pub file_list: FileList,
}

#[derive(Clone, Copy, Debug, PartialEq, Eq, Structural)]
pub enum Message {
    Quit,
}

impl View for Message {
    type V = Message;

    open spec fn view(&self) -> Message {
        *self
    }
}

/// The abstract state of the model.
pub struct ModelView {
    pub running_state: RunningState,
    pub files: Seq<Seq<char>>,
    pub selected: Option<usize>,
}

impl View for Model {
    type V = ModelView;

    open spec fn view(&self) -> ModelView {
        ModelView {
            running_state: self.running_state,
            files: self.file_list.files.deep_view(),
            selected: self.file_list.selected,
        }
    }
}

/// No key means anything to this application yet.
pub fn handle_key(key: KeyEvent) -> (r: Option<Message>)
    ensures
        r is None,
{
    None
}

/// Folds `msg` into the model: `Quit` stops the application.
pub fn update(model: &mut Model, msg: Message) -> (r: Option<Message>)
    ensures
        r is None,
        msg == Message::Quit ==> final(model)@ == (ModelView { running_state: RunningState::Done, ..old(model)@ }),
{
    match msg {
        Message::Quit => {
            model.running_state = RunningState::Done;
        },
    }
    None
}

impl App<Message> for Model {
    open spec fn running_spec(v: ModelView) -> bool {
        v.running_state != RunningState::Done
    }

    open spec fn chain_spec(v: ModelView) -> Seq<usize> {
        Seq::<usize>::empty()
    }

    open spec fn offer_spec(v: ModelView, id: usize, e: KeyEvent) -> (ModelView, Option<EventOrMessage<Message>>) {
        (v, Some(EventOrMessage::Event(e)))
    }

    open spec fn fallback_spec(v: ModelView, e: KeyEvent) -> Option<Message> {
        None
    }

    open spec fn update_spec(v: ModelView, m: Message) -> (ModelView, Result<Option<Message>, Seq<char>>) {
        (ModelView { running_state: RunningState::Done, ..v }, Ok(None))
    }

    open spec fn err_spec(s: Seq<char>) -> Message {
        Message::Quit
    }

    fn is_running(&self) -> (r: bool) {
        match self.running_state {
            RunningState::Running => true,
            RunningState::Done => false,
        }
    }

    /// No components: every key goes to the application-level handler.
    fn focused_widgets(&self) -> (r: Vec<usize>) {
        Vec::new()
    }

    fn offer_key(&mut self, id: usize, e: KeyEvent) -> (r: Option<EventOrMessage<Message>>) {
        Some(EventOrMessage::Event(e))
    }

    fn handle_key(&self, e: KeyEvent) -> (r: Option<Message>) {
        handle_key(e)
    }

    fn update(&mut self, m: Message) -> (r: Result<Option<Message>, String>) {
        Ok(update(self, m))
    }

    /// This application has no error message: a failure stops it.
    fn on_err(s: String) -> (r: Message) {
        Message::Quit
    }
}

} // verus!
