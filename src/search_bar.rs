//! The search bar: a text-entry component that takes every key but Esc and
//! Enter, which it passes on.

use vstd::prelude::*;

use crate::keys::{KeyCode, KeyEvent};
use crate::sniper::{Message, MessageView};
use crate::widgets::{EventOrMessage, Widget};

verus! {

/// The keys typed into the search bar since it was last cleared. The text
/// they edit is what a line editor makes of them in turn.
pub struct SearchBar {
    typed: Vec<KeyEvent>,
}

impl View for SearchBar {
    type V = Seq<KeyEvent>;

    closed spec fn view(&self) -> Seq<KeyEvent> {
        self.typed@
    }
}

impl SearchBar {
    /// An empty search bar.
    pub fn new() -> (r: SearchBar)
        ensures
            r@ == Seq::<KeyEvent>::empty(),
    {
        SearchBar { typed: Vec::new() }
    }

    /// Empties the search bar.
    pub fn clear(&mut self)
        ensures
            final(self)@ == Seq::<KeyEvent>::empty(),
    {
        self.typed = Vec::new();
    }

    /// The keys typed since the bar was last cleared, in order.
    pub fn typed(&self) -> (r: &Vec<KeyEvent>)
        ensures
            r@ == self@,
    {
        &self.typed
    }
}

impl Widget<Message> for SearchBar {
    /// Esc and Enter pass on; every other key is typed into the bar.
    open spec fn key_spec(v: Seq<KeyEvent>, e: KeyEvent) -> (Seq<KeyEvent>, Option<EventOrMessage<MessageView>>) {
        if e.code == KeyCode::Esc || e.code == KeyCode::Enter {
            (v, Some(EventOrMessage::Event(e)))
        } else {
            (v.push(e), None)
        }
    }

    fn handle_key(&mut self, e: KeyEvent) -> (r: Option<EventOrMessage<Message>>) {
        match e.code {
            KeyCode::Esc | KeyCode::Enter => Some(EventOrMessage::Event(e)),
            _ => {
                self.typed.push(e);
                None
            },
        }
    }
}

} // verus!
