//! Components: units that render and get offered key events, and a
//! selectable list, the reference component.

use vstd::prelude::*;

use crate::keys::{KeyCode, KeyEvent};

verus! {

/// What a component hands back when it does not consume a key outright: the
/// (possibly changed) event for the next component, or a message for the
/// application.
#[derive(Debug, PartialEq, Eq)]
pub enum EventOrMessage<M> {
    Event(KeyEvent),
    Message(M),
}

/// The outcome of offering a key, with the message seen through its view.
pub open spec fn outcome_view<M: View>(r: Option<EventOrMessage<M>>) -> Option<EventOrMessage<M::V>> {
    match r {
        None => None,
        Some(EventOrMessage::Event(e)) => Some(EventOrMessage::Event(e)),
        Some(EventOrMessage::Message(m)) => Some(EventOrMessage::Message(m@)),
    }
}

/// A component that can be offered key events.
///
/// `None` means the event was consumed; `Some(Event(e))` passes `e` on to the
/// next component; `Some(Message(m))` turns the event into a message. What a
/// component does is a function of its state and the event, `key_spec`.
pub trait Widget<M: View>: View + Sized {
    /// The state after the event and the outcome.
    spec fn key_spec(v: Self::V, e: KeyEvent) -> (Self::V, Option<EventOrMessage<M::V>>);

    /// Offers the key event `e`.
    fn handle_key(&mut self, e: KeyEvent) -> (r: Option<EventOrMessage<M>>)
        ensures
            (final(self)@, outcome_view(r)) == Self::key_spec(old(self)@, e),
    ;
}

/// An element of a list that can be chosen with Enter.
pub trait Selectable<M: View>: View + Sized {
    /// The message that choosing an element with this view yields.
    spec fn select_spec(v: Self::V) -> M::V;

    /// The message that Enter yields when nothing is selected.
    spec fn none_selected_spec() -> M::V;

    fn selected_message(&self) -> (r: M)
        ensures
            r@ == Self::select_spec(self@),
    ;

    fn nothing_selected() -> (r: M)
        ensures
            r@ == Self::none_selected_spec(),
    ;
}

/// A list that scrolls with Up and Down and, once `on_select` has been
/// called, chooses its selected element with Enter.
pub struct List<Elem> {
    /// The elements displayed.
    pub elems: Vec<Elem>,
    /// A title shown at the top of the list.
    pub title: String,
    selected: Option<usize>,
    selectable: bool,
}

/// The abstract state of a `List`.
pub struct ListView<V> {
    pub elems: Seq<V>,
    pub title: Seq<char>,
    pub selected: Option<usize>,
    pub selectable: bool,
}

impl<Elem: View> View for List<Elem> {
    type V = ListView<Elem::V>;

    closed spec fn view(&self) -> ListView<Elem::V> {
        ListView {
            elems: self.elems@.map_values(|x: Elem| x@),
            title: self.title@,
            selected: self.selected,
            selectable: self.selectable,
        }
    }
}

/// `x` held within the indices of a list of `len > 0` elements.
pub open spec fn clamp_index(x: int, len: int) -> int {
    if x < 0 {
        0
    } else if x > len - 1 {
        len - 1
    } else {
        x
    }
}

/// A selection held within a list of `len` elements: an index past the end
/// becomes the last index, and nothing is selected in an empty list.
pub open spec fn clamped_selection(sel: Option<usize>, len: nat) -> Option<usize> {
    match sel {
        None => None,
        Some(i) => if len == 0 {
            None
        } else if i >= len {
            Some((len - 1) as usize)
        } else {
            Some(i)
        },
    }
}

/// The selection after Up (`up`) or Down in a list of `len` elements: none
/// in an empty list; the first element when nothing was selected; otherwise
/// one step, held within the list.
pub open spec fn moved_selection(sel: Option<usize>, len: nat, up: bool) -> Option<usize> {
    if len == 0 {
        None
    } else {
        match sel {
            None => Some(0usize),
            Some(i) => Some(
                (if up {
                    clamp_index(i - 1, len as int)
                } else {
                    clamp_index(i + 1, len as int)
                }) as usize,
            ),
        }
    }
}

/// The list's own handling of a key, once its selected element has passed
/// the key on.
pub open spec fn list_rules<M: View, Elem: Selectable<M>>(
    v: ListView<Elem::V>,
    e: KeyEvent,
) -> (ListView<Elem::V>, Option<EventOrMessage<M::V>>) {
    match e.code {
        KeyCode::Up => (ListView { selected: moved_selection(v.selected, v.elems.len(), true), ..v }, None),
        KeyCode::Down => (ListView { selected: moved_selection(v.selected, v.elems.len(), false), ..v }, None),
        KeyCode::Enter => if !v.selectable {
            (v, None)
        } else {
            match v.selected {
                Some(i) if i < v.elems.len() => (
                    v,
                    Some(EventOrMessage::Message(Elem::select_spec(v.elems[i as int]))),
                ),
                _ => (v, Some(EventOrMessage::Message(Elem::none_selected_spec()))),
            }
        },
        _ => (v, Some(EventOrMessage::Event(e))),
    }
}

impl<Elem: View> List<Elem> {
    /// A list of `elems` under `title`, with nothing selected and no
    /// choosing with Enter.
    pub fn new(elems: Vec<Elem>, title: String) -> (r: List<Elem>)
        ensures
            r@ == (ListView {
                elems: elems@.map_values(|x: Elem| x@),
                title: title@,
                selected: None,
                selectable: false,
            }),
    {
        List { elems, title, selected: None, selectable: false }
    }

    /// Lets Enter choose the selected element.
    pub fn on_select(&mut self)
        ensures
            final(self)@ == (ListView { selectable: true, ..old(self)@ }),
    {
        self.selectable = true;
    }

    /// The index of the selected element, if any.
    pub fn selected(&self) -> (r: Option<usize>)
        ensures
            r == self@.selected,
    {
        self.selected
    }

    /// Replaces the elements; a selection past the end of the new elements
    /// moves to the last of them, or to nothing when there are none.
    pub fn set_elems(&mut self, elems: Vec<Elem>)
        ensures
            final(self)@ == (ListView {
                elems: elems@.map_values(|x: Elem| x@),
                selected: clamped_selection(old(self)@.selected, elems@.len()),
                ..old(self)@
            }),
    {
        let len = elems.len();
        self.elems = elems;
        if let Some(i) = self.selected {
            if len == 0 {
                self.selected = None;
            } else if i >= len {
                self.selected = Some(len - 1);
            }
        }
    }

    fn move_selection(&mut self, up: bool)
        ensures
            final(self)@ == (ListView {
                selected: moved_selection(old(self)@.selected, old(self)@.elems.len(), up),
                ..old(self)@
            }),
    {
        let len = self.elems.len();
        if len == 0 {
            self.selected = None;
        } else {
            match self.selected {
                None => {
                    self.selected = Some(0);
                },
                Some(i) => {
                    let next: usize = if up {
                        if i == 0 {
                            0
                        } else if i - 1 > len - 1 {
                            len - 1
                        } else {
                            i - 1
                        }
                    } else {
                        if i >= len - 1 {
                            len - 1
                        } else {
                            i + 1
                        }
                    };
                    self.selected = Some(next);
                },
            }
        }
    }

    fn apply_rules<M: View>(&mut self, e: KeyEvent) -> (r: Option<EventOrMessage<M>>) where
        Elem: Selectable<M>,
        ensures
            (final(self)@, outcome_view(r)) == list_rules::<M, Elem>(old(self)@, e),
    {
        match e.code {
            KeyCode::Up => {
                self.move_selection(true);
                None
            },
            KeyCode::Down => {
                self.move_selection(false);
                None
            },
            KeyCode::Enter => {
                if !self.selectable {
                    None
                } else {
                    match self.selected {
                        Some(i) => {
                            if i < self.elems.len() {
                                Some(EventOrMessage::Message(self.elems[i].selected_message()))
                            } else {
                                Some(EventOrMessage::Message(Elem::nothing_selected()))
                            }
                        },
                        None => Some(EventOrMessage::Message(Elem::nothing_selected())),
                    }
                }
            },
            _ => Some(EventOrMessage::Event(e)),
        }
    }
}

impl<M: View, Elem: Widget<M> + Selectable<M>> Widget<M> for List<Elem> {
    /// The selected element is offered the key first; if it passes the key
    /// on as it was, the list applies its own rules to it. An element that
    /// consumes, claims or changes the key decides the outcome.
    open spec fn key_spec(v: ListView<Elem::V>, e: KeyEvent) -> (
        ListView<Elem::V>,
        Option<EventOrMessage<M::V>>,
    ) {
        match v.selected {
            Some(i) if i < v.elems.len() => {
                let (ev, o) = Elem::key_spec(v.elems[i as int], e);
                let v1 = ListView { elems: v.elems.update(i as int, ev), ..v };
                match o {
                    Some(EventOrMessage::Event(e2)) if e2 == e => list_rules::<M, Elem>(v1, e),
                    _ => (v1, o),
                }
            },
            _ => list_rules::<M, Elem>(v, e),
        }
    }

    fn handle_key(&mut self, e: KeyEvent) -> (r: Option<EventOrMessage<M>>) {
        if let Some(i) = self.selected {
            if i < self.elems.len() {
                let ghost before = self.elems@;
                let o = self.elems[i].handle_key(e);
                proof {
                    assert(self.elems@.map_values(|x: Elem| x@) =~= before.map_values(
                        |x: Elem| x@,
                    ).update(i as int, self.elems@[i as int]@));
                }
                match o {
                    Some(EventOrMessage::Event(e2)) => {
                        if e2 != e {
                            return Some(EventOrMessage::Event(e2));
                        }
                    },
                    _ => {
                        return o;
                    },
                }
            }
        }
        self.apply_rules(e)
    }
}

/// The state of a widget after a sequence of key events, in order.
pub open spec fn keys_spec<M: View, W: Widget<M>>(v: W::V, keys: Seq<KeyEvent>) -> W::V
    decreases keys.len(),
{
    if keys.len() == 0 {
        v
    } else {
        W::key_spec(keys_spec::<M, W>(v, keys.drop_last()), keys.last()).0
    }
}

/// The selection of a list is nothing or one of its elements.
pub open spec fn selection_in_bounds<V>(v: ListView<V>) -> bool {
    v.selected matches Some(i) ==> i < v.elems.len()
}

/// Up or Down, once it reaches a list's own rules, selects one of the
/// list's elements, and nothing in an empty list.
pub proof fn lemma_up_down_selects<M: View, Elem: Selectable<M>>(v: ListView<Elem::V>, e: KeyEvent)
    requires
        e.code == KeyCode::Up || e.code == KeyCode::Down,
    ensures
        ({
            let (w, o) = list_rules::<M, Elem>(v, e);
            &&& o is None
            &&& w.elems == v.elems
            &&& v.elems.len() > 0 ==> (w.selected matches Some(i) && i < v.elems.len())
            &&& v.elems.len() == 0 ==> w.selected is None
        }),
{
}

/// Up or Down offered to a list with elements, whose selected element (if
/// any) passes the key on untouched, selects an element within the list:
/// the first when nothing was selected, otherwise the next one up or down,
/// held within the list. The elements and title stay as they were.
pub proof fn lemma_up_down_in_list<M: View, Elem: Widget<M> + Selectable<M>>(v: ListView<Elem::V>, e: KeyEvent)
    requires
        v.elems.len() >= 1,
        e.code == KeyCode::Up || e.code == KeyCode::Down,
        v.selected is Some && v.selected->Some_0 < v.elems.len() ==> Elem::key_spec(
            v.elems[v.selected->Some_0 as int],
            e,
        ) == (v.elems[v.selected->Some_0 as int], Some(EventOrMessage::<M::V>::Event(e))),
    ensures
        ({
            let (w, o) = <List<Elem> as Widget<M>>::key_spec(v, e);
            let i = v.selected->Some_0;
            let n = v.elems.len();
            &&& o is None
            &&& w.elems == v.elems
            &&& w.title == v.title
            &&& w.selectable == v.selectable
            &&& w.selected is Some && w.selected->Some_0 < n
            &&& v.selected is None ==> w.selected == Some(0usize)
            &&& (v.selected is Some && i < n && e.code == KeyCode::Up) ==> w.selected == Some(
                (if i == 0 {
                    0
                } else {
                    i - 1
                }) as usize,
            )
            &&& (v.selected is Some && i < n && e.code == KeyCode::Down) ==> w.selected == Some(
                (if i + 1 < n {
                    i + 1
                } else {
                    n - 1
                }) as usize,
            )
        }),
{
    if let Some(i) = v.selected {
        if i < v.elems.len() {
            assert(v.elems.update(i as int, v.elems[i as int]) =~= v.elems);
        }
    }
}

/// Replacing a list's elements leaves its selection nothing or one of the
/// new elements.
pub proof fn lemma_replaced_selection_in_bounds<V>(v: ListView<V>, elems: Seq<V>)
    ensures
        selection_in_bounds(ListView { elems, selected: clamped_selection(v.selected, elems.len()), ..v }),
{
}

/// Whatever keys a list is offered, its selection stays nothing or one of
/// its elements, and its length does not change.
pub proof fn lemma_selection_stays_in_bounds<M: View, Elem: Widget<M> + Selectable<M>>(
    v: ListView<Elem::V>,
    keys: Seq<KeyEvent>,
)
    requires
        selection_in_bounds(v),
    ensures
        keys_spec::<M, List<Elem>>(v, keys).elems.len() == v.elems.len(),
        selection_in_bounds(keys_spec::<M, List<Elem>>(v, keys)),
    decreases keys.len(),
{
    if keys.len() > 0 {
        lemma_selection_stays_in_bounds::<M, Elem>(v, keys.drop_last());
    }
}

/// In an empty list Up and Down select nothing, and Enter, when choosing is
/// enabled, yields the message for an empty selection.
pub proof fn lemma_empty_list<M: View, Elem: Widget<M> + Selectable<M>>(v: ListView<Elem::V>, e: KeyEvent)
    requires
        v.elems.len() == 0,
    ensures
        (e.code == KeyCode::Up || e.code == KeyCode::Down) ==> <List<Elem> as Widget<M>>::key_spec(v, e) == (
            ListView { selected: None, ..v }, None::<EventOrMessage<M::V>>),
        e.code == KeyCode::Enter && v.selectable ==> <List<Elem> as Widget<M>>::key_spec(v, e) == (
            v, Some(EventOrMessage::<M::V>::Message(Elem::none_selected_spec()))),
{
}

} // verus!
