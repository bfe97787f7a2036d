//! The runtime: the focus-chain protocol that routes a key press, the update
//! chain that folds messages into the model, and replay of recorded key
//! presses. Terminal I/O and rendering stay with the caller, which hands key
//! events in and reads the model out.

use vstd::prelude::*;

use crate::keys::KeyEvent;
use crate::widgets::{outcome_view, EventOrMessage};

verus! {

/// An optional message seen through its view.
pub open spec fn opt_view<M: View>(m: Option<M>) -> Option<M::V> {
    match m {
        Some(x) => Some(x@),
        None => None,
    }
}

/// The result of an update seen through views.
pub open spec fn update_view<M: View>(r: Result<Option<M>, String>) -> Result<Option<M::V>, Seq<char>> {
    match r {
        Ok(m) => Ok(opt_view(m)),
        Err(s) => Err(s@),
    }
}

/// An application built on the runtime.
///
/// Each operation is a function of the model's view and its arguments,
/// given by the `*_spec` functions; this is what makes a recorded session
/// replay to the same model.
pub trait App<M: View>: View + Sized {
    /// Whether the application is still running.
    spec fn running_spec(v: Self::V) -> bool;

    /// The components that may receive a key, most specific first.
    spec fn chain_spec(v: Self::V) -> Seq<usize>;

    /// Offering a key to the component `id` of the focus chain.
    spec fn offer_spec(v: Self::V, id: usize, e: KeyEvent) -> (Self::V, Option<EventOrMessage<M::V>>);

    /// The application-level handler, consulted when no component claimed a key.
    spec fn fallback_spec(v: Self::V, e: KeyEvent) -> Option<M::V>;

    /// The update step: the new model and a follow-up message, or a failure.
    spec fn update_spec(v: Self::V, m: M::V) -> (Self::V, Result<Option<M::V>, Seq<char>>);

    /// The message that reports a failure of the update step.
    spec fn err_spec(s: Seq<char>) -> M::V;

    fn is_running(&self) -> (r: bool)
        ensures
            r == Self::running_spec(self@),
    ;

    fn focused_widgets(&self) -> (r: Vec<usize>)
        ensures
            r@ == Self::chain_spec(self@),
    ;

    /// Offering a key never stops the application: only the update step can.
    fn offer_key(&mut self, id: usize, e: KeyEvent) -> (r: Option<EventOrMessage<M>>)
        ensures
            (final(self)@, outcome_view(r)) == Self::offer_spec(old(self)@, id, e),
            Self::running_spec(final(self)@) == Self::running_spec(old(self)@),
    ;

    fn handle_key(&self, e: KeyEvent) -> (r: Option<M>)
        ensures
            opt_view(r) == Self::fallback_spec(self@, e),
    ;

    fn update(&mut self, m: M) -> (r: Result<Option<M>, String>)
        ensures
            (final(self)@, update_view(r)) == Self::update_spec(old(self)@, m@),
    ;

    fn on_err(s: String) -> (r: M)
        ensures
            r@ == Self::err_spec(s@),
    ;
}

/// Routing `e` through the rest of a focus chain: each component in order
/// may consume the event, pass it on, or claim it as a message. A component
/// that passes it on leaves the event as it was for the next one; when it is
/// passed past the end, the application-level handler decides.
pub open spec fn dispatch<M: View, A: App<M>>(v: A::V, chain: Seq<usize>, e: KeyEvent) -> (
    A::V,
    Option<M::V>,
)
    decreases chain.len(),
{
    if chain.len() == 0 {
        (v, A::fallback_spec(v, e))
    } else {
        let (v1, o) = A::offer_spec(v, chain[0], e);
        match o {
            None => (v1, None),
            Some(EventOrMessage::Message(m)) => (v1, Some(m)),
            Some(EventOrMessage::Event(_)) => dispatch::<M, A>(v1, chain.drop_first(), e),
        }
    }
}

/// Offering `e` to each component of `prefix` in turn while each passes it
/// on: the model they leave, or `None` when one of them consumed or claimed
/// it.
pub open spec fn pass_through<M: View, A: App<M>>(v: A::V, prefix: Seq<usize>, e: KeyEvent) -> Option<A::V>
    decreases prefix.len(),
{
    if prefix.len() == 0 {
        Some(v)
    } else {
        let (v1, o) = A::offer_spec(v, prefix[0], e);
        match o {
            Some(EventOrMessage::Event(_)) => pass_through::<M, A>(v1, prefix.drop_first(), e),
            _ => None,
        }
    }
}

/// Components that pass a key on hand the rest of the chain the model they
/// leave and the key as it was.
pub proof fn lemma_dispatch_after_prefix<M: View, A: App<M>>(
    v: A::V,
    prefix: Seq<usize>,
    rest: Seq<usize>,
    e: KeyEvent,
)
    requires
        pass_through::<M, A>(v, prefix, e) is Some,
    ensures
        dispatch::<M, A>(v, prefix + rest, e) == dispatch::<M, A>(
            pass_through::<M, A>(v, prefix, e)->Some_0,
            rest,
            e,
        ),
    decreases prefix.len(),
{
    if prefix.len() == 0 {
        assert(prefix + rest =~= rest);
    } else {
        let (v1, o) = A::offer_spec(v, prefix[0], e);
        assert((prefix + rest).drop_first() =~= prefix.drop_first() + rest);
        lemma_dispatch_after_prefix::<M, A>(v1, prefix.drop_first(), rest, e);
    }
}

/// A key that a component consumes yields no message, and neither the
/// components after it nor the application-level handler have any say:
/// whatever follows in the chain, the outcome is the same.
pub proof fn lemma_consumed_key_stops<M: View, A: App<M>>(
    v: A::V,
    prefix: Seq<usize>,
    id: usize,
    rest1: Seq<usize>,
    rest2: Seq<usize>,
    e: KeyEvent,
)
    requires
        pass_through::<M, A>(v, prefix, e) is Some,
        A::offer_spec(pass_through::<M, A>(v, prefix, e)->Some_0, id, e).1 is None,
    ensures
        dispatch::<M, A>(v, prefix + seq![id] + rest1, e) == (
            A::offer_spec(pass_through::<M, A>(v, prefix, e)->Some_0, id, e).0,
            None::<M::V>,
        ),
        dispatch::<M, A>(v, prefix + seq![id] + rest1, e) == dispatch::<M, A>(v, prefix + seq![id] + rest2, e),
{
    assert(prefix + seq![id] + rest1 =~= prefix + (seq![id] + rest1));
    assert(prefix + seq![id] + rest2 =~= prefix + (seq![id] + rest2));
    lemma_dispatch_after_prefix::<M, A>(v, prefix, seq![id] + rest1, e);
    lemma_dispatch_after_prefix::<M, A>(v, prefix, seq![id] + rest2, e);
    assert((seq![id] + rest1)[0] == id);
    assert((seq![id] + rest2)[0] == id);
}

/// A key that a component claims as a message yields that message, and
/// neither the components after it nor the application-level handler are
/// consulted: whatever follows in the chain, the outcome is the same.
pub proof fn lemma_claimed_key_stops<M: View, A: App<M>>(
    v: A::V,
    prefix: Seq<usize>,
    id: usize,
    rest1: Seq<usize>,
    rest2: Seq<usize>,
    e: KeyEvent,
)
    requires
        pass_through::<M, A>(v, prefix, e) is Some,
        A::offer_spec(pass_through::<M, A>(v, prefix, e)->Some_0, id, e).1 matches Some(
            EventOrMessage::Message(_),
        ),
    ensures
        ({
            let (v2, o) = A::offer_spec(pass_through::<M, A>(v, prefix, e)->Some_0, id, e);
            dispatch::<M, A>(v, prefix + seq![id] + rest1, e) == (v2, Some(o->Some_0->Message_0))
        }),
        dispatch::<M, A>(v, prefix + seq![id] + rest1, e) == dispatch::<M, A>(v, prefix + seq![id] + rest2, e),
{
    assert(prefix + seq![id] + rest1 =~= prefix + (seq![id] + rest1));
    assert(prefix + seq![id] + rest2 =~= prefix + (seq![id] + rest2));
    lemma_dispatch_after_prefix::<M, A>(v, prefix, seq![id] + rest1, e);
    lemma_dispatch_after_prefix::<M, A>(v, prefix, seq![id] + rest2, e);
    assert((seq![id] + rest1)[0] == id);
    assert((seq![id] + rest2)[0] == id);
}

/// Handling a key event: only presses reach the focus chain, which is
/// computed from the model when the event arrives.
pub open spec fn key_event_spec<M: View, A: App<M>>(v: A::V, e: KeyEvent) -> (A::V, Option<M::V>) {
    if e.kind == crate::keys::KeyEventKind::Press {
        dispatch::<M, A>(v, A::chain_spec(v), e)
    } else {
        (v, None)
    }
}

/// The update chain: updates run while they yield messages, a failure
/// becoming the application's error message, for at most `fuel` updates.
/// Also gives the message still pending when the fuel ran out.
pub open spec fn settle_spec<M: View, A: App<M>>(v: A::V, m: Option<M::V>, fuel: nat) -> (
    A::V,
    Option<M::V>,
)
    decreases fuel,
{
    match m {
        None => (v, None),
        Some(msg) => if fuel == 0 {
            (v, m)
        } else {
            let (v1, r) = A::update_spec(v, msg);
            let next = match r {
                Ok(n) => n,
                Err(s) => Some(A::err_spec(s)),
            };
            settle_spec::<M, A>(v1, next, (fuel - 1) as nat)
        },
    }
}

/// One key event processed while the application runs: routed, then the
/// update chain. A stopped application ignores events.
pub open spec fn step_spec<M: View, A: App<M>>(v: A::V, e: KeyEvent, fuel: nat) -> A::V {
    if A::running_spec(v) {
        let (v1, m) = key_event_spec::<M, A>(v, e);
        settle_spec::<M, A>(v1, m, fuel).0
    } else {
        v
    }
}

/// The model after a sequence of key events, in order.
pub open spec fn replay_spec<M: View, A: App<M>>(v: A::V, log: Seq<KeyEvent>, fuel: nat) -> A::V
    decreases log.len(),
{
    if log.len() == 0 {
        v
    } else {
        step_spec::<M, A>(replay_spec::<M, A>(v, log.drop_last(), fuel), log.last(), fuel)
    }
}

/// Routes the key event `key` through the application's focus chain, most
/// specific component first, then to the application-level handler. Events
/// other than presses are dropped.
pub fn handle_key_event<M: View, A: App<M>>(app: &mut A, key: KeyEvent) -> (r: Option<M>)
    ensures
        (final(app)@, opt_view(r)) == key_event_spec::<M, A>(old(app)@, key),
{
    if !key.is_press() {
        return None;
    }
    let chain = app.focused_widgets();
    let mut i: usize = 0;
    assert(chain@.subrange(0, chain@.len() as int) =~= chain@);
    while i < chain.len()
        invariant
            0 <= i <= chain@.len(),
            chain@ == A::chain_spec(old(app)@),
            key_event_spec::<M, A>(old(app)@, key) == dispatch::<M, A>(
                app@,
                chain@.subrange(i as int, chain@.len() as int),
                key,
            ),
        decreases chain.len() - i,
    {
        let ghost rest = chain@.subrange(i as int, chain@.len() as int);
        assert(rest.drop_first() =~= chain@.subrange(i + 1, chain@.len() as int));
        match app.offer_key(chain[i], key) {
            None => {
                return None;
            },
            Some(EventOrMessage::Message(m)) => {
                return Some(m);
            },
            Some(EventOrMessage::Event(_)) => {},
        }
        i = i + 1;
    }
    app.handle_key(key)
}

/// Runs the update chain from `first`: each message is handed to the update
/// step, a failure becomes the application's error message, and the loop
/// goes on while messages come, for at most `fuel` updates. Returns the
/// message still pending when the fuel ran out, `None` once the chain has
/// come to rest.
pub fn settle<M: View, A: App<M>>(app: &mut A, first: Option<M>, fuel: usize) -> (r: Option<M>)
    ensures
        (final(app)@, opt_view(r)) == settle_spec::<M, A>(old(app)@, opt_view(first), fuel as nat),
{
    let mut current = first;
    let mut left = fuel;
    while left > 0
        invariant
            settle_spec::<M, A>(old(app)@, opt_view(first), fuel as nat) == settle_spec::<M, A>(
                app@,
                opt_view(current),
                left as nat,
            ),
        decreases left,
    {
        match current {
            None => {
                return None;
            },
            Some(msg) => {
                let next = match app.update(msg) {
                    Ok(n) => n,
                    Err(s) => Some(A::on_err(s)),
                };
                current = next;
            },
        }
        left = left - 1;
    }
    current
}

/// Processes one key event of a running application: routes it, then runs
/// the update chain it starts. A stopped application is left as it is.
/// Returns the message still pending when the fuel ran out.
pub fn process_key<M: View, A: App<M>>(app: &mut A, key: KeyEvent, fuel: usize) -> (r: Option<M>)
    ensures
        final(app)@ == step_spec::<M, A>(old(app)@, key, fuel as nat),
        opt_view(r) == (if A::running_spec(old(app)@) {
            let (v1, m) = key_event_spec::<M, A>(old(app)@, key);
            settle_spec::<M, A>(v1, m, fuel as nat).1
        } else {
            None
        }),
{
    if app.is_running() {
        let m = handle_key_event(app, key);
        settle(app, m, fuel)
    } else {
        None
    }
}

/// Replays recorded key events in order against `app`.
pub fn replay<M: View, A: App<M>>(app: &mut A, log: &Vec<KeyEvent>, fuel: usize)
    ensures
        final(app)@ == replay_spec::<M, A>(old(app)@, log@, fuel as nat),
{
    let mut i: usize = 0;
    while i < log.len()
        invariant
            0 <= i <= log@.len(),
            app@ == replay_spec::<M, A>(old(app)@, log@.subrange(0, i as int), fuel as nat),
        decreases log.len() - i,
    {
        let ghost before = log@.subrange(0, i as int);
        let _ = process_key(app, log[i], fuel);
        assert(log@.subrange(0, i + 1).drop_last() =~= before);
        i = i + 1;
    }
    assert(log@.subrange(0, log@.len() as int) =~= log@);
}

} // verus!
