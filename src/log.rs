//! Recording of the key events of a session, and their persisted form: each
//! event becomes a record of four numbers (key, key payload, modifiers,
//! kind), and the records are written as JSON.

use vstd::prelude::*;

use crate::keys::{KeyCode, KeyEvent, KeyEventKind};
use crate::runtime::{process_key, replay_spec, App};

verus! {

#[verifier::external_type_specification]
#[verifier::external_body]
pub struct ExJsonError(serde_json::Error);

/// The JSON text that serde_json writes for the records.
pub uninterp spec fn json_text(rows: Seq<Seq<u64>>) -> Seq<char>;

/// The records that serde_json reads from a text, if it holds a JSON array
/// of arrays of unsigned integers.
pub uninterp spec fn json_rows(text: Seq<char>) -> Option<Seq<Seq<u64>>>;

/// Relies on serde_json::to_string: the JSON text of the records, a function
/// of the records alone. Writing integers into a byte buffer cannot fail, so
/// neither can the call.
#[verifier::external_body]
fn rows_to_json(rows: &Vec<Vec<u64>>) -> (r: Result<String, serde_json::Error>)
    ensures
        r is Ok,
        r matches Ok(s) ==> s@ == json_text(rows.deep_view()),
{
    serde_json::to_string(rows)
}

/// Relies on serde_json::from_str: reads a JSON array of arrays of unsigned
/// integers, and fails on any other text; the text serde_json::to_string
/// writes for such records reads back as those records.
#[verifier::external_body]
fn rows_from_json(text: &str) -> (r: Result<Vec<Vec<u64>>, serde_json::Error>)
    ensures
        r is Ok <==> json_rows(text@) is Some,
        r matches Ok(v) ==> json_rows(text@) == Some(v.deep_view()),
        r is Ok || forall|rows: Seq<Seq<u64>>| #[trigger] json_text(rows) != text@,
        r matches Ok(v) ==> forall|rows: Seq<Seq<u64>>| #[trigger] json_text(rows) == text@ ==> v.deep_view() == rows,
{
    serde_json::from_str(text)
}

/// The scalar value of a character.
pub open spec fn scalar(c: char) -> u32 {
    c as u32
}

/// Characters with the same scalar value are the same character.
pub proof fn lemma_scalar_injective(c: char, d: char)
    requires
        scalar(c) == scalar(d),
    ensures
        c == d,
{
    assert(c as u32 == d as u32);
    assert(c as int == d as int);
}

/// The character with the given scalar value, if there is one.
pub open spec fn char_of(u: u32) -> Option<char> {
    if exists|c: char| #[trigger] scalar(c) == u {
        Some(choose|c: char| #[trigger] scalar(c) == u)
    } else {
        None
    }
}

/// Relies on char::from_u32: the character with that scalar value, `None`
/// where no character has it.
#[verifier::external_body]
fn char_from_u32(u: u32) -> (r: Option<char>)
    ensures
        r matches Some(c) ==> scalar(c) == u,
        r is None ==> forall|c: char| #[trigger] scalar(c) != u,
{
    char::from_u32(u)
}

/// Why a persisted log could not be read.
#[derive(Clone, Copy, Debug, PartialEq, Eq, Structural)]
pub enum LogError {
    /// The text is not a JSON array of arrays of unsigned integers.
    Parse,
    /// The record at this index does not describe a key event.
    BadRecord(usize),
}

pub open spec fn code_tag(c: KeyCode) -> u64 {
    match c {
        KeyCode::Backspace => 0,
        KeyCode::Enter => 1,
        KeyCode::Left => 2,
        KeyCode::Right => 3,
        KeyCode::Up => 4,
        KeyCode::Down => 5,
        KeyCode::Home => 6,
        KeyCode::End => 7,
        KeyCode::PageUp => 8,
        KeyCode::PageDown => 9,
        KeyCode::Tab => 10,
        KeyCode::BackTab => 11,
        KeyCode::Delete => 12,
        KeyCode::Insert => 13,
        KeyCode::F(_) => 14,
        KeyCode::Char(_) => 15,
        KeyCode::Null => 16,
        KeyCode::Esc => 17,
        KeyCode::Other => 18,
    }
}

pub open spec fn code_payload(c: KeyCode) -> u64 {
    match c {
        KeyCode::F(n) => n as u64,
        KeyCode::Char(ch) => scalar(ch) as u64,
        _ => 0,
    }
}

pub open spec fn kind_tag(k: KeyEventKind) -> u64 {
    match k {
        KeyEventKind::Press => 0,
        KeyEventKind::Repeat => 1,
        KeyEventKind::Release => 2,
    }
}

/// The record of a key event.
pub open spec fn encode_event(e: KeyEvent) -> Seq<u64> {
    seq![code_tag(e.code), code_payload(e.code), e.modifiers as u64, kind_tag(e.kind)]
}

/// The key of a tag and payload, if they describe one. Keys without a
/// payload take payload 0.
pub open spec fn decode_code(tag: u64, payload: u64) -> Option<KeyCode> {
    if tag == 14 {
        if payload <= 255 {
            Some(KeyCode::F(payload as u8))
        } else {
            None
        }
    } else if tag == 15 {
        if payload <= 0xffff_ffff {
            match char_of(payload as u32) {
                Some(c) => Some(KeyCode::Char(c)),
                None => None,
            }
        } else {
            None
        }
    } else if payload != 0 {
        None
    } else if tag == 0 {
        Some(KeyCode::Backspace)
    } else if tag == 1 {
        Some(KeyCode::Enter)
    } else if tag == 2 {
        Some(KeyCode::Left)
    } else if tag == 3 {
        Some(KeyCode::Right)
    } else if tag == 4 {
        Some(KeyCode::Up)
    } else if tag == 5 {
        Some(KeyCode::Down)
    } else if tag == 6 {
        Some(KeyCode::Home)
    } else if tag == 7 {
        Some(KeyCode::End)
    } else if tag == 8 {
        Some(KeyCode::PageUp)
    } else if tag == 9 {
        Some(KeyCode::PageDown)
    } else if tag == 10 {
        Some(KeyCode::Tab)
    } else if tag == 11 {
        Some(KeyCode::BackTab)
    } else if tag == 12 {
        Some(KeyCode::Delete)
    } else if tag == 13 {
        Some(KeyCode::Insert)
    } else if tag == 16 {
        Some(KeyCode::Null)
    } else if tag == 17 {
        Some(KeyCode::Esc)
    } else if tag == 18 {
        Some(KeyCode::Other)
    } else {
        None
    }
}

pub open spec fn decode_kind(tag: u64) -> Option<KeyEventKind> {
    if tag == 0 {
        Some(KeyEventKind::Press)
    } else if tag == 1 {
        Some(KeyEventKind::Repeat)
    } else if tag == 2 {
        Some(KeyEventKind::Release)
    } else {
        None
    }
}

/// The key event that a record describes, if it describes one.
pub open spec fn decode_row(row: Seq<u64>) -> Option<KeyEvent> {
    if row.len() != 4 || row[2] > 255 {
        None
    } else {
        match (decode_code(row[0], row[1]), decode_kind(row[3])) {
            (Some(code), Some(kind)) => Some(KeyEvent { code, modifiers: row[2] as u8, kind }),
            _ => None,
        }
    }
}

/// The records of a sequence of events.
pub open spec fn encode_records(log: Seq<KeyEvent>) -> Seq<Seq<u64>> {
    log.map_values(|e: KeyEvent| encode_event(e))
}

/// The events that records describe, if each of them describes one.
pub open spec fn decode_records(rows: Seq<Seq<u64>>) -> Option<Seq<KeyEvent>> {
    if forall|i: int| 0 <= i < rows.len() ==> (#[trigger] decode_row(rows[i])) is Some {
        Some(rows.map_values(|r: Seq<u64>| decode_row(r)->Some_0))
    } else {
        None
    }
}

/// `i` is the index of the first record that describes no key event.
pub open spec fn first_bad_record(rows: Seq<Seq<u64>>, i: int) -> bool {
    &&& 0 <= i < rows.len()
    &&& decode_row(rows[i]) is None
    &&& forall|j: int| 0 <= j < i ==> (#[trigger] decode_row(rows[j])) is Some
}

/// A record read back gives the event it was written from.
pub proof fn lemma_event_round_trip(e: KeyEvent)
    ensures
        decode_row(encode_event(e)) == Some(e),
{
    if let KeyCode::Char(c) = e.code {
        assert(exists|d: char| #[trigger] scalar(d) == c as u32);
        let d = choose|d: char| #[trigger] scalar(d) == c as u32;
        lemma_scalar_injective(c, d);
    }
}

/// Reading back the records of a sequence of events gives that sequence,
/// in the same order and with the same fields.
pub proof fn lemma_records_round_trip(log: Seq<KeyEvent>)
    ensures
        decode_records(encode_records(log)) == Some(log),
{
    let rows = encode_records(log);
    assert forall|i: int| 0 <= i < rows.len() implies (#[trigger] decode_row(rows[i])) == Some(log[i]) by {
        lemma_event_round_trip(log[i]);
    }
    assert(rows.map_values(|r: Seq<u64>| decode_row(r)->Some_0) =~= log);
}

/// The record of one event.
pub fn event_record(e: KeyEvent) -> (r: Vec<u64>)
    ensures
        r@ == encode_event(e),
{
    let (tag, payload): (u64, u64) = match e.code {
        KeyCode::Backspace => (0, 0),
        KeyCode::Enter => (1, 0),
        KeyCode::Left => (2, 0),
        KeyCode::Right => (3, 0),
        KeyCode::Up => (4, 0),
        KeyCode::Down => (5, 0),
        KeyCode::Home => (6, 0),
        KeyCode::End => (7, 0),
        KeyCode::PageUp => (8, 0),
        KeyCode::PageDown => (9, 0),
        KeyCode::Tab => (10, 0),
        KeyCode::BackTab => (11, 0),
        KeyCode::Delete => (12, 0),
        KeyCode::Insert => (13, 0),
        KeyCode::F(n) => (14, n as u64),
        KeyCode::Char(c) => (15, c as u32 as u64),
        KeyCode::Null => (16, 0),
        KeyCode::Esc => (17, 0),
        KeyCode::Other => (18, 0),
    };
    let kind: u64 = match e.kind {
        KeyEventKind::Press => 0,
        KeyEventKind::Repeat => 1,
        KeyEventKind::Release => 2,
    };
    let r = vec![tag, payload, e.modifiers as u64, kind];
    assert(r@ =~= encode_event(e));
    r
}

/// The event a record describes, if it describes one.
pub fn record_event(row: &Vec<u64>) -> (r: Option<KeyEvent>)
    ensures
        r == decode_row(row@),
{
    if row.len() != 4 || row[2] > 255 {
        return None;
    }
    let tag = row[0];
    let payload = row[1];
    let code = if tag == 14 {
        if payload <= 255 {
            KeyCode::F(payload as u8)
        } else {
            return None;
        }
    } else if tag == 15 {
        if payload > 0xffff_ffff {
            return None;
        }
        match char_from_u32(payload as u32) {
            Some(c) => {
                assert(scalar(c) == payload as u32);
                assert(exists|d: char| #[trigger] scalar(d) == payload as u32);
                let ghost d = choose|d: char| #[trigger] scalar(d) == payload as u32;
                proof {
                    lemma_scalar_injective(c, d);
                }
                assert(char_of(payload as u32) == Some(c));
                KeyCode::Char(c)
            },
            None => {
                return None;
            },
        }
    } else if payload != 0 {
        return None;
    } else if tag == 0 {
        KeyCode::Backspace
    } else if tag == 1 {
        KeyCode::Enter
    } else if tag == 2 {
        KeyCode::Left
    } else if tag == 3 {
        KeyCode::Right
    } else if tag == 4 {
        KeyCode::Up
    } else if tag == 5 {
        KeyCode::Down
    } else if tag == 6 {
        KeyCode::Home
    } else if tag == 7 {
        KeyCode::End
    } else if tag == 8 {
        KeyCode::PageUp
    } else if tag == 9 {
        KeyCode::PageDown
    } else if tag == 10 {
        KeyCode::Tab
    } else if tag == 11 {
        KeyCode::BackTab
    } else if tag == 12 {
        KeyCode::Delete
    } else if tag == 13 {
        KeyCode::Insert
    } else if tag == 16 {
        KeyCode::Null
    } else if tag == 17 {
        KeyCode::Esc
    } else if tag == 18 {
        KeyCode::Other
    } else {
        return None;
    };
    let kind = if row[3] == 0 {
        KeyEventKind::Press
    } else if row[3] == 1 {
        KeyEventKind::Repeat
    } else if row[3] == 2 {
        KeyEventKind::Release
    } else {
        return None;
    };
    Some(KeyEvent { code, modifiers: row[2] as u8, kind })
}

/// The records of a sequence of events, one per event, in order.
pub fn to_records(events: &Vec<KeyEvent>) -> (r: Vec<Vec<u64>>)
    ensures
        r.deep_view() == encode_records(events@),
{
    let mut r: Vec<Vec<u64>> = Vec::new();
    let mut i: usize = 0;
    while i < events.len()
        invariant
            0 <= i <= events@.len(),
            r.deep_view() =~= encode_records(events@.subrange(0, i as int)),
        decreases events.len() - i,
    {
        let row = event_record(events[i]);
        let ghost before = r.deep_view();
        assert(row.deep_view() =~= row@);
        r.push(row);
        assert(r.deep_view() =~= before.push(row@));
        assert(encode_records(events@.subrange(0, i + 1)) =~= encode_records(
            events@.subrange(0, i as int),
        ).push(encode_event(events@[i as int])));
        assert(r.deep_view() =~= encode_records(events@.subrange(0, i + 1)));
        i = i + 1;
    }
    assert(events@.subrange(0, events@.len() as int) =~= events@);
    r
}

/// The events that records describe, in order; `BadRecord(i)` where the
/// record at index `i` is the first that describes none.
pub fn from_records(rows: &Vec<Vec<u64>>) -> (r: Result<Vec<KeyEvent>, LogError>)
    ensures
        r is Ok <==> decode_records(rows.deep_view()) is Some,
        r matches Ok(v) ==> decode_records(rows.deep_view()) == Some(v@),
        r matches Err(err) ==> (err matches LogError::BadRecord(i) && first_bad_record(
            rows.deep_view(),
            i as int,
        )),
{
    let ghost rows_v = rows.deep_view();
    let mut out: Vec<KeyEvent> = Vec::new();
    let mut i: usize = 0;
    while i < rows.len()
        invariant
            0 <= i <= rows@.len(),
            rows_v == rows.deep_view(),
            out@.len() == i,
            forall|j: int| 0 <= j < i ==> (#[trigger] decode_row(rows_v[j])) == Some(out@[j]),
        decreases rows.len() - i,
    {
        assert(rows_v[i as int] =~= rows@[i as int]@);
        match record_event(&rows[i]) {
            Some(e) => {
                out.push(e);
            },
            None => {
                assert(!(forall|j: int| 0 <= j < rows_v.len() ==> (#[trigger] decode_row(rows_v[j])) is Some));
                return Err(LogError::BadRecord(i));
            },
        }
        i = i + 1;
    }
    assert(rows_v.map_values(|r: Seq<u64>| decode_row(r)->Some_0) =~= out@);
    Ok(out)
}

/// A log of the key events of a session, in the order they arrived.
pub struct EventLog {
    events: Vec<KeyEvent>,
}

impl View for EventLog {
    type V = Seq<KeyEvent>;

    closed spec fn view(&self) -> Seq<KeyEvent> {
        self.events@
    }
}

impl EventLog {
    /// An empty log.
    pub fn new() -> (r: EventLog)
        ensures
            r@ == Seq::<KeyEvent>::empty(),
    {
        EventLog { events: Vec::new() }
    }

    /// A log holding `events`.
    pub fn from_events(events: Vec<KeyEvent>) -> (r: EventLog)
        ensures
            r@ == events@,
    {
        EventLog { events }
    }

    /// The events recorded so far.
    pub fn events(&self) -> (r: &Vec<KeyEvent>)
        ensures
            r@ == self@,
    {
        &self.events
    }
}

/// Appends `event` to the log.
pub fn log(events: &mut EventLog, event: KeyEvent)
    ensures
        final(events)@ == old(events)@.push(event),
{
    events.events.push(event);
}

/// The persisted form of the log: the JSON text of its records.
pub fn dump_logs(events: &EventLog) -> (r: String)
    ensures
        r@ == json_text(encode_records(events@)),
{
    let rows = to_records(&events.events);
    match rows_to_json(&rows) {
        Ok(s) => s,
        Err(_) => String::new(),
    }
}

/// The events of a persisted log. A text that is not a JSON array of
/// records is a `Parse` error; a record that describes no key event is a
/// `BadRecord` error.
pub fn delog(text: &str) -> (r: Result<Vec<KeyEvent>, LogError>)
    ensures
        json_rows(text@) is None ==> r == Err::<Vec<KeyEvent>, LogError>(LogError::Parse),
        json_rows(text@) matches Some(rows) ==> (r is Ok <==> decode_records(rows) is Some),
        json_rows(text@) matches Some(rows) ==> (r matches Ok(v) ==> decode_records(rows) == Some(v@)),
        json_rows(text@) matches Some(rows) ==> (r matches Err(e) ==> (e matches LogError::BadRecord(i)
            && first_bad_record(rows, i as int))),
        r matches Err(e) ==> (e == LogError::Parse <==> json_rows(text@) is None),
        forall|log: Seq<KeyEvent>| #[trigger] json_text(encode_records(log)) == text@ ==> (r matches Ok(v)
            && v@ == log),
{
    let r = match rows_from_json(text) {
        Ok(rows) => from_records(&rows),
        Err(_) => Err(LogError::Parse),
    };
    proof {
        assert forall|log: Seq<KeyEvent>| #[trigger] json_text(encode_records(log)) == text@ implies (r matches Ok(
            v,
        ) && v@ == log) by {
            lemma_records_round_trip(log);
        }
    }
    r
}

/// A running application together with the log of the key events it has
/// been fed. The application's model is always what replaying the log
/// against the initial model gives.
pub struct Session<A: View> {
    app: A,
    events: EventLog,
    fuel: usize,
    initial: Ghost<A::V>,
}

impl<A: View> Session<A> {
    /// The application's current model.
    pub closed spec fn model(&self) -> A::V {
        self.app@
    }

    /// The model the session started from.
    pub closed spec fn initial(&self) -> A::V {
        self.initial@
    }

    /// The events fed so far.
    pub closed spec fn recorded(&self) -> Seq<KeyEvent> {
        self.events@
    }

    /// The bound on the length of each update chain.
    pub closed spec fn fuel(&self) -> nat {
        self.fuel as nat
    }

    /// The model is the replay of the recorded events.
    pub open spec fn wf<M: View>(&self) -> bool where A: App<M> {
        self.model() == replay_spec::<M, A>(self.initial(), self.recorded(), self.fuel())
    }

    /// Starts a session on `app`, each update chain bounded by `fuel` updates.
    pub fn start<M: View>(app: A, fuel: usize) -> (r: Session<A>) where A: App<M>
        ensures
            r.wf::<M>(),
            r.initial() == app@,
            r.recorded() == Seq::<KeyEvent>::empty(),
            r.fuel() == fuel,
            r.model() == app@,
    {
        let ghost v = app@;
        Session { app, events: EventLog::new(), fuel, initial: Ghost(v) }
    }

    /// Records `key`, then processes it.
    pub fn feed<M: View>(&mut self, key: KeyEvent) where A: App<M>
        requires
            old(self).wf::<M>(),
        ensures
            final(self).wf::<M>(),
            final(self).recorded() == old(self).recorded().push(key),
            final(self).initial() == old(self).initial(),
            final(self).fuel() == old(self).fuel(),
    {
        log(&mut self.events, key);
        let _ = process_key::<M, A>(&mut self.app, key, self.fuel);
        assert(self.recorded().drop_last() =~= old(self).recorded());
    }

    /// The application.
    pub fn app(&self) -> (r: &A)
        ensures
            r@ == self.model(),
    {
        &self.app
    }

    /// The log of the events fed so far.
    pub fn event_log(&self) -> (r: &EventLog)
        ensures
            r@ == self.recorded(),
    {
        &self.events
    }
}

/// Replaying what a session recorded against a fresh model equal to the one
/// it started from gives the model the session has now.
pub proof fn lemma_replay_reproduces<M: View, A: App<M>>(s: Session<A>, fresh: A::V)
    requires
        s.wf::<M>(),
        fresh == s.initial(),
    ensures
        replay_spec::<M, A>(fresh, s.recorded(), s.fuel()) == s.model(),
{
}

} // verus!
