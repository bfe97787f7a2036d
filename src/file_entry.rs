//! Entries of a directory listing, shown without a leading `./`, and the
//! listing sorted by what is shown.

use vstd::prelude::*;

use crate::keys::KeyEvent;
use crate::sniper::{Message, MessageView};
use crate::widgets::{EventOrMessage, Selectable, Widget};

verus! {

/// A path, as a directory listing shows it.
#[derive(Clone, Debug, PartialEq, Eq)]
pub struct FileEntry {
    path: String,
}

impl View for FileEntry {
    type V = Seq<char>;

    closed spec fn view(&self) -> Seq<char> {
        self.path@
    }
}

/// What is shown for a path: the path without a leading `./`.
pub open spec fn display(p: Seq<char>) -> Seq<char> {
    if p.len() >= 2 && p[0] == '.' && p[1] == '/' {
        p.skip(2)
    } else {
        p
    }
}

/// Whether `a` comes before `b` in the order of their characters' scalar
/// values, a proper prefix first.
pub open spec fn str_lt(a: Seq<char>, b: Seq<char>) -> bool
    decreases a.len(),
{
    if a.len() == 0 {
        b.len() > 0
    } else if b.len() == 0 {
        false
    } else if a[0] != b[0] {
        (a[0] as u32) < (b[0] as u32)
    } else {
        str_lt(a.drop_first(), b.drop_first())
    }
}

/// No string comes before one that comes before it.
pub proof fn lemma_str_lt_asymmetric(a: Seq<char>, b: Seq<char>)
    requires
        str_lt(a, b),
    ensures
        !str_lt(b, a),
    decreases a.len(),
{
    if a.len() > 0 && b.len() > 0 && a[0] == b[0] {
        lemma_str_lt_asymmetric(a.drop_first(), b.drop_first());
    }
}

/// Entries in the order of what is shown for them: no entry is shown
/// before its predecessor.
pub open spec fn sorted_by_display(s: Seq<Seq<char>>) -> bool {
    forall|k: int| 0 < k < s.len() ==> !str_lt(display(#[trigger] s[k]), display(s[k - 1]))
}

/// The views of a sequence of entries.
pub open spec fn entries_view(s: Seq<FileEntry>) -> Seq<Seq<char>> {
    s.map_values(|f: FileEntry| f@)
}

/// Whether `a` comes before `b`.
fn less_than(a: &str, b: &str) -> (r: bool)
    ensures
        r == str_lt(a@, b@),
{
    let la = a.unicode_len();
    let lb = b.unicode_len();
    let mut i: usize = 0;
    assert(a@.skip(0) =~= a@);
    assert(b@.skip(0) =~= b@);
    while i < la && i < lb
        invariant
            la == a@.len(),
            lb == b@.len(),
            0 <= i <= la,
            i <= lb,
            str_lt(a@, b@) == str_lt(a@.skip(i as int), b@.skip(i as int)),
        decreases la - i,
    {
        let ca = a.get_char(i);
        let cb = b.get_char(i);
        if ca != cb {
            return (ca as u32) < (cb as u32);
        }
        assert(a@.skip(i as int).drop_first() =~= a@.skip(i + 1));
        assert(b@.skip(i as int).drop_first() =~= b@.skip(i + 1));
        i = i + 1;
    }
    i < lb
}

impl FileEntry {
    /// The entry for `path`.
    pub fn new(path: &str) -> (r: FileEntry)
        ensures
            r@ == path@,
    {
        FileEntry { path: path.to_owned() }
    }

    /// The path.
    pub fn path(&self) -> (r: &str)
        ensures
            r@ == self@,
    {
        self.path.as_str()
    }

    /// What is shown for the entry: its path without a leading `./`.
    pub fn to_string(&self) -> (r: String)
        ensures
            r@ == display(self@),
    {
        let p = self.path.as_str();
        let len = p.unicode_len();
        if len >= 2 && p.get_char(0) == '.' && p.get_char(1) == '/' {
            p.substring_char(2, len).to_owned()
        } else {
            p.to_owned()
        }
    }
}

impl Widget<Message> for FileEntry {
    /// An entry has no keys of its own: it passes every key on.
    open spec fn key_spec(v: Seq<char>, e: KeyEvent) -> (Seq<char>, Option<EventOrMessage<MessageView>>) {
        (v, Some(EventOrMessage::Event(e)))
    }

    fn handle_key(&mut self, e: KeyEvent) -> (r: Option<EventOrMessage<Message>>) {
        Some(EventOrMessage::Event(e))
    }
}

impl Selectable<Message> for FileEntry {
    /// Choosing an entry opens what is shown for it.
    open spec fn select_spec(v: Seq<char>) -> MessageView {
        MessageView::OpenPath(display(v))
    }

    open spec fn none_selected_spec() -> MessageView {
        MessageView::Error(crate::sniper::no_item_selected())
    }

    fn selected_message(&self) -> (r: Message) {
        Message::OpenPath(self.to_string())
    }

    fn nothing_selected() -> (r: Message) {
        Message::Error(crate::sniper::no_item_selected_text())
    }
}

/// The paths of a directory listing: `.` and `..`, then the entries read
/// from the directory.
pub open spec fn listing(names: Seq<Seq<char>>) -> Seq<Seq<char>> {
    seq![seq!['.'], seq!['.', '.']] + names
}

/// Where an entry goes in a sorted sequence: before the first entry shown
/// after it, or at the end.
pub open spec fn insert_position(s: Seq<Seq<char>>, x: Seq<char>) -> int
    decreases s.len(),
{
    if s.len() == 0 {
        0
    } else if str_lt(display(x), display(s[0])) {
        0
    } else {
        1 + insert_position(s.drop_first(), x)
    }
}

/// Paths sorted by what is shown for them, each inserted in turn where it
/// goes; paths shown alike keep their order.
pub open spec fn sort_entries(ps: Seq<Seq<char>>) -> Seq<Seq<char>>
    decreases ps.len(),
{
    if ps.len() == 0 {
        Seq::<Seq<char>>::empty()
    } else {
        let s = sort_entries(ps.drop_last());
        s.insert(insert_position(s, ps.last()), ps.last())
    }
}

proof fn lemma_insert_position(s: Seq<Seq<char>>, x: Seq<char>, p: int)
    requires
        0 <= p <= s.len(),
        forall|j: int| 0 <= j < p ==> !str_lt(display(x), display(#[trigger] s[j])),
        p < s.len() ==> str_lt(display(x), display(s[p])),
    ensures
        insert_position(s, x) == p,
    decreases p,
{
    if p > 0 {
        assert(!str_lt(display(x), display(s[0])));
        assert forall|j: int| 0 <= j < p - 1 implies !str_lt(display(x), display(#[trigger] s.drop_first()[j])) by {
            assert(s.drop_first()[j] == s[j + 1]);
        }
        lemma_insert_position(s.drop_first(), x, p - 1);
    }
}

/// The paths of a directory listing: `.` and `..` first, then the entries
/// read from the directory, in the order they were read.
pub fn get_files(entries: Vec<String>) -> (r: Vec<String>)
    ensures
        r.deep_view() == listing(entries.deep_view()),
{
    let mut r: Vec<String> = Vec::new();
    r.push(".".to_owned());
    r.push("..".to_owned());
    proof {
        reveal_strlit(".");
        reveal_strlit("..");
    }
    let mut i: usize = 0;
    let ghost all = entries.deep_view();
    assert(r.deep_view()[0] =~= seq!['.']);
    assert(r.deep_view()[1] =~= seq!['.', '.']);
    assert(r.deep_view() =~= listing(all.subrange(0, 0)));
    while i < entries.len()
        invariant
            all == entries.deep_view(),
            0 <= i <= all.len(),
            r.deep_view() =~= listing(all.subrange(0, i as int)),
        decreases all.len() - i,
    {
        let ghost before = r.deep_view();
        let name = entries[i].clone();
        r.push(name);
        assert(r.deep_view() =~= before.push(all[i as int]));
        assert(listing(all.subrange(0, i + 1)) =~= listing(all.subrange(0, i as int)).push(all[i as int]));
        i = i + 1;
    }
    assert(all.subrange(0, all.len() as int) =~= all);
    r
}

/// The entries for `paths`, sorted by what is shown for them; entries
/// shown alike keep their order.
pub fn get_file_entries(paths: &Vec<String>) -> (r: Vec<FileEntry>)
    ensures
        entries_view(r@) == sort_entries(paths.deep_view()),
        entries_view(r@).to_multiset() == paths.deep_view().to_multiset(),
        sorted_by_display(entries_view(r@)),
{
    broadcast use vstd::seq_lib::group_to_multiset_ensures;

    let ghost all = paths.deep_view();
    let mut out: Vec<FileEntry> = Vec::new();
    let mut i: usize = 0;
    assert(entries_view(out@) =~= sort_entries(all.subrange(0, 0)));
    while i < paths.len()
        invariant
            all == paths.deep_view(),
            0 <= i <= all.len(),
            entries_view(out@) == sort_entries(all.subrange(0, i as int)),
            entries_view(out@).to_multiset() == all.subrange(0, i as int).to_multiset(),
            sorted_by_display(entries_view(out@)),
        decreases all.len() - i,
    {
        let entry = FileEntry::new(paths[i].as_str());
        let shown = entry.to_string();
        let mut p: usize = 0;
        while p < out.len()
            invariant
                0 <= p <= out@.len(),
                shown@ == display(entry@),
                forall|j: int| 0 <= j < p ==> !str_lt(display(entry@), display(#[trigger] out@[j]@)),
            ensures
                0 <= p <= out@.len(),
                forall|j: int| 0 <= j < p ==> !str_lt(display(entry@), display(#[trigger] out@[j]@)),
                p < out@.len() ==> str_lt(display(entry@), display(out@[p as int]@)),
            decreases out.len() - p,
        {
            let other = out[p].to_string();
            if less_than(shown.as_str(), other.as_str()) {
                break;
            }
            p = p + 1;
        }
        let ghost before = entries_view(out@);
        let ghost x = entry@;
        proof {
            assert(x == all[i as int]);
            assert forall|j: int| 0 <= j < p implies !str_lt(display(x), display(#[trigger] before[j])) by {
                assert(before[j] == out@[j]@);
            }
            lemma_insert_position(before, x, p as int);
            assert(all.subrange(0, i + 1).drop_last() =~= all.subrange(0, i as int));
        }
        out.insert(p, entry);
        proof {
            let after = entries_view(out@);
            assert(after =~= before.insert(p as int, x));
            if p < before.len() {
                lemma_str_lt_asymmetric(display(x), display(before[p as int]));
            }
            assert forall|k: int| 0 < k < after.len() implies !str_lt(
                display(#[trigger] after[k]),
                display(after[k - 1]),
            ) by {
                if k < p {
                    assert(after[k] == before[k] && after[k - 1] == before[k - 1]);
                } else if k == p {
                    assert(after[k] == x && after[k - 1] == before[k - 1]);
                } else if k == p + 1 {
                    assert(after[k] == before[p as int] && after[k - 1] == x);
                } else {
                    assert(after[k] == before[k - 1] && after[k - 1] == before[k - 2]);
                }
            }
            assert(all.subrange(0, i + 1) =~= all.subrange(0, i as int).push(x));
            vstd::seq_lib::to_multiset_insert(before, p as int, x);
            vstd::seq_lib::to_multiset_build(all.subrange(0, i as int), x);
        }
        i = i + 1;
    }
    assert(all.subrange(0, all.len() as int) =~= all);
    out
}

} // verus!
