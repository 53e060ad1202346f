//! The filter modes and the derivation of the visible list of notes.
use vstd::prelude::*;
use crate::note::Note;
use crate::text::{contains_run, contains_str};
use crate::user::bucket_has;

verus! {

/// What the list of notes is filtered by.
pub enum NotesMode {
    Normal,
    Pinned,
    Queried(String),
    PinnedQueried(String),
}

/// The mode for a pin-only switch and a query: an empty query filters nothing.
pub open spec fn mode_of(only_pinned: bool, query: String) -> NotesMode {
    if query@.len() == 0 {
        if only_pinned { NotesMode::Pinned } else { NotesMode::Normal }
    } else {
        if only_pinned { NotesMode::PinnedQueried(query) } else { NotesMode::Queried(query) }
    }
}

/// Whether a note passes the mode's filter: pinned where the mode asks for pinned
/// notes, a title holding the query where it has one (case-sensitive).
pub open spec fn passes(n: Note, mode: NotesMode) -> bool {
    match mode {
        NotesMode::Normal => true,
        NotesMode::Pinned => n.pinned,
        NotesMode::Queried(q) => contains_run(n.title@, q@),
        NotesMode::PinnedQueried(q) => contains_run(n.title@, q@) && n.pinned,
    }
}

/// The display group of a note: pinned and open first, pinned and minimized
/// next, unpinned last.
pub open spec fn rank(n: Note) -> nat {
    if !n.pinned { 2 } else if n.minimized { 1 } else { 0 }
}

/// Whether a note is shown under a mode to a viewer with the given hidden bucket.
pub open spec fn shown(n: Note, mode: NotesMode, hidden: Seq<u128>) -> bool {
    passes(n, mode) && !hidden.contains(n.id)
}

/// The ids, in store order, of the shown notes of display group `g`.
pub open spec fn picked(s: Seq<Note>, mode: NotesMode, hidden: Seq<u128>, g: nat) -> Seq<u128>
    decreases s.len(),
{
    if s.len() == 0 {
        Seq::empty()
    } else {
        let rest = picked(s.drop_last(), mode, hidden, g);
        if shown(s.last(), mode, hidden) && rank(s.last()) == g {
            rest.push(s.last().id)
        } else {
            rest
        }
    }
}

/// The ids of the visible notes in display order: the shown notes sorted by
/// their group, store order kept within a group.
pub open spec fn visible_ids(s: Seq<Note>, mode: NotesMode, hidden: Seq<u128>) -> Seq<u128> {
    picked(s, mode, hidden, 0) + picked(s, mode, hidden, 1) + picked(s, mode, hidden, 2)
}

impl NotesMode {
    /// The mode for a pin-only switch and a query.
    pub fn from_inputs(only_pinned: bool, query: String) -> (r: NotesMode)
        ensures
            r == mode_of(only_pinned, query),
    {
        if query.as_str().unicode_len() == 0 {
            if only_pinned { NotesMode::Pinned } else { NotesMode::Normal }
        } else {
            if only_pinned { NotesMode::PinnedQueried(query) } else { NotesMode::Queried(query) }
        }
    }
}

/// Whether a note passes the mode's filter.
pub fn note_passes(n: &Note, mode: &NotesMode) -> (r: bool)
    ensures
        r == passes(*n, *mode),
{
    match mode {
        NotesMode::Normal => true,
        NotesMode::Pinned => n.pinned,
        NotesMode::Queried(q) => contains_str(n.title.as_str(), q.as_str()),
        NotesMode::PinnedQueried(q) => contains_str(n.title.as_str(), q.as_str()) && n.pinned,
    }
}

fn note_rank(n: &Note) -> (r: u8)
    ensures
        r as nat == rank(*n),
{
    if !n.pinned { 2 } else if n.minimized { 1 } else { 0 }
}

/// Appends the ids of the shown notes of group `g`, in store order.
fn pick_group(notes: &Vec<Note>, mode: &NotesMode, hidden: &Vec<u128>, g: u8, out: &mut Vec<u128>)
    ensures
        final(out)@ == old(out)@ + picked(notes@, *mode, hidden@, g as nat),
{
    let ghost start = out@;
    let mut i: usize = 0;
    while i < notes.len()
        invariant
            i <= notes@.len(),
            out@ == start + picked(notes@.take(i as int), *mode, hidden@, g as nat),
        decreases notes@.len() - i,
    {
        let ghost t = notes@.take(i + 1);
        assert(t.drop_last() =~= notes@.take(i as int));
        assert(t.last() == notes@[i as int]);
        let n = &notes[i];
        if note_passes(n, mode) && !bucket_has(hidden, n.id) && note_rank(n) == g {
            out.push(n.id);
            assert(out@ =~= start + picked(t, *mode, hidden@, g as nat));
        }
        i = i + 1;
    }
    assert(notes@.take(notes@.len() as int) =~= notes@);
}

/// The ids of the notes shown under `mode` to a viewer who hid `hidden`, in
/// display order.
pub fn visible_for(notes: &Vec<Note>, mode: &NotesMode, hidden: &Vec<u128>) -> (r: Vec<u128>)
    ensures
        r@ == visible_ids(notes@, *mode, hidden@),
{
    let mut out: Vec<u128> = Vec::new();
    pick_group(notes, mode, hidden, 0, &mut out);
    pick_group(notes, mode, hidden, 1, &mut out);
    pick_group(notes, mode, hidden, 2, &mut out);
    assert(out@ =~= visible_ids(notes@, *mode, hidden@));
    out
}

/// The ids of the notes shown under `mode`, in display order: the notes that
/// pass the filter, pinned open notes first, pinned minimized notes next,
/// unpinned notes last, store order kept within each group.
pub fn derive_visible(notes: &Vec<Note>, mode: &NotesMode) -> (r: Vec<u128>)
    ensures
        r@ == visible_ids(notes@, *mode, Seq::empty()),
{
    let hidden: Vec<u128> = Vec::new();
    visible_for(notes, mode, &hidden)
}

/// An empty query filters nothing: under `Queried("")` the visible list is the one
/// under `Normal`, and likewise `PinnedQueried("")` gives that of `Pinned`.
pub proof fn lemma_empty_query_is_no_filter(s: Seq<Note>, q: String, hidden: Seq<u128>)
    requires
        q@.len() == 0,
    ensures
        visible_ids(s, NotesMode::Queried(q), hidden) == visible_ids(s, NotesMode::Normal, hidden),
        visible_ids(s, NotesMode::PinnedQueried(q), hidden) == visible_ids(s, NotesMode::Pinned, hidden),
{
    assert forall|n: Note| contains_run(#[trigger] n.title@, q@) by {
        assert(n.title@.subrange(0, 0int + q@.len()) =~= q@);
    }
    lemma_same_filter(s, NotesMode::Queried(q), NotesMode::Normal, hidden);
    lemma_same_filter(s, NotesMode::PinnedQueried(q), NotesMode::Pinned, hidden);
}

/// Two modes that let the same notes through give the same visible list.
proof fn lemma_same_filter(s: Seq<Note>, a: NotesMode, b: NotesMode, hidden: Seq<u128>)
    requires
        forall|n: Note| passes(n, a) == #[trigger] passes(n, b),
    ensures
        visible_ids(s, a, hidden) == visible_ids(s, b, hidden),
{
    lemma_same_picked(s, a, b, hidden, 0);
    lemma_same_picked(s, a, b, hidden, 1);
    lemma_same_picked(s, a, b, hidden, 2);
}

proof fn lemma_same_picked(s: Seq<Note>, a: NotesMode, b: NotesMode, hidden: Seq<u128>, g: nat)
    requires
        forall|n: Note| passes(n, a) == #[trigger] passes(n, b),
    ensures
        picked(s, a, hidden, g) == picked(s, b, hidden, g),
    decreases s.len(),
{
    if s.len() > 0 {
        lemma_same_picked(s.drop_last(), a, b, hidden, g);
        assert(passes(s.last(), a) == passes(s.last(), b));
    }
}

} // verus!
