//! The note store: the notes in store order, the viewing user, the focus of the
//! maximize and edit actions, and the filter inputs.
use vstd::prelude::*;
use crate::filter::{NotesMode, mode_of, visible_ids, visible_for};
use crate::note::{Note, get_new_pastel_colour};
use crate::text::{filter_input, normalized};
use crate::time::TimeDate;
use crate::user::{User, fresh_id, occurs_once, add_id, remove_id, lemma_add_id, lemma_remove_id, push_unique, remove_every};

verus! {

/// Whether some note of `s` has id `x`.
pub open spec fn has_id(s: Seq<Note>, x: u128) -> bool {
    exists|i: int| 0 <= i < s.len() && #[trigger] s[i].id == x
}

/// The position of the note with id `x` (meaningful where `has_id(s, x)`).
pub open spec fn pos(s: Seq<Note>, x: u128) -> int {
    choose|i: int| 0 <= i < s.len() && #[trigger] s[i].id == x
}

/// No two notes share an id.
pub open spec fn unique_ids(s: Seq<Note>) -> bool {
    forall|i: int, j: int|
        0 <= i < s.len() && 0 <= j < s.len() && i != j ==> #[trigger] s[i].id != #[trigger] s[j].id
}

/// The flag that the pinned bucket follows.
pub open spec fn pinned_flag() -> spec_fn(Note) -> bool {
    |n: Note| n.pinned
}

/// The flag that the minimized bucket follows.
pub open spec fn minimized_flag() -> spec_fn(Note) -> bool {
    |n: Note| n.minimized
}

/// A bucket that holds, once each, exactly the ids of the notes with flag `f` on.
pub open spec fn bucket_matches(s: Seq<Note>, b: Seq<u128>, f: spec_fn(Note) -> bool) -> bool {
    &&& b.no_duplicates()
    &&& forall|i: int| 0 <= i < s.len() ==> (f(#[trigger] s[i]) <==> b.contains(s[i].id))
    &&& forall|x: u128| #[trigger] b.contains(x) ==> has_id(s, x)
}

/// A hidden bucket: ids of notes of the store, once each.
pub open spec fn hidden_ok(s: Seq<Note>, h: Seq<u128>) -> bool {
    &&& h.no_duplicates()
    &&& forall|x: u128| #[trigger] h.contains(x) ==> has_id(s, x)
}

/// A bucket after the flag of note `x` was set to `on`.
pub open spec fn flag_bucket(b: Seq<u128>, x: u128, on: bool) -> Seq<u128> {
    if on { add_id(b, x) } else { remove_id(b, x) }
}

/// The notes of `t` are those of `s` but at position `i`.
pub open spec fn same_but_at(t: Seq<Note>, s: Seq<Note>, i: int) -> bool {
    &&& t.len() == s.len()
    &&& forall|j: int| 0 <= j < s.len() && j != i ==> t[j] == s[j]
}

/// The notes in store order, the viewer whose buckets follow them, the note
/// holding the maximize focus and the one holding the edit focus, and the
/// filter inputs.
pub struct NoteStore {
    pub notes: Vec<Note>,
    pub viewer: User,
    pub maximize_focus: Option<u128>,
    pub edit_focus: Option<u128>,
    pub only_pinned: bool,
    pub query: String,
}

/// Where to find the note with id `id`.
pub fn find_note(notes: &Vec<Note>, id: u128) -> (r: Option<usize>)
    ensures
        match r {
            Some(i) => i < notes@.len() && notes@[i as int].id == id
                && (unique_ids(notes@) ==> i as int == pos(notes@, id)),
            None => !has_id(notes@, id),
        },
{
    let mut i: usize = 0;
    while i < notes.len()
        invariant
            i <= notes@.len(),
            forall|k: int| 0 <= k < i ==> #[trigger] notes@[k].id != id,
        decreases notes@.len() - i,
    {
        if notes[i].id == id {
            proof {
                assert(has_id(notes@, id));
                let j = pos(notes@, id);
                assert(notes@[j].id == id);
            }
            return Some(i);
        }
        i = i + 1;
    }
    None
}

/// A bucket stays matched when one note changes in place, keeping its id, and
/// the bucket follows the note's new flag.
pub proof fn lemma_bucket_after_update(s: Seq<Note>, b: Seq<u128>, f: spec_fn(Note) -> bool, i: int, n: Note)
    requires
        bucket_matches(s, b, f),
        unique_ids(s),
        0 <= i < s.len(),
        n.id == s[i].id,
    ensures
        bucket_matches(s.update(i, n), flag_bucket(b, n.id, f(n)), f),
        unique_ids(s.update(i, n)),
        forall|x: u128| has_id(s, x) == #[trigger] has_id(s.update(i, n), x),
{
    let t = s.update(i, n);
    let x = n.id;
    let b2 = flag_bucket(b, x, f(n));
    lemma_add_id(b, x);
    lemma_remove_id(b, x);
    assert forall|y: u128| has_id(s, y) == #[trigger] has_id(t, y) by {
        if has_id(s, y) {
            let k = choose|k: int| 0 <= k < s.len() && #[trigger] s[k].id == y;
            assert(t[k].id == y);
        }
        if has_id(t, y) {
            let k = choose|k: int| 0 <= k < t.len() && #[trigger] t[k].id == y;
            assert(s[k].id == y);
        }
    }
    assert forall|j: int| 0 <= j < t.len() implies (f(#[trigger] t[j]) <==> b2.contains(t[j].id)) by {
        if j != i {
            assert(s[j].id != x);
        }
    }
    assert forall|y: u128| #[trigger] b2.contains(y) implies has_id(t, y) by {
        if y == x {
            assert(t[i].id == y);
        } else {
            assert(b.contains(y));
            assert(has_id(s, y));
        }
    }
    assert(unique_ids(t)) by {
        assert forall|j: int, k: int| 0 <= j < t.len() && 0 <= k < t.len() && j != k
            implies #[trigger] t[j].id != #[trigger] t[k].id by {
            assert(s[j].id != s[k].id);
        }
    }
}

/// Setting a flag to the value it had leaves a matched bucket as it was.
pub proof fn lemma_flag_bucket_same(s: Seq<Note>, b: Seq<u128>, f: spec_fn(Note) -> bool, i: int)
    requires
        bucket_matches(s, b, f),
        0 <= i < s.len(),
    ensures
        flag_bucket(b, s[i].id, f(s[i])) == b,
{
    lemma_remove_id(b, s[i].id);
    assert(f(s[i]) <==> b.contains(s[i].id));
}

/// A hidden bucket stays valid when one note changes in place, keeping its id.
proof fn lemma_hidden_after_update(s: Seq<Note>, h: Seq<u128>, i: int, n: Note)
    requires
        hidden_ok(s, h),
        0 <= i < s.len(),
        n.id == s[i].id,
    ensures
        hidden_ok(s.update(i, n), h),
{
    let t = s.update(i, n);
    assert forall|y: u128| #[trigger] h.contains(y) implies has_id(t, y) by {
        assert(has_id(s, y));
        let k = choose|k: int| 0 <= k < s.len() && #[trigger] s[k].id == y;
        assert(t[k].id == y);
    }
}

impl NoteStore {
    /// The store holds unique notes, and the viewer's buckets agree with them.
    pub open spec fn wf(&self) -> bool {
        &&& unique_ids(self.notes@)
        &&& bucket_matches(self.notes@, self.viewer.pinned_note_ids@, pinned_flag())
        &&& bucket_matches(self.notes@, self.viewer.minimized_note_ids@, minimized_flag())
        &&& hidden_ok(self.notes@, self.viewer.hidden_note_ids@)
    }

    /// The filter mode that the store's inputs select.
    pub open spec fn mode_spec(&self) -> NotesMode {
        mode_of(self.only_pinned, self.query)
    }

    /// The viewer of `a` is that of `b`, its pinned and minimized buckets aside.
    pub open spec fn same_viewer_identity(a: User, b: User) -> bool {
        &&& a.username == b.username
        &&& a.creation_date == b.creation_date
        &&& a.hidden_note_ids == b.hidden_note_ids
        &&& a.id == b.id
        &&& a.guest == b.guest
    }

    /// The stores `a` and `b` have the same focus and filter inputs.
    pub open spec fn same_settings(a: NoteStore, b: NoteStore) -> bool {
        &&& a.maximize_focus == b.maximize_focus
        &&& a.edit_focus == b.edit_focus
        &&& a.only_pinned == b.only_pinned
        &&& a.query == b.query
    }

    /// `a` is `b` with the pinned flag of note `id` set to `on` and the pinned
    /// bucket following it.
    pub open spec fn pinned_set(a: NoteStore, b: NoteStore, id: u128, on: bool) -> bool {
        let i = pos(b.notes@, id);
        let n = b.notes@[i];
        &&& a.notes@ == b.notes@.update(i, Note { pinned: on, ..n })
        &&& a.viewer.pinned_note_ids@ == flag_bucket(b.viewer.pinned_note_ids@, id, on)
        &&& a.viewer.minimized_note_ids == b.viewer.minimized_note_ids
        &&& Self::same_viewer_identity(a.viewer, b.viewer)
        &&& Self::same_settings(a, b)
    }

    /// `a` is `b` with the minimized flag of note `id` set to `on` and the
    /// minimized bucket following it.
    pub open spec fn minimized_set(a: NoteStore, b: NoteStore, id: u128, on: bool) -> bool {
        let i = pos(b.notes@, id);
        let n = b.notes@[i];
        &&& a.notes@ == b.notes@.update(i, Note { minimized: on, ..n })
        &&& a.viewer.minimized_note_ids@ == flag_bucket(b.viewer.minimized_note_ids@, id, on)
        &&& a.viewer.pinned_note_ids == b.viewer.pinned_note_ids
        &&& Self::same_viewer_identity(a.viewer, b.viewer)
        &&& Self::same_settings(a, b)
    }

    /// `a` is `b` with only its notes changed.
    pub open spec fn only_notes_changed(a: NoteStore, b: NoteStore) -> bool {
        &&& a.viewer == b.viewer
        &&& Self::same_settings(a, b)
    }

    /// A store for `viewer`, with no notes, no focus, no filter; the viewer's
    /// buckets start empty.
    pub fn new(viewer: User) -> (r: NoteStore)
        ensures
            r.wf(),
            r.notes@.len() == 0,
            r.viewer.username == viewer.username,
            r.viewer.creation_date == viewer.creation_date,
            r.viewer.id == viewer.id,
            r.viewer.guest == viewer.guest,
            r.viewer.pinned_note_ids@.len() == 0,
            r.viewer.minimized_note_ids@.len() == 0,
            r.viewer.hidden_note_ids@.len() == 0,
            r.maximize_focus.is_none(),
            r.edit_focus.is_none(),
            !r.only_pinned,
            r.query@.len() == 0,
    {
        let mut viewer = viewer;
        viewer.pinned_note_ids = Vec::new();
        viewer.minimized_note_ids = Vec::new();
        viewer.hidden_note_ids = Vec::new();
        NoteStore {
            notes: Vec::new(),
            viewer,
            maximize_focus: None,
            edit_focus: None,
            only_pinned: false,
            query: String::new(),
        }
    }

    /// The note with id `id`, if the store has one.
    pub fn get(&self, id: u128) -> (r: Option<&Note>)
        requires
            self.wf(),
        ensures
            match r {
                Some(n) => has_id(self.notes@, id) && *n == self.notes@[pos(self.notes@, id)],
                None => !has_id(self.notes@, id),
            },
    {
        match find_note(&self.notes, id) {
            Some(i) => Some(&self.notes[i]),
            None => None,
        }
    }

    /// Sets the pinned flag of note `id` and reconciles the viewer's pinned
    /// bucket: the id is added once when the flag is on, removed when it is off.
    /// An unknown id changes nothing.
    pub fn set_pinned(&mut self, id: u128, on: bool)
        requires
            old(self).wf(),
        ensures
            final(self).wf(),
            !has_id(old(self).notes@, id) ==> *final(self) == *old(self),
            has_id(old(self).notes@, id) ==> Self::pinned_set(*final(self), *old(self), id, on),
            has_id(old(self).notes@, id) && on ==> occurs_once(final(self).viewer.pinned_note_ids@, id),
    {
        match find_note(&self.notes, id) {
            None => {},
            Some(i) => {
                let ghost s = self.notes@;
                let ghost b = self.viewer.pinned_note_ids@;
                self.notes[i].pinned = on;
                if on {
                    push_unique(&mut self.viewer.pinned_note_ids, id);
                } else {
                    remove_every(&mut self.viewer.pinned_note_ids, id);
                }
                proof {
                    let n = Note { pinned: on, ..s[i as int] };
                    assert(self.notes@ == s.update(i as int, n));
                    lemma_bucket_after_update(s, b, pinned_flag(), i as int, n);
                    lemma_bucket_after_update(s, self.viewer.minimized_note_ids@, minimized_flag(), i as int, n);
                    lemma_flag_bucket_same(s, self.viewer.minimized_note_ids@, minimized_flag(), i as int);
                    lemma_hidden_after_update(s, self.viewer.hidden_note_ids@, i as int, n);
                    lemma_add_id(b, id);
                    if on {
                        let nb = self.viewer.pinned_note_ids@;
                        assert(nb.contains(id));
                    }
                }
            },
        }
    }

    /// Flips the pinned flag of note `id`, reconciling the pinned bucket.
    pub fn toggle_pinned(&mut self, id: u128)
        requires
            old(self).wf(),
        ensures
            final(self).wf(),
            !has_id(old(self).notes@, id) ==> *final(self) == *old(self),
            has_id(old(self).notes@, id) ==> Self::pinned_set(*final(self), *old(self), id,
                !old(self).notes@[pos(old(self).notes@, id)].pinned),
    {
        match find_note(&self.notes, id) {
            None => {},
            Some(i) => {
                let on = !self.notes[i].pinned;
                self.set_pinned(id, on);
            },
        }
    }

    /// Sets the minimized flag of note `id` and reconciles the viewer's
    /// minimized bucket. An unknown id changes nothing.
    pub fn set_minimized(&mut self, id: u128, on: bool)
        requires
            old(self).wf(),
        ensures
            final(self).wf(),
            !has_id(old(self).notes@, id) ==> *final(self) == *old(self),
            has_id(old(self).notes@, id) ==> Self::minimized_set(*final(self), *old(self), id, on),
    {
        match find_note(&self.notes, id) {
            None => {},
            Some(i) => {
                let ghost s = self.notes@;
                let ghost b = self.viewer.minimized_note_ids@;
                self.notes[i].minimized = on;
                if on {
                    push_unique(&mut self.viewer.minimized_note_ids, id);
                } else {
                    remove_every(&mut self.viewer.minimized_note_ids, id);
                }
                proof {
                    let n = Note { minimized: on, ..s[i as int] };
                    assert(self.notes@ == s.update(i as int, n));
                    lemma_bucket_after_update(s, b, minimized_flag(), i as int, n);
                    lemma_bucket_after_update(s, self.viewer.pinned_note_ids@, pinned_flag(), i as int, n);
                    lemma_flag_bucket_same(s, self.viewer.pinned_note_ids@, pinned_flag(), i as int);
                    lemma_hidden_after_update(s, self.viewer.hidden_note_ids@, i as int, n);
                }
            },
        }
    }

    /// Flips the minimized flag of note `id`, reconciling the minimized bucket.
    pub fn toggle_minimized(&mut self, id: u128)
        requires
            old(self).wf(),
        ensures
            final(self).wf(),
            !has_id(old(self).notes@, id) ==> *final(self) == *old(self),
            has_id(old(self).notes@, id) ==> Self::minimized_set(*final(self), *old(self), id,
                !old(self).notes@[pos(old(self).notes@, id)].minimized),
    {
        match find_note(&self.notes, id) {
            None => {},
            Some(i) => {
                let on = !self.notes[i].minimized;
                self.set_minimized(id, on);
            },
        }
    }

    /// Sets the maximized and editing flags of the note at `i`.
    fn set_view_flags(&mut self, i: usize, maximized: bool, is_editing: bool)
        requires
            old(self).wf(),
            i < old(self).notes@.len(),
        ensures
            final(self).wf(),
            final(self).notes@ == old(self).notes@.update(i as int,
                Note { maximized: maximized, is_editing: is_editing, ..old(self).notes@[i as int] }),
            Self::only_notes_changed(*final(self), *old(self)),
    {
        let ghost s = self.notes@;
        self.notes[i].maximized = maximized;
        self.notes[i].is_editing = is_editing;
        proof {
            let n = Note { maximized: maximized, is_editing: is_editing, ..s[i as int] };
            assert(self.notes@ == s.update(i as int, n));
            lemma_keeps_wf(s, self.viewer, i as int, n);
        }
    }

    /// Flips the maximized flag of note `id`, takes the maximized flag off the
    /// note that had the focus before (where that is another note), and gives
    /// the focus to `id`, whether it was maximized or restored.
    pub fn toggle_maximized(&mut self, id: u128)
        requires
            old(self).wf(),
        ensures
            final(self).wf(),
            !has_id(old(self).notes@, id) ==> *final(self) == *old(self),
            has_id(old(self).notes@, id) ==> {
                &&& final(self).notes@ == maximize_step(old(self).notes@, old(self).maximize_focus, id)
                &&& final(self).maximize_focus == Some(id)
                &&& final(self).viewer == old(self).viewer
                &&& final(self).edit_focus == old(self).edit_focus
                &&& final(self).only_pinned == old(self).only_pinned
                &&& final(self).query == old(self).query
            },
    {
        match find_note(&self.notes, id) {
            None => {},
            Some(i) => {
                let ghost s0 = self.notes@;
                let m = !self.notes[i].maximized;
                let e = self.notes[i].is_editing;
                self.set_view_flags(i, m, e);
                let ghost s1 = self.notes@;
                proof {
                    assert(s1 == s0.update(i as int, Note { maximized: m, ..s0[i as int] }));
                }
                match self.maximize_focus {
                    Some(p) => {
                        if p != id {
                            match find_note(&self.notes, p) {
                                Some(j) => {
                                    proof {
                                        assert(s0[j as int].id == p);
                                        assert(has_id(s0, p));
                                        lemma_pos_unique(s0, p, j as int);
                                    }
                                    let e2 = self.notes[j].is_editing;
                                    self.set_view_flags(j, false, e2);
                                },
                                None => {
                                    proof {
                                        if has_id(s0, p) {
                                            let k = pos(s0, p);
                                            assert(s1[k].id == p);
                                        }
                                    }
                                },
                            }
                        }
                    },
                    None => {},
                }
                self.maximize_focus = Some(id);
            },
        }
    }

    /// Flips the editing flag of note `id` when `requester` is its author, takes
    /// the editing flag off the note that had the edit focus before (where that
    /// is another note) and gives the edit focus to `id`. Anyone else's request
    /// changes nothing.
    pub fn toggle_editing(&mut self, id: u128, requester: u128)
        requires
            old(self).wf(),
        ensures
            final(self).wf(),
            !has_id(old(self).notes@, id) ==> *final(self) == *old(self),
            has_id(old(self).notes@, id) && old(self).notes@[pos(old(self).notes@, id)].user.id != requester
                ==> *final(self) == *old(self),
            has_id(old(self).notes@, id) && old(self).notes@[pos(old(self).notes@, id)].user.id == requester
                ==> {
                &&& final(self).notes@ == edit_step(old(self).notes@, old(self).edit_focus, id)
                &&& final(self).edit_focus == Some(id)
                &&& final(self).viewer == old(self).viewer
                &&& final(self).maximize_focus == old(self).maximize_focus
                &&& final(self).only_pinned == old(self).only_pinned
                &&& final(self).query == old(self).query
            },
    {
        match find_note(&self.notes, id) {
            None => {},
            Some(i) => {
                if self.notes[i].user.id != requester {
                    return;
                }
                let ghost s0 = self.notes@;
                let m = self.notes[i].maximized;
                let e = !self.notes[i].is_editing;
                self.set_view_flags(i, m, e);
                let ghost s1 = self.notes@;
                proof {
                    assert(s1 == s0.update(i as int, Note { is_editing: e, ..s0[i as int] }));
                }
                match self.edit_focus {
                    Some(p) => {
                        if p != id {
                            match find_note(&self.notes, p) {
                                Some(j) => {
                                    proof {
                                        assert(s0[j as int].id == p);
                                        assert(has_id(s0, p));
                                        lemma_pos_unique(s0, p, j as int);
                                    }
                                    let m2 = self.notes[j].maximized;
                                    self.set_view_flags(j, m2, false);
                                },
                                None => {
                                    proof {
                                        if has_id(s0, p) {
                                            let k = pos(s0, p);
                                            assert(s1[k].id == p);
                                        }
                                    }
                                },
                            }
                        }
                    },
                    None => {},
                }
                self.edit_focus = Some(id);
            },
        }
    }
}

/// The notes after the maximize action on `id`, with `focus` the note that had
/// the maximize focus.
pub open spec fn maximize_step(s: Seq<Note>, focus: Option<u128>, id: u128) -> Seq<Note> {
    let i = pos(s, id);
    let s1 = s.update(i, Note { maximized: !s[i].maximized, ..s[i] });
    match focus {
        Some(p) => if p != id && has_id(s, p) {
            let j = pos(s, p);
            s1.update(j, Note { maximized: false, ..s1[j] })
        } else {
            s1
        },
        None => s1,
    }
}

/// The notes after the edit action on `id`, with `focus` the note that had the
/// edit focus.
pub open spec fn edit_step(s: Seq<Note>, focus: Option<u128>, id: u128) -> Seq<Note> {
    let i = pos(s, id);
    let s1 = s.update(i, Note { is_editing: !s[i].is_editing, ..s[i] });
    match focus {
        Some(p) => if p != id && has_id(s, p) {
            let j = pos(s, p);
            s1.update(j, Note { is_editing: false, ..s1[j] })
        } else {
            s1
        },
        None => s1,
    }
}

/// In a store with unique ids, the note with id `x` stands at `k`.
pub proof fn lemma_pos_unique(s: Seq<Note>, x: u128, k: int)
    requires
        unique_ids(s),
        0 <= k < s.len(),
        s[k].id == x,
    ensures
        pos(s, x) == k,
{
    assert(has_id(s, x));
    let j = pos(s, x);
    assert(s[j].id == x);
}

/// Changing one note in place, keeping its id and its pinned and minimized
/// flags, keeps the store well formed.
proof fn lemma_keeps_wf(s: Seq<Note>, v: User, i: int, n: Note)
    requires
        unique_ids(s),
        bucket_matches(s, v.pinned_note_ids@, pinned_flag()),
        bucket_matches(s, v.minimized_note_ids@, minimized_flag()),
        hidden_ok(s, v.hidden_note_ids@),
        0 <= i < s.len(),
        n.id == s[i].id,
        n.pinned == s[i].pinned,
        n.minimized == s[i].minimized,
    ensures
        unique_ids(s.update(i, n)),
        bucket_matches(s.update(i, n), v.pinned_note_ids@, pinned_flag()),
        bucket_matches(s.update(i, n), v.minimized_note_ids@, minimized_flag()),
        hidden_ok(s.update(i, n), v.hidden_note_ids@),
        forall|x: u128| has_id(s, x) == #[trigger] has_id(s.update(i, n), x),
{
    lemma_bucket_after_update(s, v.pinned_note_ids@, pinned_flag(), i, n);
    lemma_flag_bucket_same(s, v.pinned_note_ids@, pinned_flag(), i);
    lemma_bucket_after_update(s, v.minimized_note_ids@, minimized_flag(), i, n);
    lemma_flag_bucket_same(s, v.minimized_note_ids@, minimized_flag(), i);
    lemma_hidden_after_update(s, v.hidden_note_ids@, i, n);
}


/// `a` is the note `b` after an edit of its text at `at`: same identity and
/// flags, title `title`, body `body`.
pub open spec fn text_edited(a: Note, b: Note, title: Seq<char>, body: Seq<char>, at: TimeDate) -> bool {
    &&& crate::note::same_identity(a, b)
    &&& a.title@ == title
    &&& a.body@ == body
    &&& a.last_edit == Some(at)
    &&& a.pinned == b.pinned
    &&& a.maximized == b.maximized
    &&& a.minimized == b.minimized
    &&& a.is_editing == b.is_editing
}

/// Appending a note with a new id keeps the store well formed, the buckets
/// taking in its id where its flags are on.
proof fn lemma_push_keeps_wf(s: Seq<Note>, v: User, n: Note)
    requires
        unique_ids(s),
        bucket_matches(s, v.pinned_note_ids@, pinned_flag()),
        bucket_matches(s, v.minimized_note_ids@, minimized_flag()),
        hidden_ok(s, v.hidden_note_ids@),
        !has_id(s, n.id),
    ensures
        unique_ids(s.push(n)),
        bucket_matches(s.push(n), if n.pinned { add_id(v.pinned_note_ids@, n.id) } else { v.pinned_note_ids@ }, pinned_flag()),
        bucket_matches(s.push(n), if n.minimized { add_id(v.minimized_note_ids@, n.id) } else { v.minimized_note_ids@ }, minimized_flag()),
        hidden_ok(s.push(n), v.hidden_note_ids@),
{
    lemma_bucket_after_push(s, v.pinned_note_ids@, pinned_flag(), n);
    lemma_bucket_after_push(s, v.minimized_note_ids@, minimized_flag(), n);
    let t = s.push(n);
    assert forall|y: u128| #[trigger] v.hidden_note_ids@.contains(y) implies has_id(t, y) by {
        assert(has_id(s, y));
        let k = choose|k: int| 0 <= k < s.len() && #[trigger] s[k].id == y;
        assert(t[k].id == y);
    }
    assert forall|j: int, k: int| 0 <= j < t.len() && 0 <= k < t.len() && j != k
        implies #[trigger] t[j].id != #[trigger] t[k].id by {
        if j == s.len() {
            assert(s[k].id == t[k].id);
        } else if k == s.len() {
            assert(s[j].id == t[j].id);
        } else {
            assert(s[j].id != s[k].id);
        }
    }
}

proof fn lemma_bucket_after_push(s: Seq<Note>, b: Seq<u128>, f: spec_fn(Note) -> bool, n: Note)
    requires
        bucket_matches(s, b, f),
        !has_id(s, n.id),
    ensures
        bucket_matches(s.push(n), if f(n) { add_id(b, n.id) } else { b }, f),
{
    let t = s.push(n);
    let b2 = if f(n) { add_id(b, n.id) } else { b };
    lemma_add_id(b, n.id);
    assert(!b.contains(n.id));
    assert forall|j: int| 0 <= j < t.len() implies (f(#[trigger] t[j]) <==> b2.contains(t[j].id)) by {
        if j < s.len() {
            assert(t[j] == s[j]);
            assert(s[j].id != n.id);
        }
    }
    assert forall|y: u128| #[trigger] b2.contains(y) implies has_id(t, y) by {
        if y == n.id {
            assert(t[s.len() as int].id == y);
        } else {
            assert(has_id(s, y));
            let k = choose|k: int| 0 <= k < s.len() && #[trigger] s[k].id == y;
            assert(t[k].id == y);
        }
    }
}

/// Removing the note at `i` and its id from the buckets keeps the store well
/// formed.
proof fn lemma_remove_keeps_wf(s: Seq<Note>, v: User, i: int)
    requires
        unique_ids(s),
        bucket_matches(s, v.pinned_note_ids@, pinned_flag()),
        bucket_matches(s, v.minimized_note_ids@, minimized_flag()),
        hidden_ok(s, v.hidden_note_ids@),
        0 <= i < s.len(),
    ensures
        unique_ids(s.remove(i)),
        bucket_matches(s.remove(i), remove_id(v.pinned_note_ids@, s[i].id), pinned_flag()),
        bucket_matches(s.remove(i), remove_id(v.minimized_note_ids@, s[i].id), minimized_flag()),
        hidden_ok(s.remove(i), remove_id(v.hidden_note_ids@, s[i].id)),
{
    let t = s.remove(i);
    let x = s[i].id;
    assert forall|y: u128| has_id(s, y) && y != x implies #[trigger] has_id(t, y) by {
        let k = choose|k: int| 0 <= k < s.len() && #[trigger] s[k].id == y;
        if k < i {
            assert(t[k].id == y);
        } else {
            assert(k != i);
            assert(t[k - 1].id == y);
        }
    }
    assert forall|j: int, k: int| 0 <= j < t.len() && 0 <= k < t.len() && j != k
        implies #[trigger] t[j].id != #[trigger] t[k].id by {
        let jj = if j < i { j } else { j + 1 };
        let kk = if k < i { k } else { k + 1 };
        assert(t[j] == s[jj] && t[k] == s[kk]);
    }
    lemma_bucket_after_remove(s, v.pinned_note_ids@, pinned_flag(), i);
    lemma_bucket_after_remove(s, v.minimized_note_ids@, minimized_flag(), i);
    lemma_remove_id(v.hidden_note_ids@, x);
    assert forall|y: u128| #[trigger] remove_id(v.hidden_note_ids@, x).contains(y) implies has_id(t, y) by {
        assert(v.hidden_note_ids@.contains(y));
    }
}

proof fn lemma_bucket_after_remove(s: Seq<Note>, b: Seq<u128>, f: spec_fn(Note) -> bool, i: int)
    requires
        bucket_matches(s, b, f),
        unique_ids(s),
        0 <= i < s.len(),
    ensures
        bucket_matches(s.remove(i), remove_id(b, s[i].id), f),
{
    let t = s.remove(i);
    let x = s[i].id;
    let b2 = remove_id(b, x);
    lemma_remove_id(b, x);
    assert forall|j: int| 0 <= j < t.len() implies (f(#[trigger] t[j]) <==> b2.contains(t[j].id)) by {
        let jj = if j < i { j } else { j + 1 };
        assert(t[j] == s[jj]);
        assert(s[jj].id != x);
    }
    assert forall|y: u128| #[trigger] b2.contains(y) implies has_id(t, y) by {
        assert(has_id(s, y));
        let k = choose|k: int| 0 <= k < s.len() && #[trigger] s[k].id == y;
        if k < i {
            assert(t[k].id == y);
        } else {
            assert(t[k - 1].id == y);
        }
    }
}

impl NoteStore {
    /// `a` is `b` with the title of note `id` set to `t` at `at`.
    pub open spec fn title_updated(a: NoteStore, b: NoteStore, id: u128, t: Seq<char>, at: TimeDate) -> bool {
        let i = pos(b.notes@, id);
        &&& same_but_at(a.notes@, b.notes@, i)
        &&& text_edited(a.notes@[i], b.notes@[i], t, b.notes@[i].body@, at)
        &&& Self::only_notes_changed(a, b)
    }

    /// `a` is `b` with the body of note `id` set to `t` at `at`.
    pub open spec fn body_updated(a: NoteStore, b: NoteStore, id: u128, t: Seq<char>, at: TimeDate) -> bool {
        let i = pos(b.notes@, id);
        &&& same_but_at(a.notes@, b.notes@, i)
        &&& text_edited(a.notes@[i], b.notes@[i], b.notes@[i].title@, t, at)
        &&& Self::only_notes_changed(a, b)
    }

    /// Sets the title of note `id` to the normalised `text` and records `at` as
    /// its last edit. Titles over the advisory limit are kept. An unknown id
    /// changes nothing.
    pub fn update_title_at(&mut self, id: u128, text: String, at: TimeDate)
        requires
            old(self).wf(),
        ensures
            final(self).wf(),
            !has_id(old(self).notes@, id) ==> *final(self) == *old(self),
            has_id(old(self).notes@, id) ==> Self::title_updated(*final(self), *old(self), id, normalized(text@), at),
    {
        let t = filter_input(text);
        match find_note(&self.notes, id) {
            None => {},
            Some(i) => {
                let ghost s = self.notes@;
                self.notes[i].update_title_at(t, at);
                proof {
                    lemma_keeps_wf(s, self.viewer, i as int, self.notes@[i as int]);
                    assert(self.notes@ == s.update(i as int, self.notes@[i as int]));
                }
            },
        }
    }

    /// Sets the body of note `id` to the normalised `text` and records `at` as
    /// its last edit. Bodies over the advisory limit are kept. An unknown id
    /// changes nothing.
    pub fn update_body_at(&mut self, id: u128, text: String, at: TimeDate)
        requires
            old(self).wf(),
        ensures
            final(self).wf(),
            !has_id(old(self).notes@, id) ==> *final(self) == *old(self),
            has_id(old(self).notes@, id) ==> Self::body_updated(*final(self), *old(self), id, normalized(text@), at),
    {
        let t = filter_input(text);
        match find_note(&self.notes, id) {
            None => {},
            Some(i) => {
                let ghost s = self.notes@;
                self.notes[i].update_body_at(t, at);
                proof {
                    lemma_keeps_wf(s, self.viewer, i as int, self.notes@[i as int]);
                    assert(self.notes@ == s.update(i as int, self.notes@[i as int]));
                }
            },
        }
    }

    /// `update_title_at` with the current instant.
    pub fn update_title(&mut self, id: u128, text: String)
        requires
            old(self).wf(),
        ensures
            final(self).wf(),
            !has_id(old(self).notes@, id) ==> *final(self) == *old(self),
            has_id(old(self).notes@, id) ==> exists|at: TimeDate|
                #[trigger] Self::title_updated(*final(self), *old(self), id, normalized(text@), at),
    {
        let at = TimeDate::now();
        self.update_title_at(id, text, at);
    }

    /// `update_body_at` with the current instant.
    pub fn update_body(&mut self, id: u128, text: String)
        requires
            old(self).wf(),
        ensures
            final(self).wf(),
            !has_id(old(self).notes@, id) ==> *final(self) == *old(self),
            has_id(old(self).notes@, id) ==> exists|at: TimeDate|
                #[trigger] Self::body_updated(*final(self), *old(self), id, normalized(text@), at),
    {
        let at = TimeDate::now();
        self.update_body_at(id, text, at);
    }

    /// Appends `note` unless a note with its id is there already; the buckets
    /// take in its id where its pinned or minimized flag is on.
    pub fn add_note(&mut self, note: Note) -> (r: bool)
        requires
            old(self).wf(),
        ensures
            final(self).wf(),
            r == !has_id(old(self).notes@, note.id),
            !r ==> *final(self) == *old(self),
            r ==> {
                &&& final(self).notes@ == old(self).notes@.push(note)
                &&& final(self).viewer.pinned_note_ids@ == (if note.pinned {
                    add_id(old(self).viewer.pinned_note_ids@, note.id) } else { old(self).viewer.pinned_note_ids@ })
                &&& final(self).viewer.minimized_note_ids@ == (if note.minimized {
                    add_id(old(self).viewer.minimized_note_ids@, note.id) } else { old(self).viewer.minimized_note_ids@ })
                &&& Self::same_viewer_identity(final(self).viewer, old(self).viewer)
                &&& Self::same_settings(*final(self), *old(self))
            },
    {
        if find_note(&self.notes, note.id).is_some() {
            return false;
        }
        let ghost s = self.notes@;
        let ghost v = self.viewer;
        let id = note.id;
        let p = note.pinned;
        let m = note.minimized;
        self.notes.push(note);
        if p {
            push_unique(&mut self.viewer.pinned_note_ids, id);
        }
        if m {
            push_unique(&mut self.viewer.minimized_note_ids, id);
        }
        proof {
            lemma_push_keeps_wf(s, v, note);
        }
        true
    }

    /// The note with id `id` at the end of the store is a new empty note by the
    /// viewer of `b`, appended to the notes of `b`.
    pub open spec fn created(a: NoteStore, b: NoteStore, id: u128) -> bool {
        let n = a.notes@.last();
        &&& a.notes@ == b.notes@.push(n)
        &&& n.id == id
        &&& n.title@.len() == 0
        &&& n.body@.len() == 0
        &&& n.last_edit.is_none()
        &&& !n.pinned && !n.maximized && !n.minimized && !n.is_editing
        &&& crate::user::same_user(n.user, b.viewer)
        &&& crate::user::same_user(a.viewer, b.viewer)
        &&& Self::same_settings(a, b)
    }

    /// Appends an empty note by the viewer with the given id, creation date and
    /// colour; returns its id. A guest viewer creates nothing, nor does an id
    /// that the store holds already.
    pub fn create_note_with(&mut self, id: u128, date: TimeDate, colour: String) -> (r: Option<u128>)
        requires
            old(self).wf(),
        ensures
            final(self).wf(),
            r.is_some() <==> (!old(self).viewer.guest && !has_id(old(self).notes@, id)),
            r.is_none() ==> *final(self) == *old(self),
            r.is_some() ==> {
                &&& r == Some(id)
                &&& Self::created(*final(self), *old(self), id)
                &&& final(self).notes@.last().date == date
                &&& final(self).notes@.last().colour@ == colour@
            },
    {
        if self.viewer.is_guest() {
            return None;
        }
        let n = Note::from_parts(id, String::new(), &self.viewer, String::new(), date, colour);
        let ghost gn = n;
        if self.add_note(n) {
            proof {
                assert(self.notes@.last() == gn);
            }
            Some(id)
        } else {
            None
        }
    }

    /// Creates an empty note by the viewer, with a fresh random id, the current
    /// instant and a pastel colour, and appends it; returns its id. A guest
    /// viewer creates nothing; any other viewer of an empty store gets a note.
    pub fn create_note(&mut self) -> (r: Option<u128>)
        requires
            old(self).wf(),
        ensures
            final(self).wf(),
            r.is_some() ==> !old(self).viewer.guest,
            !old(self).viewer.guest && old(self).notes@.len() == 0 ==> r.is_some(),
            r.is_none() ==> *final(self) == *old(self),
            r matches Some(id) ==> !has_id(old(self).notes@, id) && Self::created(*final(self), *old(self), id),
    {
        let id = fresh_id();
        let colour = get_new_pastel_colour();
        self.create_note_with(id, TimeDate::now(), colour)
    }

    /// Removes note `id` from the store, takes its id out of every bucket of the
    /// viewer and drops a focus that pointed at it. An unknown id changes
    /// nothing.
    pub fn delete_note(&mut self, id: u128)
        requires
            old(self).wf(),
        ensures
            final(self).wf(),
            !has_id(old(self).notes@, id) ==> *final(self) == *old(self),
            has_id(old(self).notes@, id) ==> {
                &&& final(self).notes@ == old(self).notes@.remove(pos(old(self).notes@, id))
                &&& final(self).viewer.pinned_note_ids@ == remove_id(old(self).viewer.pinned_note_ids@, id)
                &&& final(self).viewer.minimized_note_ids@ == remove_id(old(self).viewer.minimized_note_ids@, id)
                &&& final(self).viewer.hidden_note_ids@ == remove_id(old(self).viewer.hidden_note_ids@, id)
                &&& final(self).viewer.username == old(self).viewer.username
                &&& final(self).viewer.creation_date == old(self).viewer.creation_date
                &&& final(self).viewer.id == old(self).viewer.id
                &&& final(self).viewer.guest == old(self).viewer.guest
                &&& final(self).maximize_focus == (if old(self).maximize_focus == Some(id) { None } else { old(self).maximize_focus })
                &&& final(self).edit_focus == (if old(self).edit_focus == Some(id) { None } else { old(self).edit_focus })
                &&& final(self).only_pinned == old(self).only_pinned
                &&& final(self).query == old(self).query
            },
    {
        match find_note(&self.notes, id) {
            None => {},
            Some(i) => {
                let ghost s = self.notes@;
                let ghost v = self.viewer;
                self.notes.remove(i);
                remove_every(&mut self.viewer.pinned_note_ids, id);
                remove_every(&mut self.viewer.minimized_note_ids, id);
                remove_every(&mut self.viewer.hidden_note_ids, id);
                match self.maximize_focus {
                    Some(p) => if p == id { self.maximize_focus = None; },
                    None => {},
                }
                match self.edit_focus {
                    Some(p) => if p == id { self.edit_focus = None; },
                    None => {},
                }
                proof {
                    lemma_remove_keeps_wf(s, v, i as int);
                }
            },
        }
    }

    /// Puts note `id` in the viewer's hidden bucket, once; hidden notes leave
    /// the visible list. An unknown id changes nothing.
    pub fn hide_note(&mut self, id: u128)
        requires
            old(self).wf(),
        ensures
            final(self).wf(),
            !has_id(old(self).notes@, id) ==> *final(self) == *old(self),
            has_id(old(self).notes@, id) ==> {
                &&& final(self).notes == old(self).notes
                &&& final(self).viewer.hidden_note_ids@ == add_id(old(self).viewer.hidden_note_ids@, id)
                &&& final(self).viewer.pinned_note_ids@ == old(self).viewer.pinned_note_ids@
                &&& final(self).viewer.minimized_note_ids@ == old(self).viewer.minimized_note_ids@
                &&& final(self).viewer.username@ == old(self).viewer.username@
                &&& final(self).viewer.creation_date == old(self).viewer.creation_date
                &&& final(self).viewer.id == old(self).viewer.id
                &&& final(self).viewer.guest == old(self).viewer.guest
                &&& Self::same_settings(*final(self), *old(self))
            },
    {
        match find_note(&self.notes, id) {
            None => {},
            Some(i) => {
                let ghost h = self.viewer.hidden_note_ids@;
                self.notes[i].hide_from(&mut self.viewer);
                proof {
                    lemma_add_id(h, id);
                }
            },
        }
    }

    /// Sets the search query, kept as typed.
    pub fn set_query(&mut self, text: String)
        ensures
            final(self).query == text,
            final(self).notes == old(self).notes,
            final(self).viewer == old(self).viewer,
            final(self).maximize_focus == old(self).maximize_focus,
            final(self).edit_focus == old(self).edit_focus,
            final(self).only_pinned == old(self).only_pinned,
    {
        self.query = text;
    }

    /// Sets the pin-only switch.
    pub fn set_only_pinned(&mut self, on: bool)
        ensures
            final(self).only_pinned == on,
            final(self).notes == old(self).notes,
            final(self).viewer == old(self).viewer,
            final(self).maximize_focus == old(self).maximize_focus,
            final(self).edit_focus == old(self).edit_focus,
            final(self).query == old(self).query,
    {
        self.only_pinned = on;
    }

    /// The filter mode that the pin-only switch and the query select.
    pub fn mode(&self) -> (r: NotesMode)
        ensures
            r == self.mode_spec(),
    {
        NotesMode::from_inputs(self.only_pinned, self.query.clone())
    }

    /// The ids of the notes to show, in display order: those that pass the
    /// current mode and that the viewer has not hidden.
    pub fn visible(&self) -> (r: Vec<u128>)
        ensures
            r@ == visible_ids(self.notes@, self.mode_spec(), self.viewer.hidden_note_ids@),
    {
        let mode = self.mode();
        visible_for(&self.notes, &mode, &self.viewer.hidden_note_ids)
    }
}


/// Pinning a note that is pinned already changes nothing: after any number of
/// pins in a row its id stands in the pinned bucket exactly once.
pub proof fn lemma_pin_repeated(b: Seq<u128>, id: u128)
    requires
        b.no_duplicates(),
    ensures
        flag_bucket(flag_bucket(b, id, true), id, true) == flag_bucket(b, id, true),
        occurs_once(flag_bucket(b, id, true), id),
{
    lemma_add_id(b, id);
    let c = add_id(b, id);
    assert(c.contains(id));
}

/// Toggling the pin of a note twice gives back the notes as they were, and the
/// pinned bucket holds the same ids; where the note was unpinned, the bucket is
/// the same sequence too.
pub proof fn lemma_toggle_pinned_twice(s0: NoteStore, s1: NoteStore, s2: NoteStore, id: u128)
    requires
        s0.wf(),
        s1.wf(),
        has_id(s0.notes@, id),
        NoteStore::pinned_set(s1, s0, id, !s0.notes@[pos(s0.notes@, id)].pinned),
        NoteStore::pinned_set(s2, s1, id, !s1.notes@[pos(s1.notes@, id)].pinned),
    ensures
        s2.notes@ == s0.notes@,
        s2.viewer.pinned_note_ids@.to_set() == s0.viewer.pinned_note_ids@.to_set(),
        !s0.notes@[pos(s0.notes@, id)].pinned ==> s2.viewer.pinned_note_ids@ == s0.viewer.pinned_note_ids@,
        s2.viewer.minimized_note_ids == s0.viewer.minimized_note_ids,
{
    let i = pos(s0.notes@, id);
    assert(s0.notes@[i].id == id);
    assert(s1.notes@[i].id == id);
    lemma_pos_unique(s1.notes@, id, i);
    let p = s0.notes@[i].pinned;
    assert(s2.notes@ =~= s0.notes@);
    let b = s0.viewer.pinned_note_ids@;
    assert(b.contains(id) == p) by {
        assert(pinned_flag()(s0.notes@[i]) <==> b.contains(s0.notes@[i].id));
    }
    let b1 = flag_bucket(b, id, !p);
    lemma_add_id(b, id);
    lemma_remove_id(b, id);
    lemma_add_id(b1, id);
    lemma_remove_id(b1, id);
    if p {
        assert(s2.viewer.pinned_note_ids@.to_set() =~= b.to_set());
    } else {
        assert(b1 == b.push(id));
        assert(b1.drop_last() =~= b);
        assert(remove_id(b1, id) == remove_id(b, id));
    }
}

} // verus!
