//! Notes: their data, their flags and the operations on a single note.
use vstd::prelude::*;
use vstd::string::*;
use crate::text::{decimal, decimal_of, join};
use crate::time::TimeDate;
use crate::user::{User, add_id, remove_id, same_user, fresh_id, push_unique, remove_every, occurs_once, lemma_add_id_once, lemma_remove_id};

verus! {

/// Advisory length of a title: longer titles are kept, the interface warns.
pub const TITLE_CHAR_LIMIT: u64 = 100;

/// Advisory length of a body: longer bodies are kept, the interface warns.
pub const BODY_CHAR_LIMIT: u64 = 1000;

/// A note. Notes are told apart by `id` alone.
pub struct Note {
    pub id: u128,
    pub title: String,
    pub user: User,
    pub body: String,
    pub date: TimeDate,
    pub last_edit: Option<TimeDate>,
    pub pinned: bool,
    pub maximized: bool,
    pub minimized: bool,
    pub is_editing: bool,
    pub colour: String,
}

/// Why a note could not be saved.
#[derive(Clone, Copy, Debug, PartialEq, Eq, Structural)]
pub enum PersistError {
    /// No storage is wired to the store.
    NotImplemented,
}

/// The colour `rgb(r, g, b)` with decimal channels.
pub open spec fn rgb_label(r: nat, g: nat, b: nat) -> Seq<char> {
    seq!['r', 'g', 'b', '('] + decimal_of(r) + seq![',', ' '] + decimal_of(g) + seq![',', ' ']
        + decimal_of(b) + seq![')']
}

/// Whether a colour label is a pastel one: every channel at least 200.
pub open spec fn is_pastel(c: Seq<char>) -> bool {
    exists|r: nat, g: nat, b: nat|
        200 <= r <= 255 && 200 <= g <= 255 && 200 <= b <= 255 && c == #[trigger] rgb_label(r, g, b)
}

/// Whether `a` is `b` with only the listed fields free: every field of the two
/// notes is equal but the title, the body, the last edit and the four flags.
pub open spec fn same_identity(a: Note, b: Note) -> bool {
    &&& a.id == b.id
    &&& same_user(a.user, b.user)
    &&& a.date == b.date
    &&& a.colour@ == b.colour@
}

/// `a` is `b` with the four flags set to the given values.
pub open spec fn with_flags(a: Note, b: Note, pinned: bool, maximized: bool, minimized: bool, is_editing: bool) -> bool {
    &&& same_identity(a, b)
    &&& a.title@ == b.title@
    &&& a.body@ == b.body@
    &&& a.last_edit == b.last_edit
    &&& a.pinned == pinned
    &&& a.maximized == maximized
    &&& a.minimized == minimized
    &&& a.is_editing == is_editing
}

/// Relies on `fastrand::u8` over `200..`: a random value from 200 to 255.
#[verifier::external_body]
fn pastel_channel() -> (r: u8)
    ensures
        r >= 200,
{
    fastrand::u8(200..)
}

/// The label `rgb(r, g, b)` of three channels.
pub fn rgb_colour(r: u8, g: u8, b: u8) -> (c: String)
    ensures
        c@ == rgb_label(r as nat, g as nat, b as nat),
{
    let open = "rgb(";
    let sep = ", ";
    let close = ")";
    proof {
        reveal_strlit("rgb(");
        reveal_strlit(", ");
        reveal_strlit(")");
    }
    let s = String::from_str(open);
    let s = join(s, decimal(r as u64).as_str());
    let s = join(s, sep);
    let s = join(s, decimal(g as u64).as_str());
    let s = join(s, sep);
    let s = join(s, decimal(b as u64).as_str());
    let s = join(s, close);
    assert(s@ =~= rgb_label(r as nat, g as nat, b as nat));
    s
}

/// A random pastel colour: each channel drawn from 200 to 255.
pub fn get_new_pastel_colour() -> (c: String)
    ensures
        is_pastel(c@),
{
    let r = pastel_channel();
    let g = pastel_channel();
    let b = pastel_channel();
    let c = rgb_colour(r, g, b);
    assert(c@ == rgb_label(r as nat, g as nat, b as nat));
    c
}

impl PartialEq for Note {
    /// Notes are equal when their ids are.
    fn eq(&self, other: &Note) -> (r: bool) {
        self.id == other.id
    }
}

impl vstd::std_specs::cmp::PartialEqSpecImpl for Note {
    open spec fn obeys_eq_spec() -> bool {
        true
    }

    open spec fn eq_spec(&self, other: &Note) -> bool {
        self.id == other.id
    }
}

impl Note {
    /// A note from all of its parts: no edit yet, every flag off.
    pub fn from_parts(id: u128, title: String, user: &User, body: String, date: TimeDate, colour: String) -> (r: Note)
        ensures
            r.id == id,
            r.title@ == title@,
            same_user(r.user, *user),
            r.body@ == body@,
            r.date == date,
            r.last_edit.is_none(),
            !r.pinned && !r.maximized && !r.minimized && !r.is_editing,
            r.colour@ == colour@,
    {
        Note {
            id,
            title,
            user: user.snapshot(),
            body,
            date,
            last_edit: None,
            pinned: false,
            maximized: false,
            minimized: false,
            is_editing: false,
            colour,
        }
    }

    /// A note by `user` created now, with a fresh id and a pastel colour.
    pub fn new_with_text(title: String, user: &User, body: String) -> (r: Note)
        ensures
            r.title@ == title@,
            same_user(r.user, *user),
            r.body@ == body@,
            r.last_edit.is_none(),
            !r.pinned && !r.maximized && !r.minimized && !r.is_editing,
            is_pastel(r.colour@),
    {
        let colour = get_new_pastel_colour();
        Note::from_parts(fresh_id(), title, user, body, TimeDate::now(), colour)
    }

    /// An empty note by `user`.
    pub fn new(user: &User) -> (r: Note)
        ensures
            r.title@.len() == 0,
            same_user(r.user, *user),
            r.body@.len() == 0,
            r.last_edit.is_none(),
            !r.pinned && !r.maximized && !r.minimized && !r.is_editing,
            is_pastel(r.colour@),
    {
        Note::new_with_text(String::new(), user, String::new())
    }

    /// Whether the title is longer than the advisory limit, in characters.
    pub fn title_over_limit(&self) -> (r: bool)
        ensures
            r == (self.title@.len() > TITLE_CHAR_LIMIT),
    {
        self.title.as_str().unicode_len() as u64 > TITLE_CHAR_LIMIT
    }

    /// Whether the body is longer than the advisory limit, in characters.
    pub fn body_over_limit(&self) -> (r: bool)
        ensures
            r == (self.body@.len() > BODY_CHAR_LIMIT),
    {
        self.body.as_str().unicode_len() as u64 > BODY_CHAR_LIMIT
    }

    /// The colour label given at creation.
    pub fn colour(&self) -> (r: String)
        ensures
            r@ == self.colour@,
    {
        self.colour.clone()
    }

    /// Sets the title verbatim and records `at` as the last edit.
    pub fn update_title_at(&mut self, new_title: String, at: TimeDate)
        ensures
            same_identity(*final(self), *old(self)),
            final(self).title@ == new_title@,
            final(self).body@ == old(self).body@,
            final(self).last_edit == Some(at),
            final(self).pinned == old(self).pinned,
            final(self).maximized == old(self).maximized,
            final(self).minimized == old(self).minimized,
            final(self).is_editing == old(self).is_editing,
    {
        self.title = new_title;
        self.last_edit = Some(at);
    }

    /// Sets the body verbatim and records `at` as the last edit.
    pub fn update_body_at(&mut self, new_body: String, at: TimeDate)
        ensures
            same_identity(*final(self), *old(self)),
            final(self).title@ == old(self).title@,
            final(self).body@ == new_body@,
            final(self).last_edit == Some(at),
            final(self).pinned == old(self).pinned,
            final(self).maximized == old(self).maximized,
            final(self).minimized == old(self).minimized,
            final(self).is_editing == old(self).is_editing,
    {
        self.body = new_body;
        self.last_edit = Some(at);
    }

    /// Sets the title verbatim, with no length check, and records now as the
    /// last edit.
    pub fn update_title(&mut self, new_title: String)
        ensures
            same_identity(*final(self), *old(self)),
            final(self).title@ == new_title@,
            final(self).body@ == old(self).body@,
            final(self).last_edit.is_some(),
            final(self).pinned == old(self).pinned,
            final(self).maximized == old(self).maximized,
            final(self).minimized == old(self).minimized,
            final(self).is_editing == old(self).is_editing,
    {
        self.update_title_at(new_title, TimeDate::now());
    }

    /// Sets the body verbatim, with no length check, and records now as the last
    /// edit.
    pub fn update_body(&mut self, new_body: String)
        ensures
            same_identity(*final(self), *old(self)),
            final(self).title@ == old(self).title@,
            final(self).body@ == new_body@,
            final(self).last_edit.is_some(),
            final(self).pinned == old(self).pinned,
            final(self).maximized == old(self).maximized,
            final(self).minimized == old(self).minimized,
            final(self).is_editing == old(self).is_editing,
    {
        self.update_body_at(new_body, TimeDate::now());
    }

    /// Records now as the last edit.
    pub fn induce_edit(&mut self)
        ensures
            final(self).with_edit(old(self).last_edit) == *old(self),
            final(self).last_edit.is_some(),
    {
        self.last_edit = Some(TimeDate::now());
    }

    /// This note with its last edit replaced (a view for contracts).
    pub open spec fn with_edit(self, e: Option<TimeDate>) -> Note {
        Note { last_edit: e, ..self }
    }

    /// Saving is not wired to any storage: always `NotImplemented`.
    pub fn mirror_to_db(&self) -> (r: Result<(), PersistError>)
        ensures
            r == Err::<(), PersistError>(PersistError::NotImplemented),
    {
        Err(PersistError::NotImplemented)
    }

    pub fn toggle_pinned(&mut self)
        ensures
            with_flags(*final(self), *old(self), !old(self).pinned, old(self).maximized,
                old(self).minimized, old(self).is_editing),
    {
        self.pinned = !self.pinned;
    }

    pub fn toggle_maximized(&mut self)
        ensures
            with_flags(*final(self), *old(self), old(self).pinned, !old(self).maximized,
                old(self).minimized, old(self).is_editing),
    {
        self.maximized = !self.maximized;
    }

    pub fn unmaximize(&mut self)
        ensures
            with_flags(*final(self), *old(self), old(self).pinned, false, old(self).minimized,
                old(self).is_editing),
    {
        self.maximized = false;
    }

    pub fn toggle_minimized(&mut self)
        ensures
            with_flags(*final(self), *old(self), old(self).pinned, old(self).maximized,
                !old(self).minimized, old(self).is_editing),
    {
        self.minimized = !self.minimized;
    }

    pub fn toggle_edit(&mut self)
        ensures
            with_flags(*final(self), *old(self), old(self).pinned, old(self).maximized,
                old(self).minimized, !old(self).is_editing),
    {
        self.is_editing = !self.is_editing;
    }

    pub fn unedit(&mut self)
        ensures
            with_flags(*final(self), *old(self), old(self).pinned, old(self).maximized,
                old(self).minimized, false),
    {
        self.is_editing = false;
    }

    /// Puts this note's id in the user's hidden bucket, once.
    pub fn hide_from(&self, user: &mut User)
        ensures
            old(user).wf() ==> final(user).wf(),
            old(user).wf() ==> occurs_once(final(user).hidden_note_ids@, self.id),
            final(user).hidden_note_ids@ == add_id(old(user).hidden_note_ids@, self.id),
            final(user).pinned_note_ids@ == old(user).pinned_note_ids@,
            final(user).minimized_note_ids@ == old(user).minimized_note_ids@,
            final(user).username@ == old(user).username@,
            final(user).creation_date == old(user).creation_date,
            final(user).id == old(user).id,
            final(user).guest == old(user).guest,
    {
        push_unique(&mut user.hidden_note_ids, self.id);
        proof {
            if old(user).wf() {
                lemma_add_id_once(old(user).hidden_note_ids@, self.id);
            }
        }
    }

    /// Puts this note's id in the user's pinned bucket, once.
    pub fn add_pinned(&self, user: &mut User)
        ensures
            old(user).wf() ==> final(user).wf(),
            old(user).wf() ==> occurs_once(final(user).pinned_note_ids@, self.id),
            final(user).pinned_note_ids@ == add_id(old(user).pinned_note_ids@, self.id),
            final(user).minimized_note_ids@ == old(user).minimized_note_ids@,
            final(user).hidden_note_ids@ == old(user).hidden_note_ids@,
            final(user).username@ == old(user).username@,
            final(user).creation_date == old(user).creation_date,
            final(user).id == old(user).id,
            final(user).guest == old(user).guest,
    {
        push_unique(&mut user.pinned_note_ids, self.id);
        proof {
            if old(user).wf() {
                lemma_add_id_once(old(user).pinned_note_ids@, self.id);
            }
        }
    }

    /// Takes this note's id out of the user's pinned bucket.
    pub fn remove_pinned(&self, user: &mut User)
        ensures
            old(user).wf() ==> final(user).wf(),
            !final(user).pinned_note_ids@.contains(self.id),
            final(user).pinned_note_ids@ == remove_id(old(user).pinned_note_ids@, self.id),
            final(user).minimized_note_ids@ == old(user).minimized_note_ids@,
            final(user).hidden_note_ids@ == old(user).hidden_note_ids@,
            final(user).username@ == old(user).username@,
            final(user).creation_date == old(user).creation_date,
            final(user).id == old(user).id,
            final(user).guest == old(user).guest,
    {
        remove_every(&mut user.pinned_note_ids, self.id);
        proof {
            lemma_remove_id(old(user).pinned_note_ids@, self.id);
        }
    }

    /// Puts this note's id in the user's minimized bucket, once.
    pub fn add_minimized(&self, user: &mut User)
        ensures
            old(user).wf() ==> final(user).wf(),
            old(user).wf() ==> occurs_once(final(user).minimized_note_ids@, self.id),
            final(user).minimized_note_ids@ == add_id(old(user).minimized_note_ids@, self.id),
            final(user).pinned_note_ids@ == old(user).pinned_note_ids@,
            final(user).hidden_note_ids@ == old(user).hidden_note_ids@,
            final(user).username@ == old(user).username@,
            final(user).creation_date == old(user).creation_date,
            final(user).id == old(user).id,
            final(user).guest == old(user).guest,
    {
        push_unique(&mut user.minimized_note_ids, self.id);
        proof {
            if old(user).wf() {
                lemma_add_id_once(old(user).minimized_note_ids@, self.id);
            }
        }
    }

    /// Takes this note's id out of the user's minimized bucket.
    pub fn remove_minimized(&self, user: &mut User)
        ensures
            old(user).wf() ==> final(user).wf(),
            !final(user).minimized_note_ids@.contains(self.id),
            final(user).minimized_note_ids@ == remove_id(old(user).minimized_note_ids@, self.id),
            final(user).pinned_note_ids@ == old(user).pinned_note_ids@,
            final(user).hidden_note_ids@ == old(user).hidden_note_ids@,
            final(user).username@ == old(user).username@,
            final(user).creation_date == old(user).creation_date,
            final(user).id == old(user).id,
            final(user).guest == old(user).guest,
    {
        remove_every(&mut user.minimized_note_ids, self.id);
        proof {
            lemma_remove_id(old(user).minimized_note_ids@, self.id);
        }
    }
}

} // verus!
