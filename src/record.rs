//! The stored form of notes and users: what is kept when a note is saved.
use vstd::prelude::*;
use crate::note::{Note, get_new_pastel_colour, is_pastel};
use crate::time::TimeDate;
use crate::user::User;

verus! {

/// The stored form of a user: name, creation date and id. Buckets and guest
/// mode are not kept.
pub struct SerializedUser {
    pub username: String,
    pub creation_date: TimeDate,
    pub id: u128,
}

/// The stored form of a note: id, text, author, creation date and last edit.
/// The flags and the colour are not kept.
pub struct SerializedNote {
    pub id: u128,
    pub title: String,
    pub body: String,
    pub user: SerializedUser,
    pub date: TimeDate,
    pub last_edit: Option<TimeDate>,
}

/// `r` is the stored form of user `u`.
pub open spec fn is_user_record_of(r: SerializedUser, u: User) -> bool {
    &&& r.username@ == u.username@
    &&& r.creation_date == u.creation_date
    &&& r.id == u.id
}

/// `u` is the user loaded from `r`: empty buckets, not a guest.
pub open spec fn user_restores(u: User, r: SerializedUser) -> bool {
    &&& u.username@ == r.username@
    &&& u.creation_date == r.creation_date
    &&& u.id == r.id
    &&& u.pinned_note_ids@.len() == 0
    &&& u.minimized_note_ids@.len() == 0
    &&& u.hidden_note_ids@.len() == 0
    &&& !u.guest
}

/// `r` is the stored form of note `n`.
pub open spec fn is_note_record_of(r: SerializedNote, n: Note) -> bool {
    &&& r.id == n.id
    &&& r.title@ == n.title@
    &&& r.body@ == n.body@
    &&& is_user_record_of(r.user, n.user)
    &&& r.date == n.date
    &&& r.last_edit == n.last_edit
}

/// `n` is the note loaded from `r`: every flag off.
pub open spec fn note_restores(n: Note, r: SerializedNote) -> bool {
    &&& n.id == r.id
    &&& n.title@ == r.title@
    &&& n.body@ == r.body@
    &&& user_restores(n.user, r.user)
    &&& n.date == r.date
    &&& n.last_edit == r.last_edit
    &&& !n.pinned && !n.maximized && !n.minimized && !n.is_editing
}

impl SerializedUser {
    pub fn from_user(u: &User) -> (r: SerializedUser)
        ensures
            is_user_record_of(r, *u),
    {
        SerializedUser { username: u.username.clone(), creation_date: u.creation_date, id: u.id }
    }

    /// The user of this record, with empty buckets and guest mode off whatever
    /// the user was when saved.
    pub fn into_normal(self) -> (u: User)
        ensures
            user_restores(u, self),
    {
        User {
            username: self.username,
            creation_date: self.creation_date,
            pinned_note_ids: Vec::new(),
            minimized_note_ids: Vec::new(),
            hidden_note_ids: Vec::new(),
            id: self.id,
            guest: false,
        }
    }
}

impl SerializedNote {
    pub fn from_note(n: &Note) -> (r: SerializedNote)
        ensures
            is_note_record_of(r, *n),
    {
        SerializedNote {
            id: n.id,
            title: n.title.clone(),
            body: n.body.clone(),
            user: SerializedUser::from_user(&n.user),
            date: n.date,
            last_edit: n.last_edit,
        }
    }

    /// The note of this record with the given colour, every flag off.
    pub fn into_normal_with(self, colour: String) -> (n: Note)
        ensures
            note_restores(n, self),
            n.colour@ == colour@,
    {
        Note {
            id: self.id,
            title: self.title,
            body: self.body,
            user: self.user.into_normal(),
            date: self.date,
            last_edit: self.last_edit,
            pinned: false,
            maximized: false,
            minimized: false,
            is_editing: false,
            colour,
        }
    }

    /// The note of this record with a new pastel colour, every flag off.
    pub fn into_normal(self) -> (n: Note)
        ensures
            note_restores(n, self),
            is_pastel(n.colour@),
    {
        let colour = get_new_pastel_colour();
        self.into_normal_with(colour)
    }
}

/// Saving a note and loading it back keeps its id, title, body, author id,
/// creation date and last edit, and turns every flag off.
pub proof fn lemma_record_round_trip(n: Note, r: SerializedNote, back: Note)
    requires
        is_note_record_of(r, n),
        note_restores(back, r),
    ensures
        back.id == n.id,
        back.title@ == n.title@,
        back.body@ == n.body@,
        back.user.id == n.user.id,
        back.user.username@ == n.user.username@,
        back.date == n.date,
        back.last_edit == n.last_edit,
        !back.pinned && !back.maximized && !back.minimized && !back.is_editing,
        !back.user.guest,
{
}

} // verus!
