//! Users and their buckets of note ids.
use vstd::prelude::*;
use crate::time::TimeDate;

verus! {

/// A user: identity, guest mode, and three buckets of note ids (pinned,
/// minimized, hidden). A valid user (`wf`) has no repeat in any bucket; the
/// constructors give valid users, the bucket operations keep them valid, and a
/// note store keeps its viewer valid.
pub struct User {
    pub username: String,
    pub creation_date: TimeDate,
    pub pinned_note_ids: Vec<u128>,
    pub minimized_note_ids: Vec<u128>,
    pub hidden_note_ids: Vec<u128>,
    pub id: u128,
    pub guest: bool,
}

/// A bucket with `x` added: unchanged when `x` is already there.
pub open spec fn add_id(b: Seq<u128>, x: u128) -> Seq<u128> {
    if b.contains(x) { b } else { b.push(x) }
}

/// A bucket with every occurrence of `x` taken out, the rest in order.
pub open spec fn remove_id(b: Seq<u128>, x: u128) -> Seq<u128>
    decreases b.len(),
{
    if b.len() == 0 {
        b
    } else {
        let rest = remove_id(b.drop_last(), x);
        if b.last() != x { rest.push(b.last()) } else { rest }
    }
}

/// Membership and repeats in a sequence with one id appended.
pub proof fn lemma_push_ids(s: Seq<u128>, a: u128)
    ensures
        forall|y: u128| #[trigger] s.push(a).contains(y) <==> (s.contains(y) || y == a),
        s.no_duplicates() && !s.contains(a) ==> s.push(a).no_duplicates(),
{
    assert forall|y: u128| #[trigger] s.push(a).contains(y) <==> (s.contains(y) || y == a) by {
        if s.push(a).contains(y) && y != a {
            let k = choose|k: int| 0 <= k < s.len() + 1 && s.push(a)[k] == y;
            assert(s[k] == y);
        }
        if y == a {
            assert(s.push(a)[s.len() as int] == y);
        }
        if s.contains(y) {
            let k = choose|k: int| 0 <= k < s.len() && s[k] == y;
            assert(s.push(a)[k] == y);
        }
    }
    if s.no_duplicates() && !s.contains(a) {
        assert forall|i: int, j: int| 0 <= i < s.len() + 1 && 0 <= j < s.len() + 1 && i != j
            implies s.push(a)[i] != s.push(a)[j] by {
            if i == s.len() {
                assert(s[j] != a);
            } else if j == s.len() {
                assert(s[i] != a);
            }
        }
    }
}

/// What `remove_id` keeps: every id of the bucket but `x`, and no repeat appears.
pub proof fn lemma_remove_id(b: Seq<u128>, x: u128)
    ensures
        forall|y: u128| #[trigger] remove_id(b, x).contains(y) <==> (b.contains(y) && y != x),
        b.no_duplicates() ==> remove_id(b, x).no_duplicates(),
        !b.contains(x) ==> remove_id(b, x) == b,
    decreases b.len(),
{
    if b.len() > 0 {
        let d = b.drop_last();
        let l = b.last();
        lemma_remove_id(d, x);
        assert(b =~= d.push(l));
        lemma_push_ids(d, l);
        let r = remove_id(d, x);
        if l != x {
            lemma_push_ids(r, l);
            if b.no_duplicates() {
                assert(!d.contains(l)) by {
                    if d.contains(l) {
                        let k = choose|k: int| 0 <= k < d.len() && d[k] == l;
                        assert(b[k] == b[b.len() - 1]);
                    }
                }
            }
        }
        if b.no_duplicates() {
            assert forall|i: int, j: int| 0 <= i < d.len() && 0 <= j < d.len() && i != j
                implies d[i] != d[j] by {
                assert(b[i] == d[i] && b[j] == d[j]);
            }
        }
    }
}

/// What `add_id` holds: the bucket's ids and `x`, and no repeat appears.
pub proof fn lemma_add_id(b: Seq<u128>, x: u128)
    ensures
        forall|y: u128| #[trigger] add_id(b, x).contains(y) <==> (b.contains(y) || y == x),
        b.no_duplicates() ==> add_id(b, x).no_duplicates(),
{
    lemma_push_ids(b, x);
}

/// `x` occurs in `b` exactly once.
pub open spec fn occurs_once(b: Seq<u128>, x: u128) -> bool {
    &&& b.contains(x)
    &&& forall|i: int, j: int| 0 <= i < b.len() && 0 <= j < b.len() && b[i] == x && b[j] == x ==> i == j
}

/// Adding an id to a bucket without repeats leaves it there exactly once, and
/// adding it again changes nothing.
pub proof fn lemma_add_id_once(b: Seq<u128>, x: u128)
    requires
        b.no_duplicates(),
    ensures
        occurs_once(add_id(b, x), x),
        add_id(add_id(b, x), x) == add_id(b, x),
        add_id(b, x).no_duplicates(),
{
    lemma_add_id(b, x);
    assert(add_id(b, x).contains(x));
}

/// Whether two users hold the same data, field by field.
pub open spec fn same_user(a: User, b: User) -> bool {
    &&& a.username@ == b.username@
    &&& a.creation_date == b.creation_date
    &&& a.pinned_note_ids@ == b.pinned_note_ids@
    &&& a.minimized_note_ids@ == b.minimized_note_ids@
    &&& a.hidden_note_ids@ == b.hidden_note_ids@
    &&& a.id == b.id
    &&& a.guest == b.guest
}

/// Relies on `uuid::Uuid::new_v4` and `Uuid::as_u128`: a random identifier.
#[verifier::external_body]
pub(crate) fn fresh_id() -> (r: u128) {
    uuid::Uuid::new_v4().as_u128()
}

/// Whether `x` is in the bucket.
pub fn bucket_has(b: &Vec<u128>, x: u128) -> (r: bool)
    ensures
        r == b@.contains(x),
{
    let mut i: usize = 0;
    while i < b.len()
        invariant
            i <= b@.len(),
            forall|k: int| 0 <= k < i ==> b@[k] != x,
        decreases b@.len() - i,
    {
        if b[i] == x {
            return true;
        }
        i = i + 1;
    }
    false
}

/// Adds `x` to the bucket unless it is there already.
pub fn push_unique(b: &mut Vec<u128>, x: u128)
    ensures
        final(b)@ == add_id(old(b)@, x),
{
    if !bucket_has(b, x) {
        b.push(x);
    }
}

/// Takes every occurrence of `x` out of the bucket.
pub fn remove_every(b: &mut Vec<u128>, x: u128)
    ensures
        final(b)@ == remove_id(old(b)@, x),
{
    let mut out: Vec<u128> = Vec::new();
    let mut i: usize = 0;
    while i < b.len()
        invariant
            i <= b@.len(),
            out@ == remove_id(b@.take(i as int), x),
        decreases b@.len() - i,
    {
        assert(b@.take(i + 1).drop_last() =~= b@.take(i as int));
        assert(b@.take(i + 1).last() == b@[i as int]);
        if b[i] != x {
            out.push(b[i]);
        }
        i = i + 1;
    }
    assert(b@.take(b@.len() as int) =~= b@);
    *b = out;
}

/// A copy of a bucket.
pub fn copy_ids(b: &Vec<u128>) -> (r: Vec<u128>)
    ensures
        r@ == b@,
{
    let mut out: Vec<u128> = Vec::new();
    let mut i: usize = 0;
    while i < b.len()
        invariant
            i <= b@.len(),
            out@ == b@.take(i as int),
        decreases b@.len() - i,
    {
        out.push(b[i]);
        i = i + 1;
        assert(out@ =~= b@.take(i as int));
    }
    assert(b@.take(b@.len() as int) =~= b@);
    out
}

impl PartialEq for User {
    /// Users are equal when their ids are.
    fn eq(&self, other: &User) -> (r: bool) {
        self.id == other.id
    }
}

impl vstd::std_specs::cmp::PartialEqSpecImpl for User {
    open spec fn obeys_eq_spec() -> bool {
        true
    }

    open spec fn eq_spec(&self, other: &User) -> bool {
        self.id == other.id
    }
}

impl User {
    /// No bucket holds an id twice.
    pub open spec fn wf(&self) -> bool {
        &&& self.pinned_note_ids@.no_duplicates()
        &&& self.minimized_note_ids@.no_duplicates()
        &&& self.hidden_note_ids@.no_duplicates()
    }

    /// A registered user with the given id and creation date and empty buckets.
    pub fn new_user_with(username: String, id: u128, creation_date: TimeDate) -> (r: User)
        ensures
            r.username@ == username@,
            r.creation_date == creation_date,
            r.id == id,
            !r.guest,
            r.wf(),
            r.pinned_note_ids@.len() == 0,
            r.minimized_note_ids@.len() == 0,
            r.hidden_note_ids@.len() == 0,
    {
        User {
            username,
            creation_date,
            pinned_note_ids: Vec::new(),
            minimized_note_ids: Vec::new(),
            hidden_note_ids: Vec::new(),
            id,
            guest: false,
        }
    }

    /// A guest with the given id and creation date, no name and empty buckets.
    pub fn new_guest_with(id: u128, creation_date: TimeDate) -> (r: User)
        ensures
            r.username@.len() == 0,
            r.creation_date == creation_date,
            r.id == id,
            r.guest,
            r.wf(),
            r.pinned_note_ids@.len() == 0,
            r.minimized_note_ids@.len() == 0,
            r.hidden_note_ids@.len() == 0,
    {
        User {
            username: String::new(),
            creation_date,
            pinned_note_ids: Vec::new(),
            minimized_note_ids: Vec::new(),
            hidden_note_ids: Vec::new(),
            id,
            guest: true,
        }
    }

    /// A registered user created now, with a fresh random id.
    pub fn new_user(username: String) -> (r: User)
        ensures
            r.username@ == username@,
            !r.guest,
            r.wf(),
            r.pinned_note_ids@.len() == 0,
            r.minimized_note_ids@.len() == 0,
            r.hidden_note_ids@.len() == 0,
    {
        User::new_user_with(username, fresh_id(), TimeDate::now())
    }

    /// A guest created now, with a fresh random id.
    pub fn new_guest() -> (r: User)
        ensures
            r.username@.len() == 0,
            r.guest,
            r.wf(),
            r.pinned_note_ids@.len() == 0,
            r.minimized_note_ids@.len() == 0,
            r.hidden_note_ids@.len() == 0,
    {
        User::new_guest_with(fresh_id(), TimeDate::now())
    }

    pub fn is_guest(&self) -> (r: bool)
        ensures
            r == self.guest,
    {
        self.guest
    }

    /// A copy of this user, buckets included.
    pub fn snapshot(&self) -> (r: User)
        ensures
            same_user(r, *self),
            self.wf() ==> r.wf(),
    {
        User {
            username: self.username.clone(),
            creation_date: self.creation_date,
            pinned_note_ids: copy_ids(&self.pinned_note_ids),
            minimized_note_ids: copy_ids(&self.minimized_note_ids),
            hidden_note_ids: copy_ids(&self.hidden_note_ids),
            id: self.id,
            guest: self.guest,
        }
    }
}

} // verus!
