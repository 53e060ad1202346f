use notes_core::filter::{derive_visible, NotesMode};
use notes_core::note::Note;
use notes_core::store::NoteStore;
use notes_core::time::TimeDate;
use notes_core::user::User;

fn alice() -> User {
    User::new_user_with("alice".to_string(), 7, TimeDate::from_epoch(1_700_000_000))
}

fn note_with(id: u128, title: &str, user: &User) -> Note {
    Note::from_parts(id, title.to_string(), user, String::new(), TimeDate::from_epoch(1_700_000_100), "rgb(200, 200, 200)".to_string())
}

#[test]
fn shopping_note_scenario() {
    let mut store = NoteStore::new(alice());
    let n1 = store.create_note().unwrap();
    store.update_title(n1, "shopping".to_string());
    store.update_body(n1, "milk".to_string());
    store.toggle_pinned(n1);
    store.set_only_pinned(true);
    assert!(matches!(store.mode(), NotesMode::Pinned));
    assert_eq!(store.visible(), vec![n1]);
    store.set_query("zzz".to_string());
    assert_eq!(store.visible(), Vec::<u128>::new());
    store.set_query("shop".to_string());
    assert_eq!(store.visible(), vec![n1]);
    let n = store.get(n1).unwrap();
    assert_eq!(n.title, "shopping");
    assert_eq!(n.body, "milk");
    assert!(n.last_edit.is_some());
}

fn pinned_order(n2_first: bool) -> Vec<u128> {
    let u = alice();
    let mut store = NoteStore::new(u.snapshot());
    if n2_first {
        assert!(store.add_note(note_with(2, "b", &u)));
        assert!(store.add_note(note_with(1, "a", &u)));
    } else {
        assert!(store.add_note(note_with(1, "a", &u)));
        assert!(store.add_note(note_with(2, "b", &u)));
    }
    store.toggle_pinned(1);
    store.toggle_pinned(2);
    store.toggle_minimized(2);
    store.set_only_pinned(true);
    store.visible()
}

#[test]
fn open_pinned_notes_come_before_minimized_pinned_notes() {
    assert_eq!(pinned_order(false), vec![1, 2]);
    assert_eq!(pinned_order(true), vec![1, 2]);
}

#[test]
fn unpinned_notes_come_last_in_store_order() {
    let u = alice();
    let mut store = NoteStore::new(u.snapshot());
    for id in 1..=5u128 {
        assert!(store.add_note(note_with(id, "x", &u)));
    }
    store.toggle_pinned(4);
    store.toggle_pinned(2);
    store.toggle_minimized(2);
    store.toggle_minimized(3);
    assert_eq!(store.visible(), vec![4, 2, 1, 3, 5]);
}

#[test]
fn maximize_focus_moves_to_the_last_note() {
    let u = alice();
    let mut store = NoteStore::new(u.snapshot());
    store.add_note(note_with(1, "a", &u));
    store.add_note(note_with(2, "b", &u));
    store.toggle_maximized(1);
    assert!(store.get(1).unwrap().maximized);
    store.toggle_maximized(2);
    assert!(!store.get(1).unwrap().maximized);
    assert!(store.get(2).unwrap().maximized);
    assert_eq!(store.maximize_focus, Some(2));
    store.toggle_maximized(2);
    assert!(!store.get(2).unwrap().maximized);
    assert_eq!(store.maximize_focus, Some(2));
}

#[test]
fn empty_query_is_normal_mode() {
    let u = alice();
    let mut store = NoteStore::new(u.snapshot());
    store.add_note(note_with(1, "alpha", &u));
    store.add_note(note_with(2, "beta", &u));
    store.toggle_pinned(2);
    let normal = store.visible();
    store.set_query(String::new());
    assert!(matches!(store.mode(), NotesMode::Normal));
    assert_eq!(store.visible(), normal);
    assert_eq!(normal, vec![2, 1]);
    let notes = &store.notes;
    assert_eq!(derive_visible(notes, &NotesMode::Queried(String::new())), derive_visible(notes, &NotesMode::Normal));
    assert_eq!(derive_visible(notes, &NotesMode::PinnedQueried(String::new())), vec![2]);
    store.set_only_pinned(true);
    assert!(matches!(store.mode(), NotesMode::Pinned));
    store.set_query("al".to_string());
    assert!(matches!(store.mode(), NotesMode::PinnedQueried(_)));
    assert_eq!(store.visible(), Vec::<u128>::new());
    store.set_only_pinned(false);
    assert!(matches!(store.mode(), NotesMode::Queried(_)));
    assert_eq!(store.visible(), vec![1]);
}

#[test]
fn query_is_case_sensitive() {
    let u = alice();
    let mut store = NoteStore::new(u.snapshot());
    store.add_note(note_with(1, "Shopping", &u));
    store.set_query("shop".to_string());
    assert_eq!(store.visible(), Vec::<u128>::new());
    store.set_query("Shop".to_string());
    assert_eq!(store.visible(), vec![1]);
}

#[test]
fn toggle_pinned_twice_restores() {
    let u = alice();
    let mut store = NoteStore::new(u.snapshot());
    store.add_note(note_with(1, "a", &u));
    store.add_note(note_with(2, "b", &u));
    store.toggle_pinned(2);
    let before = store.viewer.pinned_note_ids.clone();
    store.toggle_pinned(1);
    assert_eq!(store.viewer.pinned_note_ids, vec![2, 1]);
    store.toggle_pinned(1);
    assert!(!store.get(1).unwrap().pinned);
    assert_eq!(store.viewer.pinned_note_ids, before);
}

#[test]
fn pinning_twice_keeps_one_entry() {
    let u = alice();
    let mut store = NoteStore::new(u.snapshot());
    store.add_note(note_with(1, "a", &u));
    store.set_pinned(1, true);
    store.set_pinned(1, true);
    store.set_pinned(1, true);
    assert_eq!(store.viewer.pinned_note_ids, vec![1]);
    store.set_pinned(1, false);
    assert_eq!(store.viewer.pinned_note_ids, Vec::<u128>::new());
}

#[test]
fn editing_needs_the_author() {
    let u = alice();
    let mut store = NoteStore::new(u.snapshot());
    store.add_note(note_with(1, "a", &u));
    store.add_note(note_with(2, "b", &u));
    store.toggle_editing(1, 99);
    assert!(!store.get(1).unwrap().is_editing);
    assert_eq!(store.edit_focus, None);
    store.toggle_editing(1, 7);
    assert!(store.get(1).unwrap().is_editing);
    store.toggle_editing(2, 7);
    assert!(!store.get(1).unwrap().is_editing);
    assert!(store.get(2).unwrap().is_editing);
    assert_eq!(store.edit_focus, Some(2));
}

#[test]
fn delete_purges_buckets_and_focus() {
    let u = alice();
    let mut store = NoteStore::new(u.snapshot());
    store.add_note(note_with(1, "a", &u));
    store.add_note(note_with(2, "b", &u));
    store.toggle_pinned(1);
    store.toggle_minimized(1);
    store.hide_note(1);
    store.toggle_maximized(1);
    store.delete_note(1);
    assert!(store.get(1).is_none());
    assert_eq!(store.notes.len(), 1);
    assert!(store.viewer.pinned_note_ids.is_empty());
    assert!(store.viewer.minimized_note_ids.is_empty());
    assert!(store.viewer.hidden_note_ids.is_empty());
    assert_eq!(store.maximize_focus, None);
}

#[test]
fn hidden_notes_leave_the_visible_list() {
    let u = alice();
    let mut store = NoteStore::new(u.snapshot());
    store.add_note(note_with(1, "a", &u));
    store.add_note(note_with(2, "b", &u));
    store.hide_note(1);
    store.hide_note(1);
    assert_eq!(store.viewer.hidden_note_ids, vec![1]);
    assert_eq!(store.visible(), vec![2]);
    assert_eq!(derive_visible(&store.notes, &NotesMode::Normal), vec![1, 2]);
}

#[test]
fn unknown_ids_change_nothing() {
    let u = alice();
    let mut store = NoteStore::new(u.snapshot());
    store.add_note(note_with(1, "a", &u));
    store.toggle_pinned(5);
    store.toggle_minimized(5);
    store.toggle_maximized(5);
    store.toggle_editing(5, 7);
    store.update_title(5, "x".to_string());
    store.delete_note(5);
    store.hide_note(5);
    assert_eq!(store.notes.len(), 1);
    assert!(store.viewer.pinned_note_ids.is_empty());
    assert_eq!(store.maximize_focus, None);
    assert_eq!(store.edit_focus, None);
    assert!(store.viewer.hidden_note_ids.is_empty());
}

#[test]
fn duplicate_ids_are_refused() {
    let u = alice();
    let mut store = NoteStore::new(u.snapshot());
    assert!(store.add_note(note_with(1, "a", &u)));
    assert!(!store.add_note(note_with(1, "b", &u)));
    assert_eq!(store.notes.len(), 1);
    assert_eq!(store.get(1).unwrap().title, "a");
}

#[test]
fn a_guest_creates_no_note() {
    let mut store = NoteStore::new(User::new_guest());
    assert_eq!(store.create_note(), None);
    assert!(store.notes.is_empty());
}

#[test]
fn text_is_trimmed_and_not_limited() {
    let u = alice();
    let mut store = NoteStore::new(u.snapshot());
    store.add_note(note_with(1, "a", &u));
    store.update_title_at(1, "  groceries \n".to_string(), TimeDate::from_epoch(5));
    let n = store.get(1).unwrap();
    assert_eq!(n.title, "groceries");
    assert_eq!(n.last_edit, Some(TimeDate::from_epoch(5)));
    let long = "x".repeat(1500);
    store.update_body_at(1, long.clone(), TimeDate::from_epoch(6));
    assert_eq!(store.get(1).unwrap().body, long);
    store.update_title(1, "   ".to_string());
    assert_eq!(store.get(1).unwrap().title, "");
}

#[test]
fn a_new_store_clears_the_viewer_buckets() {
    let mut u = alice();
    u.pinned_note_ids.push(3);
    u.hidden_note_ids.push(4);
    let store = NoteStore::new(u);
    assert!(store.viewer.pinned_note_ids.is_empty());
    assert!(store.viewer.hidden_note_ids.is_empty());
    assert_eq!(store.viewer.id, 7);
    assert_eq!(store.viewer.username, "alice");
}

#[test]
fn create_note_with_given_parts() {
    let mut store = NoteStore::new(alice());
    let t = TimeDate::from_epoch(42);
    assert_eq!(store.create_note_with(9, t, "rgb(1, 2, 3)".to_string()), Some(9));
    assert_eq!(store.create_note_with(9, t, "rgb(1, 2, 3)".to_string()), None);
    assert_eq!(store.notes.len(), 1);
    let n = store.get(9).unwrap();
    assert_eq!(n.title, "");
    assert_eq!(n.body, "");
    assert_eq!(n.date, t);
    assert_eq!(n.user.id, 7);
    assert_eq!(n.colour(), "rgb(1, 2, 3)");
    let mut guest = NoteStore::new(User::new_guest());
    assert_eq!(guest.create_note_with(1, t, String::new()), None);
    assert!(guest.notes.is_empty());
}

#[test]
fn create_note_for_a_registered_viewer() {
    let mut store = NoteStore::new(alice());
    let a = store.create_note().unwrap();
    let b = store.create_note().unwrap();
    assert_ne!(a, b);
    assert_eq!(store.notes.len(), 2);
    assert_eq!(store.notes[1].id, b);
    assert!(store.notes[1].colour().starts_with("rgb("));
}
