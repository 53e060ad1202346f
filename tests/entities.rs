use notes_core::display::{set_color_from_state, state_into_height, MinimumNoteHeight, TextColorState};
use notes_core::note::{get_new_pastel_colour, rgb_colour, Note, PersistError};
use notes_core::record::SerializedNote;
use notes_core::text::{filter_input, pad_minute};
use notes_core::time::{clock_text, join_datetime, TimeDate};
use notes_core::user::User;

#[test]
fn time_label_week_boundary() {
    let t = TimeDate::from_epoch(1_000_000);
    assert_eq!(t.format_time_at(1_000_000 + 604_801, Some((9, 5))), "");
    assert_eq!(t.format_time_at(1_000_000 + 604_800, Some((9, 5))), "9:05");
    assert_eq!(t.format_time_at(1_000_000 + 604_799, Some((9, 5))), "9:05");
    assert_eq!(t.format_time_at(1_000_000 + 604_799, None), "");
}

#[test]
fn clock_labels() {
    assert_eq!(clock_text(13, 45), "13:45");
    assert_eq!(clock_text(0, 0), "0:00");
    assert_eq!(pad_minute(7), "07");
    assert_eq!(pad_minute(10), "10");
}

#[test]
fn format_time_now_and_long_ago() {
    let now = TimeDate::now();
    let label = now.format_time();
    assert!(label.contains(':'));
    let old = TimeDate::from_epoch(now.epoch_time() - 604_801);
    assert_eq!(old.format_time(), "");
    assert_eq!(old.format_datetime(), old.format_date());
    assert!(now.format_datetime().contains(" @ "));
}

#[test]
fn format_date_is_a_calendar_date() {
    let d = TimeDate::from_epoch(86_400 * 365).format_date();
    assert_eq!(d.len(), 10);
    assert_eq!(&d[4..5], "-");
    assert_eq!(&d[7..8], "-");
}

#[test]
fn datetime_joining() {
    assert_eq!(join_datetime("2024-01-01".to_string(), "9:05".to_string()), "2024-01-01 @ 9:05");
    assert_eq!(join_datetime("2024-01-01".to_string(), String::new()), "2024-01-01");
}

#[test]
fn timedate_order_and_equality() {
    assert!(TimeDate::from_epoch(1) < TimeDate::from_epoch(2));
    assert_eq!(TimeDate::from_epoch(3), TimeDate::from_epoch(3));
}

#[test]
fn input_filtering() {
    assert_eq!(filter_input("  hi there \t".to_string()), "hi there");
    assert_eq!(filter_input(String::new()), "");
    assert_eq!(filter_input("   ".to_string()), "");
    assert_eq!(filter_input("x".to_string()), "x");
}

#[test]
fn pastel_colours() {
    assert_eq!(rgb_colour(200, 201, 255), "rgb(200, 201, 255)");
    for _ in 0..50 {
        let c = get_new_pastel_colour();
        assert!(c.starts_with("rgb(") && c.ends_with(')'));
        let inner = &c[4..c.len() - 1];
        let parts: Vec<u32> = inner.split(", ").map(|p| p.parse().unwrap()).collect();
        assert_eq!(parts.len(), 3);
        assert!(parts.iter().all(|&v| (200..=255).contains(&v)));
    }
}

#[test]
fn users() {
    let a = User::new_user_with("alice".to_string(), 1, TimeDate::from_epoch(0));
    let mut b = User::new_user_with("someone".to_string(), 1, TimeDate::from_epoch(9));
    b.pinned_note_ids.push(4);
    assert!(a == b);
    let g = User::new_guest();
    assert!(g.is_guest());
    assert_eq!(g.username, "");
    let u = User::new_user("will".to_string());
    assert!(!u.is_guest());
    assert!(u != g);
    let s = b.snapshot();
    assert_eq!(s.pinned_note_ids, vec![4]);
    assert_eq!(s.username, "someone");
}

#[test]
fn new_notes() {
    let u = User::new_user_with("alice".to_string(), 1, TimeDate::from_epoch(0));
    let n = Note::new_with_text("t".to_string(), &u, "b".to_string());
    assert_eq!(n.title, "t");
    assert_eq!(n.body, "b");
    assert_eq!(n.user.id, 1);
    assert!(!n.pinned && !n.maximized && !n.minimized && !n.is_editing);
    assert!(n.last_edit.is_none());
    assert!(n.colour().starts_with("rgb("));
    let e = Note::new(&u);
    assert_eq!(e.title, "");
    assert!(e != n);
    assert_eq!(n.mirror_to_db(), Err(PersistError::NotImplemented));
}

#[test]
fn note_methods() {
    let mut u = User::new_user_with("alice".to_string(), 1, TimeDate::from_epoch(0));
    let mut n = Note::from_parts(3, "a".to_string(), &u, "b".to_string(), TimeDate::from_epoch(10), "c".to_string());
    n.toggle_pinned();
    n.toggle_maximized();
    n.toggle_minimized();
    n.toggle_edit();
    assert!(n.pinned && n.maximized && n.minimized && n.is_editing);
    n.unmaximize();
    n.unedit();
    assert!(!n.maximized && !n.is_editing);
    n.update_title_at("new".to_string(), TimeDate::from_epoch(20));
    assert_eq!(n.title, "new");
    assert_eq!(n.last_edit, Some(TimeDate::from_epoch(20)));
    n.update_body("body".to_string());
    assert_eq!(n.body, "body");
    n.add_pinned(&mut u);
    n.add_pinned(&mut u);
    n.add_minimized(&mut u);
    n.hide_from(&mut u);
    assert_eq!(u.pinned_note_ids, vec![3]);
    assert_eq!(u.minimized_note_ids, vec![3]);
    assert_eq!(u.hidden_note_ids, vec![3]);
    n.remove_pinned(&mut u);
    n.remove_minimized(&mut u);
    assert!(u.pinned_note_ids.is_empty() && u.minimized_note_ids.is_empty());
    let mut notes = vec![n];
    let other = Note::from_parts(4, String::new(), &u, String::new(), TimeDate::from_epoch(0), String::new());
    notes.push(other);
    assert_eq!(notes.len(), 2);
}

#[test]
fn record_round_trip() {
    let mut u = User::new_user_with("alice".to_string(), 1, TimeDate::from_epoch(0));
    u.guest = true;
    u.pinned_note_ids.push(3);
    let mut n = Note::from_parts(3, "a".to_string(), &u, "b".to_string(), TimeDate::from_epoch(10), "c".to_string());
    n.update_title_at("title".to_string(), TimeDate::from_epoch(30));
    n.toggle_pinned();
    n.toggle_minimized();
    n.toggle_maximized();
    n.toggle_edit();
    let back = SerializedNote::from_note(&n).into_normal();
    assert_eq!(back.id, 3);
    assert_eq!(back.title, "title");
    assert_eq!(back.body, "b");
    assert_eq!(back.user.id, 1);
    assert_eq!(back.user.username, "alice");
    assert!(!back.user.guest);
    assert!(back.user.pinned_note_ids.is_empty());
    assert_eq!(back.date, TimeDate::from_epoch(10));
    assert_eq!(back.last_edit, Some(TimeDate::from_epoch(30)));
    assert!(!back.pinned && !back.minimized && !back.maximized && !back.is_editing);
    let again = SerializedNote::from_note(&n).into_normal_with("rgb(1, 2, 3)".to_string());
    assert_eq!(again.colour(), "rgb(1, 2, 3)");
}

#[test]
fn colour_states() {
    assert_eq!(set_color_from_state(60, 100), TextColorState::Warning);
    assert_eq!(set_color_from_state(100, 100), TextColorState::Warning);
    assert_eq!(set_color_from_state(10, 100), TextColorState::Normal);
    assert_eq!(set_color_from_state(0, 0), TextColorState::Limit);
    assert_eq!(TextColorState::Warning.to_string(), "yellow");
    assert_eq!(TextColorState::Normal.to_string(), "white");
    assert_eq!(TextColorState::Limit.to_string(), "red");
    assert_eq!(TextColorState::OverLimit.to_string(), "really red");
}

#[test]
fn note_heights() {
    assert_eq!(state_into_height(true), MinimumNoteHeight::Minimized);
    assert_eq!(state_into_height(false).into_px_height(), "");
    assert_eq!(MinimumNoteHeight::Minimized.into_px_height(), "85px");
}

#[test]
fn advisory_limits() {
    let u = User::new_user_with("alice".to_string(), 1, TimeDate::from_epoch(0));
    let mut n = Note::from_parts(3, "a".repeat(100), &u, "b".repeat(1000), TimeDate::from_epoch(10), String::new());
    assert!(!n.title_over_limit());
    assert!(!n.body_over_limit());
    n.update_title("a".repeat(101));
    n.update_body("b".repeat(1001));
    assert!(n.title_over_limit());
    assert!(n.body_over_limit());
    assert_eq!(n.title.len(), 101);
}

#[test]
fn labels_outside_the_calendar_are_empty() {
    let far = TimeDate::from_epoch(i64::MAX);
    assert_eq!(far.format_date(), "");
    assert_eq!(far.format_time(), "");
    assert_eq!(far.format_datetime(), "");
    let early = TimeDate::from_epoch(i64::MIN);
    assert_eq!(early.format_date(), "");
    assert_eq!(early.format_datetime(), "");
    assert_eq!(TimeDate::from_epoch(8_000_000_000_000).format_date().len() >= 10, true);
    assert_eq!(TimeDate::from_epoch(-8_000_000_000_000).format_date().len() >= 10, true);
}

#[test]
fn unicode_white_space_is_trimmed() {
    assert_eq!(filter_input("\u{3000}\u{a0}note\u{2009}\n".to_string()), "note");
    assert_eq!(filter_input("\u{200b}x".to_string()), "\u{200b}x");
}

#[test]
fn pinning_a_raw_user_twice_keeps_one_entry() {
    let mut u = User::new_user_with("alice".to_string(), 1, TimeDate::from_epoch(0));
    let n = Note::from_parts(3, String::new(), &u, String::new(), TimeDate::from_epoch(0), String::new());
    n.add_pinned(&mut u);
    n.add_pinned(&mut u);
    n.add_pinned(&mut u);
    assert_eq!(u.pinned_note_ids, vec![3]);
    n.hide_from(&mut u);
    n.hide_from(&mut u);
    assert_eq!(u.hidden_note_ids, vec![3]);
}
