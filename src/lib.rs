//! A note store for a single-user note-taking interface: notes, users and their
//! visibility buckets, the pin / minimize / maximize / edit state of each note,
//! and the derivation of the list of notes that is shown for a filter.
pub mod text;
pub mod time;
pub mod user;
pub mod note;
pub mod filter;
pub mod store;
pub mod record;
pub mod display;
