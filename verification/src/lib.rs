//! Logic of a small personal-site backend: sticky notes, an uploaded picture,
//! a cached view of recent music activity and a cached film diary.
//!
//! What is decided here is decided on plain values: what to answer from a
//! cache and what to fetch, what a page of the diary says, which upload to
//! keep, what to run against the table of notes and what to answer once it
//! ran. Talking to the network, the database and the disk is left to the
//! program around this library.

pub mod clock;
pub mod http;
pub mod lastfm;
pub mod letterboxd;
pub mod notes;
pub mod paint;
pub mod text;
