//! The decisions behind the endpoints for notes. Each endpoint runs one
//! statement against the table; what is decided here is what to run and what
//! to answer once it ran.

use crate::clock::timestamp_from_secs;
use crate::clock::unix_seconds;
use crate::http::Status;
use crate::notes::model::notes_view;
use crate::notes::model::NoteView;
use crate::notes::model::StickyNote;
use vstd::prelude::*;

verus! {

/// Lists the notes that are not deleted.
pub const SELECT_ACTIVE: &'static str =
    "SELECT id, content, created_at, x, y FROM notes WHERE deleted = FALSE";

/// Lists the notes that are deleted.
pub const SELECT_DELETED: &'static str =
    "SELECT id, content, created_at, x, y FROM notes WHERE deleted = TRUE";

/// Reads the note with the id that is bound.
pub const SELECT_ONE: &'static str = "SELECT id, content, created_at, x, y FROM notes WHERE id = ?";

/// Stores a note; bound are its content, the second of its creation and its
/// two coordinates. Gives the row that was stored.
pub const INSERT: &'static str =
    "INSERT INTO notes (content, created_at, x, y) VALUES (?, ?, ?, ?)
            RETURNING id, content, created_at, x, y";

/// Rewrites a note; bound are its new content, its two new coordinates and
/// its id.
pub const UPDATE: &'static str = "UPDATE notes SET content = ?, x = ?, y = ? WHERE id = ?";

/// Marks the note with the id that is bound as deleted.
pub const DELETE: &'static str = "UPDATE notes SET deleted = TRUE WHERE id = ?";

/// A note that is about to be stored.
#[derive(Debug, PartialEq, Eq)]
pub struct NewNote {
    pub content: String,
    pub created_at: u32,
    pub x: u32,
    pub y: u32,
}

/// An answer to a request that changes the table.
#[derive(Debug, PartialEq, Eq)]
pub enum Reply {
    /// Success, with this note as the body.
    Note(StickyNote),
    /// Failure, with this text as the body.
    Failure(String),
}

impl Reply {
    /// The status that the answer is sent with.
    pub open spec fn status_of(self) -> Status {
        match self {
            Reply::Note(_) => Status::Success,
            Reply::Failure(_) => Status::InternalServerError,
        }
    }

    /// The status that the answer is sent with.
    pub fn status(&self) -> (status: Status)
        ensures
            status == self.status_of(),
    {
        match self {
            Reply::Note(_) => Status::Success,
            Reply::Failure(_) => Status::InternalServerError,
        }
    }
}

/// What a request to create a note leads to at a given reading of the clock:
/// the content, the reading and the coordinates to store, or nothing where
/// the clock gave no timestamp.
pub open spec fn planned(content: Seq<char>, x: u32, y: u32, sys_time: Option<u32>) -> Option<
    (Seq<char>, u32, u32, u32),
> {
    match sys_time {
        Some(now) => Some((content, now, x, y)),
        None => None,
    }
}

/// The rows that a listing answers with: those that were read, or none where
/// the reading failed.
pub open spec fn listed(rows: Option<Seq<NoteView>>) -> Seq<NoteView> {
    match rows {
        Some(notes) => notes,
        None => Seq::empty(),
    }
}

/// The status after a statement that gives no rows.
pub open spec fn status_of(done: bool) -> Status {
    if done {
        Status::Success
    } else {
        Status::InternalServerError
    }
}

/// The rows of a reading that may have failed, as plain values.
pub open spec fn rows_view(rows: Option<Vec<StickyNote>>) -> Option<Seq<NoteView>> {
    match rows {
        Some(notes) => Some(notes_view(notes@)),
        None => None,
    }
}

/// The second that the machine's clock shows, as a 32-bit timestamp; nothing
/// where the clock cannot be read as one.
pub fn get_sys_time() -> Option<u32> {
    timestamp_from_secs(unix_seconds())
}

/// Answers a listing with the rows that were read, or with none where the
/// reading failed.
pub fn list_notes(rows: Option<Vec<StickyNote>>) -> (notes: Vec<StickyNote>)
    ensures
        notes_view(notes@) == listed(rows_view(rows)),
{
    match rows {
        Some(notes) => notes,
        None => {
            let notes: Vec<StickyNote> = Vec::new();
            assert(notes_view(notes@) =~= Seq::<NoteView>::empty());
            notes
        },
    }
}

/// Decides what to store for a request to create a note, given the reading
/// of the clock: the note, or the failure to answer with where the clock
/// gave no timestamp.
pub fn plan_note(content: String, x: u32, y: u32, sys_time: Option<u32>) -> (plan: Result<
    NewNote,
    Reply,
>)
    ensures
        match planned(content@, x, y, sys_time) {
            Some(note) => plan matches Ok(new) && (new.content@, new.created_at, new.x, new.y)
                == note,
            None => plan matches Err(Reply::Failure(text)) && text@
                == "Error getting system time."@,
        },
{
    match sys_time {
        Some(created_at) => Ok(NewNote { content, created_at, x, y }),
        None => Err(Reply::Failure(String::from_str("Error getting system time."))),
    }
}

/// Answers a request to create a note once the table was asked to store it:
/// the stored row, or a failure where the table gave none.
pub fn created_reply(stored: Option<StickyNote>) -> (reply: Reply)
    ensures
        match stored {
            Some(note) => reply == Reply::Note(note),
            None => reply matches Reply::Failure(text) && text@ == "Error saving sticky note."@,
        },
{
    match stored {
        Some(note) => Reply::Note(note),
        None => Reply::Failure(String::from_str("Error saving sticky note.")),
    }
}

/// Answers a request to rewrite or delete a note once its statement ran.
pub fn write_status(done: bool) -> (status: Status)
    ensures
        status == status_of(done),
{
    if done {
        Status::Success
    } else {
        Status::InternalServerError
    }
}

} // verus!
