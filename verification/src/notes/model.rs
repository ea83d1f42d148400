//! A sticky note as the table holds it.

use vstd::prelude::*;

verus! {

/// A row of the table of notes. A note that was deleted stays in the table,
/// marked as deleted.
#[derive(Debug, PartialEq, Eq)]
pub struct StickyNote {
    pub id: i64,
    pub content: String,
    pub created_at: i64,
    pub x: i64,
    pub y: i64,
}

/// A note as plain values.
pub struct NoteView {
    pub id: i64,
    pub content: Seq<char>,
    pub created_at: i64,
    pub x: i64,
    pub y: i64,
}

impl View for StickyNote {
    type V = NoteView;

    open spec fn view(&self) -> NoteView {
        NoteView {
            id: self.id,
            content: self.content@,
            created_at: self.created_at,
            x: self.x,
            y: self.y,
        }
    }
}

/// A list of notes as plain values.
pub open spec fn notes_view(notes: Seq<StickyNote>) -> Seq<NoteView> {
    notes.map_values(|note: StickyNote| note@)
}

} // verus!
