use site_backend::http::Status;
use site_backend::notes::model::StickyNote;
use site_backend::notes::routes::created_reply;
use site_backend::notes::routes::get_sys_time;
use site_backend::notes::routes::list_notes;
use site_backend::notes::routes::plan_note;
use site_backend::notes::routes::write_status;
use site_backend::notes::routes::NewNote;
use site_backend::notes::routes::Reply;
use site_backend::notes::routes::DELETE;
use site_backend::notes::routes::INSERT;
use site_backend::notes::routes::SELECT_ACTIVE;
use site_backend::notes::routes::SELECT_DELETED;
use site_backend::notes::routes::SELECT_ONE;
use site_backend::notes::routes::UPDATE;
use std::time::SystemTime;
use std::time::UNIX_EPOCH;

fn note(id: i64, content: &str) -> StickyNote {
    StickyNote { id, content: content.to_string(), created_at: 1_700_000_000, x: 10, y: 20 }
}

#[test]
fn get_sys_time_follows_the_system_clock() {
    let before = SystemTime::now().duration_since(UNIX_EPOCH).unwrap().as_secs();
    let read = u64::from(get_sys_time().unwrap());
    let after = SystemTime::now().duration_since(UNIX_EPOCH).unwrap().as_secs();
    assert!(before <= read && read <= after);
}

#[test]
fn list_notes_gives_the_rows_that_were_read() {
    let rows = vec![note(1, "milk"), note(2, "eggs")];
    assert_eq!(list_notes(Some(rows)), vec![note(1, "milk"), note(2, "eggs")]);
    assert_eq!(list_notes(Some(Vec::new())), Vec::new());
}

#[test]
fn list_notes_gives_nothing_where_the_reading_failed() {
    assert_eq!(list_notes(None), Vec::new());
}

#[test]
fn plan_note_stores_at_the_reading_of_the_clock() {
    assert_eq!(
        plan_note("milk".to_string(), 3, 4, Some(1_700_000_000)),
        Ok(NewNote { content: "milk".to_string(), created_at: 1_700_000_000, x: 3, y: 4 })
    );
    assert_eq!(
        plan_note(String::new(), 0, u32::MAX, Some(0)),
        Ok(NewNote { content: String::new(), created_at: 0, x: 0, y: u32::MAX })
    );
}

#[test]
fn plan_note_fails_without_a_timestamp() {
    assert_eq!(
        plan_note("milk".to_string(), 3, 4, None),
        Err(Reply::Failure("Error getting system time.".to_string()))
    );
}

#[test]
fn created_reply_carries_the_stored_row() {
    assert_eq!(created_reply(Some(note(7, "milk"))), Reply::Note(note(7, "milk")));
}

#[test]
fn created_reply_fails_where_nothing_was_stored() {
    assert_eq!(created_reply(None), Reply::Failure("Error saving sticky note.".to_string()));
}

#[test]
fn write_status_tells_how_the_statement_went() {
    assert_eq!(write_status(true), Status::Success);
    assert_eq!(write_status(false), Status::InternalServerError);
}

#[test]
fn statements() {
    assert_eq!(
        SELECT_ACTIVE,
        "SELECT id, content, created_at, x, y FROM notes WHERE deleted = FALSE"
    );
    assert_eq!(
        SELECT_DELETED,
        "SELECT id, content, created_at, x, y FROM notes WHERE deleted = TRUE"
    );
    assert_eq!(SELECT_ONE, "SELECT id, content, created_at, x, y FROM notes WHERE id = ?");
    assert_eq!(UPDATE, "UPDATE notes SET content = ?, x = ?, y = ? WHERE id = ?");
    assert_eq!(DELETE, "UPDATE notes SET deleted = TRUE WHERE id = ?");
    assert!(INSERT.starts_with("INSERT INTO notes (content, created_at, x, y) VALUES (?, ?, ?, ?)"));
    assert!(INSERT.ends_with("RETURNING id, content, created_at, x, y"));
    assert_eq!(INSERT.matches('?').count(), 4);
}
