use crate::db::links::LinkDestination;
use crate::ids::{uuid_hyphenated, Uuid};
use crate::text::concat2;
use vstd::prelude::*;

verus! {

#[derive(Debug)]
pub struct Note {
    pub id: Uuid,
    /// Creation time, in nanoseconds since the Unix epoch.
    pub created_at: i128,
    pub user_id: Uuid,
    pub title: String,
    pub content: Option<String>,
}

pub struct NoteWithLinks {
    pub note: Note,
    pub links: Vec<LinkDestination>,
}

pub open spec fn note_path(id: Uuid) -> Seq<char> {
    "/notes/"@ + uuid_hyphenated(id.value)
}

impl Note {
    /// The page of this note: `/notes/{id}`.
    pub fn path(&self) -> (p: String)
        ensures
            p@ == note_path(self.id),
    {
        let id = self.id.to_string();
        concat2("/notes/", id.as_str())
    }
}

} // verus!
