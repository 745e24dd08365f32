use crate::db::links::LinkDestination;
use crate::ids::{uuid_hyphenated, Uuid};
use crate::text::concat2;
use vstd::prelude::*;

verus! {

/// A list of links to bookmarks and other lists.
#[derive(Debug)]
pub struct List {
    pub id: Uuid,
    /// Creation time, in nanoseconds since the Unix epoch.
    pub created_at: i128,
    pub ap_user_id: Uuid,
    pub title: String,
    pub content: Option<String>,
    pub private: bool,
    pub pinned: bool,
}

#[derive(Debug)]
pub struct Metadata {
    pub linked_bookmark_count: i64,
    pub linked_list_count: i64,
    pub username: String,
}

pub struct ListWithLinks {
    pub list: List,
    pub links: Vec<LinkDestination>,
}

pub struct ListWithMetadata {
    pub list: List,
    pub metadata: Metadata,
}

pub struct UnpinnedList {
    pub id: Uuid,
    pub title: String,
    pub content: Option<String>,
    pub bookmark_count: i64,
    pub linked_list_count: i64,
}

pub open spec fn list_path(id: Uuid) -> Seq<char> {
    "/lists/"@ + uuid_hyphenated(id.value)
}

impl List {
    /// The page of this list: `/lists/{id}`.
    pub fn path(&self) -> (p: String)
        ensures
            p@ == list_path(self.id),
    {
        let id = self.id.to_string();
        concat2("/lists/", id.as_str())
    }
}

} // verus!
