use crate::validation::{check_length, entry, finish, length_error, outcome, record, Report};
use vstd::prelude::*;

verus! {

/// A new list: a title of 1 to 100 bytes, optional content, and whether it is private.
#[derive(Debug)]
pub struct CreateList {
    pub title: String,
    pub content: Option<String>,
    pub private: bool,
}

pub open spec fn title_entries(title: Seq<char>) -> Seq<(Seq<char>, Seq<char>)> {
    entry("title"@, length_error(title, 1, 100))
}

impl CreateList {
    pub fn validate(&self) -> (r: Result<(), Report>)
        ensures
            outcome(title_entries(self.title@), r),
    {
        let mut report = Report::new();
        record(&mut report, "title", check_length(self.title.as_str(), 1, 100));
        assert(report@ =~= title_entries(self.title@));
        finish(report)
    }
}

#[derive(Debug)]
pub struct EditTitle {
    pub title: String,
}

#[derive(Debug)]
pub struct EditListPrivate {
    pub private: bool,
}

#[derive(Debug)]
pub struct EditListPinned {
    pub pinned: bool,
}

} // verus!
