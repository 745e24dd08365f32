use crate::forms::lists::title_entries;
use crate::validation::{check_length, finish, outcome, record, Report};
use vstd::prelude::*;

verus! {

/// A new note: a title of 1 to 100 bytes and optional content.
#[derive(Debug)]
pub struct CreateNote {
    pub title: String,
    pub content: Option<String>,
}

impl CreateNote {
    pub fn validate(&self) -> (r: Result<(), Report>)
        ensures
            outcome(title_entries(self.title@), r),
    {
        let mut report = Report::new();
        record(&mut report, "title", check_length(self.title.as_str(), 1, 100));
        assert(report@ =~= title_entries(self.title@));
        finish(report)
    }
}

} // verus!
