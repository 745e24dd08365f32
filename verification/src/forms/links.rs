use crate::ids::Uuid;
use crate::urls::opt_view;
use crate::validation::{
    check_opt_length, entry, finish, opt_length_error, outcome, record, Report,
};
use vstd::prelude::*;

verus! {

/// A link from the list `src` to the bookmark or list `dest`.
#[derive(Debug)]
pub struct CreateLink {
    pub src: Uuid,
    pub dest: Uuid,
}

impl CreateLink {
    /// No field of a link has a rule.
    pub fn validate(&self) -> (r: Result<(), Report>)
        ensures
            r is Ok,
    {
        Ok(())
    }
}

/// The link form while it is being filled in, with the search terms used to
/// find source and destination (at most 100 bytes each).
#[derive(Debug)]
pub struct PartialCreateLink {
    pub search_term_src: Option<String>,
    pub search_term_dest: Option<String>,
    pub src: Option<Uuid>,
    pub dest: Option<Uuid>,
    pub submitted: bool,
}

pub open spec fn partial_create_link_entries(l: PartialCreateLink) -> Seq<(Seq<char>, Seq<char>)> {
    entry("search_term_dest"@, opt_length_error(opt_view(l.search_term_dest), 0, 100)) + entry(
        "search_term_src"@,
        opt_length_error(opt_view(l.search_term_src), 0, 100),
    )
}

impl PartialCreateLink {
    pub fn validate(&self) -> (r: Result<(), Report>)
        ensures
            outcome(partial_create_link_entries(*self), r),
    {
        let mut report = Report::new();
        record(&mut report, "search_term_dest", check_opt_length(&self.search_term_dest, 0, 100));
        record(&mut report, "search_term_src", check_opt_length(&self.search_term_src, 0, 100));
        assert(report@ =~= partial_create_link_entries(*self));
        finish(report)
    }
}

#[derive(Debug)]
pub struct RemoveLink {
    pub id: Uuid,
}

} // verus!
