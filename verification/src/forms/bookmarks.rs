use crate::db::bookmarks::InsertBookmark;
use crate::form_errors::FormErrors;
use crate::ids::Uuid;
use crate::urls::opt_view;
use crate::validation::{
    check_opt_length, check_url, entry, finish, opt_length_error, outcome, record, url_error,
    Report,
};
use vstd::prelude::*;

verus! {

/// The bookmark form: a URL, a title, the lists to add the bookmark to (by id
/// or by the titles of new lists), the current list search term (at most 100
/// bytes), and whether the form was submitted.
#[derive(Debug)]
pub struct CreateBookmark {
    pub parents: Vec<Uuid>,
    pub create_parents: Vec<String>,
    pub url: String,
    pub title: String,
    pub list_search_term: Option<String>,
    pub submitted: bool,
}

pub open spec fn create_bookmark_entries(b: CreateBookmark) -> Seq<(Seq<char>, Seq<char>)> {
    entry("list_search_term"@, opt_length_error(opt_view(b.list_search_term), 0, 100)) + entry(
        "url"@,
        url_error(b.url@),
    )
}

impl CreateBookmark {
    pub fn validate(&self) -> (r: Result<(), Report>)
        ensures
            outcome(create_bookmark_entries(*self), r),
    {
        let mut report = Report::new();
        record(&mut report, "list_search_term", check_opt_length(&self.list_search_term, 0, 100));
        record(&mut report, "url", check_url(self.url.as_str()));
        assert(report@ =~= create_bookmark_entries(*self));
        finish(report)
    }
}

impl InsertBookmark {
    /// A submitted, valid form becomes a bookmark to insert. An invalid form
    /// gives its report; a form that was not submitted yet gives no errors.
    pub fn try_from(value: CreateBookmark) -> (r: Result<InsertBookmark, FormErrors>)
        ensures
            create_bookmark_entries(value).len() > 0 ==> (r matches Err(e) && e.0@
                == create_bookmark_entries(value)),
            create_bookmark_entries(value).len() == 0 && !value.submitted ==> (r matches Err(e)
                && e.0@.len() == 0),
            r is Ok <==> create_bookmark_entries(value).len() == 0 && value.submitted,
            r matches Ok(b) ==> b.url@ == value.url@ && b.title@ == value.title@,
    {
        match value.validate() {
            Ok(()) => {},
            Err(report) => {
                return Err(FormErrors::from(report));
            },
        }
        if !value.submitted {
            return Err(FormErrors::default());
        }
        Ok(InsertBookmark { url: value.url, title: value.title })
    }
}

} // verus!
