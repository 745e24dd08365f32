//! Paging through bookmark search results, four at a time.
use crate::ids::Uuid;
use vstd::prelude::*;

verus! {

/// Number of results shown on one page.
pub const PAGE_SIZE: usize = 4;

/// How many bookmarks before the current page are looked up to find where
/// the previous page starts.
pub const PREVIOUS_LOOKUP: usize = 5;

#[derive(Debug, PartialEq, Eq, Structural, Clone, Copy)]
pub enum PreviousPage {
    DoesNotExist,
    IsFirstPage,
    AfterBookmarkId(Uuid),
}

#[derive(Debug)]
pub struct Result {
    pub title: String,
    pub bookmark_id: Uuid,
    pub bookmark_url: String,
}

#[derive(Debug)]
pub struct Results {
    pub bookmarks: Vec<Result>,
    pub previous_page: PreviousPage,
    pub next_page_after_bookmark_id: Option<Uuid>,
}

/// The id after which the next page would start: that of the page's last bookmark.
pub fn next_page_lookup_after(bookmarks: &Vec<Result>) -> (r: Option<Uuid>)
    ensures
        bookmarks.len() == 0 ==> r is None,
        bookmarks.len() > 0 ==> r == Some(bookmarks@[bookmarks.len() - 1].bookmark_id),
{
    if bookmarks.len() == 0 {
        None
    } else {
        Some(bookmarks[bookmarks.len() - 1].bookmark_id)
    }
}

/// The id before which the previous pages lie: that of the page's first bookmark.
pub fn previous_page_lookup_before(bookmarks: &Vec<Result>) -> (r: Option<Uuid>)
    ensures
        bookmarks.len() == 0 ==> r is None,
        bookmarks.len() > 0 ==> r == Some(bookmarks@[0].bookmark_id),
{
    if bookmarks.len() == 0 {
        None
    } else {
        Some(bookmarks[0].bookmark_id)
    }
}

/// Where the previous page starts, from the ids of (up to five) matching
/// bookmarks before the current page, nearest first: none means there is no
/// previous page; fewer than five means the previous page is the first one;
/// five means the previous page starts after the fifth of them.
pub open spec fn spec_previous_page(previous_ids: Seq<Uuid>) -> PreviousPage {
    if previous_ids.len() == 0 {
        PreviousPage::DoesNotExist
    } else if previous_ids.len() == PREVIOUS_LOOKUP {
        PreviousPage::AfterBookmarkId(previous_ids.last())
    } else {
        PreviousPage::IsFirstPage
    }
}

/// Assembles a page of search results.
/// `next_row` is a matching bookmark after the page's last one, if any;
/// `previous_ids` are the ids found before the page's first bookmark.
pub fn paginate(bookmarks: Vec<Result>, next_row: Option<Uuid>, previous_ids: &Vec<Uuid>) -> (r:
    Results)
    ensures
        r.bookmarks@ == bookmarks@,
        r.previous_page == spec_previous_page(previous_ids@),
        previous_ids@.len() == 0 ==> r.previous_page == PreviousPage::DoesNotExist,
        0 < previous_ids@.len() < 5 ==> r.previous_page == PreviousPage::IsFirstPage,
        previous_ids@.len() == 5 ==> r.previous_page == PreviousPage::AfterBookmarkId(
            previous_ids@[4],
        ),
        r.next_page_after_bookmark_id == (if next_row is Some && bookmarks.len() > 0 {
            Some(bookmarks@[bookmarks.len() - 1].bookmark_id)
        } else {
            None
        }),
{
    let last_id = next_page_lookup_after(&bookmarks);
    let next_page_after_bookmark_id = match next_row {
        Some(_) => last_id,
        None => None,
    };
    let previous_page = if previous_ids.len() > 0 {
        if previous_ids.len() == PREVIOUS_LOOKUP {
            // There's another page before the previous page, so we can reference the last
            // bookmark of that page.
            PreviousPage::AfterBookmarkId(previous_ids[previous_ids.len() - 1])
        } else {
            // This is the first page, so we have no bookmark id to query "after"
            PreviousPage::IsFirstPage
        }
    } else {
        // the query returned 0 results, so there is no previous page.
        PreviousPage::DoesNotExist
    };
    Results { bookmarks, previous_page, next_page_after_bookmark_id }
}

/// Where the previous page starts. The lookup before a page asks for at
/// most five ids, nearest first, and a page holds four: finding none means
/// there is no previous page; finding one to four means they all lie on the
/// previous page, which is then the first page (queried without an "after"
/// id); finding five means the previous page starts right after the fifth.
pub proof fn lemma_previous_page(previous_ids: Seq<Uuid>)
    ensures
        previous_ids.len() == 0 ==> spec_previous_page(previous_ids) == PreviousPage::DoesNotExist,
        0 < previous_ids.len() < 5 ==> spec_previous_page(previous_ids)
            == PreviousPage::IsFirstPage,
        previous_ids.len() == 5 ==> spec_previous_page(previous_ids) == PreviousPage::AfterBookmarkId(
            previous_ids[4],
        ),
        spec_previous_page(previous_ids) is AfterBookmarkId ==> previous_ids.len() == 5,
{
}

} // verus!
