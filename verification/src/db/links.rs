use crate::db::bookmarks::{bookmark_path, has_public_list, Bookmark};
use crate::db::lists::{list_path, List, ListWithLinks};
use crate::ids::{lemma_uuid_text_injective, uuid_hyphenated, Uuid};
use crate::response_error::{is_anyhow, DbError, ResponseError, ResponseResult};
use vstd::prelude::*;

verus! {

broadcast use vstd::string::group_string_axioms;

#[derive(Debug)]
pub struct Link {
    pub id: Uuid,
    /// Creation time, in nanoseconds since the Unix epoch.
    pub created_at: i128,
    pub user_id: Uuid,
    pub src_list_id: Option<Uuid>,
    pub dest_bookmark_id: Option<Uuid>,
    pub dest_list_id: Option<Uuid>,
}

/// What a link points to, with the links of a destination list.
pub enum LinkDestinationWithChildren {
    Bookmark(Bookmark),
    List(ListWithLinks),
}

impl LinkDestinationWithChildren {
    pub fn id(&self) -> (id: Uuid)
        ensures
            id == match self {
                LinkDestinationWithChildren::Bookmark(b) => b.id,
                LinkDestinationWithChildren::List(l) => l.list.id,
            },
    {
        match self {
            LinkDestinationWithChildren::Bookmark(b) => b.id,
            LinkDestinationWithChildren::List(l) => l.list.id,
        }
    }
}

/// What a link points to.
#[derive(Debug)]
pub enum LinkDestination {
    Bookmark(Bookmark),
    List(List),
}

pub open spec fn destination_id(d: LinkDestination) -> Uuid {
    match d {
        LinkDestination::Bookmark(b) => b.id,
        LinkDestination::List(l) => l.id,
    }
}

pub open spec fn destination_path(d: LinkDestination) -> Seq<char> {
    match d {
        LinkDestination::Bookmark(b) => bookmark_path(b.id),
        LinkDestination::List(l) => list_path(l.id),
    }
}

impl LinkDestination {
    pub fn id(&self) -> (id: Uuid)
        ensures
            id == destination_id(*self),
    {
        match self {
            LinkDestination::Bookmark(b) => b.id,
            LinkDestination::List(n) => n.id,
        }
    }

    /// The page of the destination.
    pub fn path(&self) -> (p: String)
        ensures
            p@ == destination_path(*self),
    {
        match self {
            LinkDestination::Bookmark(b) => b.path(),
            LinkDestination::List(n) => n.path(),
        }
    }
}

/// Every destination has a page of its own: equal pages mean the same kind of
/// destination with the same identifier.
pub proof fn lemma_destination_pages_distinct(a: LinkDestination, b: LinkDestination)
    requires
        destination_path(a) == destination_path(b),
    ensures
        destination_id(a) == destination_id(b),
        (a is Bookmark) == (b is Bookmark),
{
    reveal_strlit("/bookmarks/");
    reveal_strlit("/lists/");
    let pa = destination_path(a);
    let pb = destination_path(b);
    let ia = destination_id(a);
    let ib = destination_id(b);
    assert(pa[1] == pb[1]);
    let n: int = if a is Bookmark { 11 } else { 7 };
    if a is Bookmark {
        assert(pa[1] == 'b');
        assert(b is Bookmark);
    } else {
        assert(pa[1] == 'l');
        assert(b is List);
    }
    assert(pa.skip(n) =~= uuid_hyphenated(ia.value));
    assert(pb.skip(n) =~= uuid_hyphenated(ib.value));
    lemma_uuid_text_injective(ia.value, ib.value);
}

pub struct LinkWithContent {
    pub id: Uuid,
    pub created_at: i128,
    pub user_id: Uuid,
    pub dest: LinkDestinationWithChildren,
}

/// Return true if at least one public list points to the bookmark, given
/// the number of such lists.
pub fn is_bookmark_public(public_destination_count: i64) -> (r: bool)
    ensures
        r == has_public_list(public_destination_count),
        r <==> public_destination_count >= 1,
{
    public_destination_count > 0
}

/// Owners and privacy of the two lists that a new link would connect.
#[derive(Debug, Clone, Copy)]
pub struct ListPair {
    pub src_ap_user_id: Uuid,
    pub src_private: bool,
    pub dest_ap_user_id: Uuid,
    pub dest_private: bool,
}

/// A list may link to a public list; it may link to a private list only when
/// it is private itself and both lists belong to the same owner.
pub open spec fn link_between_lists_allowed(p: ListPair) -> bool {
    !p.dest_private || (p.src_private && p.src_ap_user_id == p.dest_ap_user_id)
}

/// Which links between lists are allowed: a link to a public list always,
/// whoever owns the two lists and whether or not the source is private; a
/// link from a public list to a private one never; a link between two
/// private lists exactly when one user owns both.
pub proof fn lemma_link_between_lists(p: ListPair)
    ensures
        !p.dest_private ==> link_between_lists_allowed(p),
        !p.src_private && p.dest_private ==> !link_between_lists_allowed(p),
        p.src_private && p.dest_private ==> (link_between_lists_allowed(p) <==> p.src_ap_user_id
            == p.dest_ap_user_id),
{
}

/// The next step of the authorization check for a new link.
#[derive(Debug, PartialEq, Eq, Structural)]
pub enum LinkCheckStep {
    /// The destination is a bookmark: nothing more to check.
    Allowed,
    /// The destination is a list: look up the owners and privacy of both lists.
    CheckListPair,
}

/// First step: a link to a bookmark is always allowed.
pub fn after_bookmark_lookup(dest_is_bookmark: Option<bool>) -> (s: LinkCheckStep)
    ensures
        s == (if dest_is_bookmark == Some(true) {
            LinkCheckStep::Allowed
        } else {
            LinkCheckStep::CheckListPair
        }),
{
    if let Some(true) = dest_is_bookmark {
        return LinkCheckStep::Allowed;
    }
    LinkCheckStep::CheckListPair
}

pub open spec fn failed_lookup_message() -> Seq<char> {
    "Failed getting data for authorization check"@
}

pub open spec fn public_to_private_message() -> Seq<char> {
    "Can't link from a public list to a private list"@
}

pub open spec fn different_owner_message() -> Seq<char> {
    "Private lists need to belong to the same owner to be linked"@
}

/// Second step, on the result of looking up both lists: a failed lookup is an
/// internal error; otherwise the link is allowed exactly when
/// `link_between_lists_allowed` holds, and each refusal carries its reason.
pub fn validate_private_lists_belong_to_same_owner(lists: Result<ListPair, DbError>) -> (r:
    ResponseResult<()>)
    ensures
        lists is Err ==> is_anyhow(r, failed_lookup_message()),
        lists matches Ok(p) ==> {
            &&& r is Ok <==> link_between_lists_allowed(p)
            &&& !p.dest_private ==> r is Ok
            &&& (p.src_private && p.dest_private && p.src_ap_user_id == p.dest_ap_user_id)
                ==> r is Ok
            &&& (!p.src_private && p.dest_private) ==> is_anyhow(r, public_to_private_message())
            &&& (p.src_private && p.dest_private && p.src_ap_user_id != p.dest_ap_user_id)
                ==> is_anyhow(r, different_owner_message())
        },
{
    let lists = match lists {
        Ok(p) => p,
        Err(_) => {
            return Err(
                ResponseError::Anyhow("Failed getting data for authorization check".to_string()),
            );
        },
    };
    // If destination list is public, everything's fine
    if !lists.dest_private {
        return Ok(());
    }
    // If source is public, but destination is private, that's not ok
    if !lists.src_private && lists.dest_private {
        return Err(
            ResponseError::Anyhow("Can't link from a public list to a private list".to_string()),
        );
    }
    // If source and destination are private, and they belong to the same user, it's ok
    if lists.src_private && lists.dest_private && lists.src_ap_user_id.value
        == lists.dest_ap_user_id.value {
        return Ok(());
    }
    Err(
        ResponseError::Anyhow(
            "Private lists need to belong to the same owner to be linked".to_string(),
        ),
    )
}

} // verus!
