use crate::federation::activity::{is_v4, object_url, spec_object_url};
use crate::ids::{uuid_hyphenated, Uuid};
use crate::response_error::{ResponseError, ResponseResult};
use crate::text::concat2;
use crate::urls::{parse, url_parse};
use vstd::prelude::*;

verus! {

/// A bookmark: a titled URL owned by an ActivityPub user.
#[derive(Debug)]
pub struct Bookmark {
    pub id: Uuid,
    /// Creation time, in nanoseconds since the Unix epoch.
    pub created_at: i128,
    pub ap_user_id: Uuid,
    pub url: String,
    pub title: String,
    /// The ActivityPub id, as a serialized URL.
    pub ap_id: String,
}

/// A bookmark as the database returns it, before its ActivityPub id is parsed.
#[derive(Debug)]
pub struct BookmarkRow {
    pub id: Uuid,
    pub created_at: i128,
    pub ap_user_id: Uuid,
    pub url: String,
    pub title: String,
    pub ap_id: String,
}

pub struct InsertBookmark {
    pub url: String,
    pub title: String,
}

pub open spec fn bookmark_path(id: Uuid) -> Seq<char> {
    "/bookmarks/"@ + uuid_hyphenated(id.value)
}

impl Bookmark {
    /// The page of this bookmark: `/bookmarks/{id}`.
    pub fn path(&self) -> (p: String)
        ensures
            p@ == bookmark_path(self.id),
    {
        let id = self.id.to_string();
        concat2("/bookmarks/", id.as_str())
    }

    /// Reads a database row; fails when its ActivityPub id is not a URL.
    pub fn try_from(value: BookmarkRow) -> (r: ResponseResult<Bookmark>)
        ensures
            r is Ok <==> url_parse(value.ap_id@) is Some,
            r is Err ==> r->Err_0 is UrlParseError,
            r matches Ok(b) ==> {
                &&& b.id == value.id
                &&& b.created_at == value.created_at
                &&& b.ap_user_id == value.ap_user_id
                &&& b.url@ == value.url@
                &&& b.title@ == value.title@
                &&& url_parse(value.ap_id@) == Some(b.ap_id@)
            },
    {
        match parse(value.ap_id.as_str()) {
            Ok(ap_id) => Ok(
                Bookmark {
                    id: value.id,
                    created_at: value.created_at,
                    ap_user_id: value.ap_user_id,
                    url: value.url,
                    title: value.title,
                    ap_id,
                },
            ),
            Err(e) => Err(ResponseError::UrlParseError(e)),
        }
    }
}

pub open spec fn bookmark_prefix() -> Seq<char> {
    "/ap/bookmark/"@
}

/// The ActivityPub id of the local bookmark `id`: `{base_url}/ap/bookmark/{id}`.
pub fn bookmark_ap_id(base_url: &str, id: Uuid) -> (r: Result<String, ::url::ParseError>)
    ensures
        r is Ok <==> spec_object_url(base_url@, bookmark_prefix(), id) is Some,
        r matches Ok(u) ==> spec_object_url(base_url@, bookmark_prefix(), id) == Some(u@),
{
    proof {
        reveal_strlit("/ap/bookmark/");
    }
    object_url(base_url, "/ap/bookmark/", id)
}

/// Identifier and ActivityPub id of a new local bookmark: a fresh random
/// identifier, and the ActivityPub id that corresponds to it.
pub fn new_local_ids(base_url: &str) -> (r: ResponseResult<(Uuid, String)>)
    ensures
        r matches Ok((id, ap_id)) ==> is_v4(id) && spec_object_url(base_url@, bookmark_prefix(), id)
            == Some(ap_id@),
        r is Err ==> r->Err_0 is UrlParseError,
        exists|id: Uuid|
            #![trigger spec_object_url(base_url@, bookmark_prefix(), id)]
            is_v4(id) && (r is Ok <==> spec_object_url(base_url@, bookmark_prefix(), id) is Some)
                && (r matches Ok((i, _)) ==> i == id),
{
    let id = Uuid::new_v4();
    match bookmark_ap_id(base_url, id) {
        Ok(ap_id) => Ok((id, ap_id)),
        Err(e) => Err(ResponseError::UrlParseError(e)),
    }
}

/// A bookmark is public when at least one public list links to it, given the
/// number of public lists that link to it.
pub open spec fn has_public_list(public_destination_count: i64) -> bool {
    public_destination_count > 0
}

/// A bookmark is public exactly when some public list links to it: one
/// such list is enough, and more lists never make it private.
pub proof fn lemma_public_by_count(count: i64, more: i64)
    ensures
        has_public_list(count) <==> count >= 1,
        count <= more && has_public_list(count) ==> has_public_list(more),
        !has_public_list(0),
{
}

/// A bookmark is public when at least one public list links to it.
pub fn is_public(public_destination_count: i64) -> (r: bool)
    ensures
        r == has_public_list(public_destination_count),
        r <==> public_destination_count >= 1,
{
    public_destination_count > 0
}

} // verus!
