//! `Create` activities for new bookmarks, sent to the author's followers.
use crate::db::ap_users::ApUser;
use crate::federation::activity::{activity_prefix, generate_id, is_v4, spec_object_url};
use crate::federation::bookmark::BookmarkJson;
use crate::response_error::{ResponseError, ResponseResult};
use crate::ids::Uuid;
use vstd::prelude::*;

verus! {

#[derive(Debug)]
pub struct CreateBookmark {
    pub actor: String,
    /// The recipients' ids (serialized URLs).
    pub to: Vec<String>,
    pub object: BookmarkJson,
    pub id: String,
}

/// The ActivityPub ids of `followers`, in order.
pub open spec fn follower_ids(followers: Seq<ApUser>) -> Seq<Seq<char>> {
    followers.map_values(|u: ApUser| u.ap_id@)
}

impl CreateBookmark {
    /// The announcement of `object` by `actor` to its followers.
    pub fn new(actor: &ApUser, followers: &Vec<ApUser>, object: BookmarkJson, base_url: &str) -> (r:
        ResponseResult<CreateBookmark>)
        ensures
            r is Err ==> r->Err_0 is UrlParseError,
            r matches Ok(c) ==> {
                &&& c.actor@ == actor.ap_id@
                &&& c.to@.map_values(|s: String| s@) == follower_ids(followers@)
                &&& c.object == object
            },
            exists|id: Uuid|
                #![trigger spec_object_url(base_url@, activity_prefix(), id)]
                is_v4(id) && (r is Ok <==> spec_object_url(base_url@, activity_prefix(), id) is Some)
                    && (r matches Ok(c) ==> spec_object_url(base_url@, activity_prefix(), id)
                    == Some(c.id@)),
    {
        let id = match generate_id(base_url) {
            Ok(id) => id,
            Err(e) => {
                return Err(ResponseError::UrlParseError(e));
            },
        };
        let mut to: Vec<String> = Vec::new();
        let mut i: usize = 0;
        while i < followers.len()
            invariant
                i <= followers@.len(),
                to@.map_values(|s: String| s@) == follower_ids(followers@.take(i as int)),
            decreases followers@.len() - i,
        {
            let ghost prev = to@;
            let s = followers[i].ap_id.clone();
            to.push(s);
            assert(followers@.take(i + 1) =~= followers@.take(i as int).push(followers@[i as int]));
            assert(to@.map_values(|s: String| s@) =~= prev.map_values(|s: String| s@).push(s@));
            assert(to@.map_values(|s: String| s@) =~= follower_ids(followers@.take(i + 1)));
            i = i + 1;
        }
        assert(followers@.take(i as int) =~= followers@);
        Ok(CreateBookmark { actor: actor.ap_id.clone(), to, object, id })
    }

    pub fn id(&self) -> (r: &str)
        ensures
            r@ == self.id@,
    {
        self.id.as_str()
    }

    pub fn actor(&self) -> (r: &str)
        ensures
            r@ == self.actor@,
    {
        self.actor.as_str()
    }

    /// Receiving a bookmark is not supported yet.
    pub fn receive(self) -> (r: ResponseResult<()>)
        ensures
            r matches Err(ResponseError::NotFound),
    {
        Err(ResponseError::NotFound)
    }
}

} // verus!
