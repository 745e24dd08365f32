//! `Undo` of a `Follow`.
use crate::db::ap_users::ApUser;
use crate::federation::activity::{activity_prefix, generate_id, is_v4, spec_object_url};
use crate::federation::follow::{follow_verified, Follow};
use crate::federation::verification::{
    spec_is_local_url, verify_is_remote_object, verify_urls_match, FederationError,
};
use crate::response_error::{ResponseError, ResponseResult};
use crate::ids::Uuid;
use vstd::prelude::*;

verus! {

#[derive(Debug)]
pub struct UndoFollow {
    pub actor: String,
    /// For compatibility with platforms that always expect to receive the
    /// recipient field
    pub to: Option<String>,
    pub object: Follow,
    pub id: String,
}

/// The checks on a received undo: it comes from the follower itself, names
/// the followed user as recipient (when it names one), comes from a remote
/// actor, and the follow it undoes passes its own checks.
pub open spec fn undo_follow_verified(u: UndoFollow, local_domain: Seq<char>) -> bool {
    &&& u.actor@ == u.object.actor@
    &&& (u.to matches Some(t) ==> t@ == u.object.object@)
    &&& !spec_is_local_url(u.actor@, local_domain)
    &&& follow_verified(u.object, local_domain)
}

impl UndoFollow {
    /// An undo of `object` by `actor`, addressed to the followed user, with a
    /// fresh activity id.
    pub fn new(actor: &ApUser, object: Follow, base_url: &str) -> (r: ResponseResult<UndoFollow>)
        ensures
            r is Err ==> r->Err_0 is UrlParseError,
            r matches Ok(u) ==> {
                &&& u.actor@ == actor.ap_id@
                &&& u.to matches Some(t) && t@ == object.object@
                &&& u.object == object
            },
            exists|id: Uuid|
                #![trigger spec_object_url(base_url@, activity_prefix(), id)]
                is_v4(id) && (r is Ok <==> spec_object_url(base_url@, activity_prefix(), id) is Some)
                    && (r matches Ok(u) ==> spec_object_url(base_url@, activity_prefix(), id)
                    == Some(u.id@)),
    {
        let id = match generate_id(base_url) {
            Ok(id) => id,
            Err(e) => {
                return Err(ResponseError::UrlParseError(e));
            },
        };
        let to = Some(object.object.clone());
        Ok(UndoFollow { actor: actor.ap_id.clone(), to, object, id })
    }

    pub fn id(&self) -> (r: &str)
        ensures
            r@ == self.id@,
    {
        self.id.as_str()
    }

    pub fn actor(&self) -> (r: &str)
        ensures
            r@ == self.actor@,
    {
        self.actor.as_str()
    }

    /// Checks a received undo against this instance's federation domain.
    pub fn verify(&self, local_domain: &str) -> (r: Result<(), FederationError>)
        ensures
            r is Ok <==> undo_follow_verified(*self, local_domain@),
            self.actor@ != self.object.actor@ ==> r == Err::<(), FederationError>(
                FederationError::UrlsDoNotMatch,
            ),
    {
        verify_urls_match(self.actor.as_str(), self.object.actor.as_str())?;
        if let Some(to) = &self.to {
            verify_urls_match(to.as_str(), self.object.object.as_str())?;
        }
        verify_is_remote_object(self.actor.as_str(), local_domain)?;
        self.object.verify(local_domain)?;
        Ok(())
    }
}

} // verus!
