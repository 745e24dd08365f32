//! `Follow` activities.
use crate::db::ap_users::ApUser;
use crate::federation::activity::{activity_prefix, generate_id, is_v4, spec_object_url};
use crate::federation::verification::{
    spec_is_local_url, verify_domains_match, verify_is_remote_object, FederationError,
};
use crate::response_error::{ResponseError, ResponseResult};
use crate::urls::url_domain;
use crate::ids::Uuid;
use vstd::prelude::*;

verus! {

/// `actor` follows `object`; all ids are serialized URLs.
#[derive(Debug)]
pub struct Follow {
    pub actor: String,
    pub object: String,
    pub id: String,
}

/// The checks on a received `Follow`: its actor is remote and the activity's
/// id lies on the actor's domain. The first failing check is reported.
pub open spec fn follow_verified(f: Follow, local_domain: Seq<char>) -> bool {
    !spec_is_local_url(f.actor@, local_domain) && url_domain(f.actor@) == url_domain(f.id@)
}

impl Follow {
    /// A new follow of `object` by `actor`, with a fresh activity id.
    pub fn new(actor: &ApUser, object: &ApUser, base_url: &str) -> (r: ResponseResult<Follow>)
        ensures
            r is Err ==> r->Err_0 is UrlParseError,
            r matches Ok(f) ==> f.actor@ == actor.ap_id@ && f.object@ == object.ap_id@,
            exists|id: Uuid|
                #![trigger spec_object_url(base_url@, activity_prefix(), id)]
                is_v4(id) && (r is Ok <==> spec_object_url(base_url@, activity_prefix(), id) is Some)
                    && (r matches Ok(f) ==> spec_object_url(base_url@, activity_prefix(), id)
                    == Some(f.id@)),
    {
        let id = match generate_id(base_url) {
            Ok(id) => id,
            Err(e) => {
                return Err(ResponseError::UrlParseError(e));
            },
        };
        Ok(Follow { actor: actor.ap_id.clone(), object: object.ap_id.clone(), id })
    }

    pub fn id(&self) -> (r: &str)
        ensures
            r@ == self.id@,
    {
        self.id.as_str()
    }

    pub fn actor(&self) -> (r: &str)
        ensures
            r@ == self.actor@,
    {
        self.actor.as_str()
    }

    /// Checks a received follow against this instance's federation domain.
    pub fn verify(&self, local_domain: &str) -> (r: Result<(), FederationError>)
        ensures
            r is Ok <==> follow_verified(*self, local_domain@),
            spec_is_local_url(self.actor@, local_domain@) ==> r
                == Err::<(), FederationError>(FederationError::ObjectIsNotRemote),
            !spec_is_local_url(self.actor@, local_domain@) && url_domain(self.actor@) != url_domain(
                self.id@,
            ) ==> r == Err::<(), FederationError>(FederationError::DomainsDoNotMatch),
    {
        verify_is_remote_object(self.actor.as_str(), local_domain)?;
        verify_domains_match(self.actor.as_str(), self.id.as_str())?;
        // TODO verify that someone on this server is following the actor
        // https://github.com/raffomania/linkblocks/issues/180
        Ok(())
    }
}

} // verus!
