//! `Accept` of a `Follow`.
use crate::db::ap_users::ApUser;
use crate::federation::activity::{activity_prefix, generate_id, is_v4, spec_object_url};
use crate::federation::follow::Follow;
use crate::federation::verification::FederationError;
use crate::response_error::{ResponseError, ResponseResult};
use crate::ids::Uuid;
use vstd::prelude::*;

verus! {

#[derive(Debug)]
pub struct Accept {
    pub actor: String,
    pub object: Follow,
    pub id: String,
}

impl Accept {
    /// The followed user `actor` accepts the follow `object`.
    pub fn new(actor: &ApUser, object: Follow, base_url: &str) -> (r: ResponseResult<Accept>)
        ensures
            r is Err ==> r->Err_0 is UrlParseError,
            r matches Ok(a) ==> {
                &&& a.actor@ == actor.ap_id@
                &&& a.object == object
            },
            exists|id: Uuid|
                #![trigger spec_object_url(base_url@, activity_prefix(), id)]
                is_v4(id) && (r is Ok <==> spec_object_url(base_url@, activity_prefix(), id) is Some)
                    && (r matches Ok(a) ==> spec_object_url(base_url@, activity_prefix(), id)
                    == Some(a.id@)),
    {
        let id = match generate_id(base_url) {
            Ok(id) => id,
            Err(e) => {
                return Err(ResponseError::UrlParseError(e));
            },
        };
        Ok(Accept { actor: actor.ap_id.clone(), object, id })
    }

    pub fn id(&self) -> (r: &str)
        ensures
            r@ == self.id@,
    {
        self.id.as_str()
    }

    pub fn actor(&self) -> (r: &str)
        ensures
            r@ == self.actor@,
    {
        self.actor.as_str()
    }

    /// Accepts need no checks.
    pub fn verify(&self) -> (r: Result<(), FederationError>)
        ensures
            r is Ok,
    {
        Ok(())
    }

    /// Receiving an accept is not supported.
    pub fn receive(self) -> (r: ResponseResult<()>)
        ensures
            r matches Err(ResponseError::NotFound),
    {
        Err(ResponseError::NotFound)
    }
}

} // verus!
