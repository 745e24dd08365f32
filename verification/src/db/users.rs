use crate::ids::Uuid;
use crate::response_error::{ResponseError, ResponseResult};
use vstd::prelude::*;

verus! {

/// A local account.
#[derive(Debug)]
pub struct User {
    pub id: Uuid,
    pub username: String,
    /// Password-based login data: an Argon2 hash in PHC string format.
    pub password_hash: Option<String>,
    /// Single sign-on data.
    pub email: Option<String>,
    pub oidc_id: Option<String>,
    /// The user's ActivityPub identity.
    pub ap_user_id: Uuid,
}

/// What to do after looking up an account that should exist.
#[derive(Debug)]
pub enum UserLookup {
    /// The account exists.
    Existing(User),
    /// The account does not exist yet: create it.
    Create,
    /// The lookup failed.
    Failed(ResponseError),
}

/// For `create_user_if_not_exists`: an account that was not found is
/// created, an existing one is kept, any other failure is passed on.
pub fn create_user_if_not_exists(lookup: ResponseResult<User>) -> (r: UserLookup)
    ensures
        lookup matches Ok(u) ==> r == UserLookup::Existing(u),
        lookup matches Err(ResponseError::NotFound) ==> r is Create,
        lookup is Err && !(lookup->Err_0 is NotFound) ==> r == UserLookup::Failed(lookup->Err_0),
{
    match lookup {
        Err(ResponseError::NotFound) => UserLookup::Create,
        Ok(actual_user) => UserLookup::Existing(actual_user),
        Err(other) => UserLookup::Failed(other),
    }
}

} // verus!
