use crate::ids::Uuid;
use vstd::prelude::*;

verus! {

/// An API key of a user.
#[derive(Debug)]
pub struct UserApi {
    pub id: Uuid,
    pub user_id: Uuid,
    pub api_key: Option<String>,
    pub permissions: Option<String>,
    /// Nanoseconds since the Unix epoch.
    pub valid_until: i128,
    pub created_at: i128,
}

} // verus!
