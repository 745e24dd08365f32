use crate::db::lists::List;
use crate::ids::Uuid;
use vstd::prelude::*;

verus! {

/// What every page shows about the logged-in user.
pub struct AuthedInfo {
    pub username: String,
    pub lists: Vec<List>,
    pub ap_user_id: Uuid,
}

} // verus!
