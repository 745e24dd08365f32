use crate::ids::Uuid;
use vstd::prelude::*;

verus! {

#[derive(Debug)]
pub struct Follow {
    pub id: Uuid,
    /// The user that is following
    pub follower_id: Uuid,
    /// The user being followed
    pub following_id: Uuid,
}

#[derive(Debug)]
pub struct Insert {
    pub follower_id: Uuid,
    pub following_id: Uuid,
}

} // verus!
