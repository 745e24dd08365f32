use crate::ids::Uuid;
use crate::response_error::{ResponseError, ResponseResult};
use crate::urls::{parse, parse_error_message, url_parse};
use vstd::prelude::*;

verus! {

/// An ActivityPub user, local or remote.
#[derive(Debug)]
pub struct ApUser {
    pub id: Uuid,
    /// For local users `{base_url}/ap/user/{id}`, for remote users an
    /// arbitrary URL (serialized).
    pub ap_id: String,
    pub username: String,
    /// Serialized URL of the user's inbox.
    pub inbox_url: String,
    pub public_key: String,
    /// Present for local users.
    pub private_key: Option<String>,
    /// Nanoseconds since the Unix epoch.
    pub last_refreshed_at: i128,
    pub display_name: Option<String>,
    pub bio: Option<String>,
}

/// An ActivityPub user as the database returns it, before its URLs are parsed.
#[derive(Debug)]
pub struct ApUserRow {
    pub id: Uuid,
    pub ap_id: String,
    pub username: String,
    pub inbox_url: String,
    pub public_key: String,
    pub private_key: Option<String>,
    pub last_refreshed_at: i128,
    pub display_name: Option<String>,
    pub bio: Option<String>,
}

impl ApUser {
    /// Reads a database row; fails with an internal error when its id or
    /// inbox is not a URL.
    pub fn try_from(value: ApUserRow) -> (r: ResponseResult<ApUser>)
        ensures
            r is Ok <==> (url_parse(value.ap_id@) is Some && url_parse(value.inbox_url@) is Some),
            r is Err ==> r->Err_0 is Anyhow,
            r matches Ok(u) ==> {
                &&& u.id == value.id
                &&& url_parse(value.ap_id@) == Some(u.ap_id@)
                &&& u.username@ == value.username@
                &&& url_parse(value.inbox_url@) == Some(u.inbox_url@)
                &&& u.public_key@ == value.public_key@
                &&& u.private_key == value.private_key
                &&& u.last_refreshed_at == value.last_refreshed_at
                &&& u.display_name == value.display_name
                &&& u.bio == value.bio
            },
    {
        let ap_id = match parse(value.ap_id.as_str()) {
            Ok(u) => u,
            Err(e) => {
                return Err(ResponseError::Anyhow(parse_error_message(e)));
            },
        };
        let inbox_url = match parse(value.inbox_url.as_str()) {
            Ok(u) => u,
            Err(e) => {
                return Err(ResponseError::Anyhow(parse_error_message(e)));
            },
        };
        Ok(
            ApUser {
                id: value.id,
                ap_id,
                username: value.username,
                inbox_url,
                public_key: value.public_key,
                private_key: value.private_key,
                last_refreshed_at: value.last_refreshed_at,
                display_name: value.display_name,
                bio: value.bio,
            },
        )
    }

    /// The actor's id.
    pub fn id(&self) -> (r: &str)
        ensures
            r@ == self.ap_id@,
    {
        self.ap_id.as_str()
    }

    pub fn public_key_pem(&self) -> (r: &str)
        ensures
            r@ == self.public_key@,
    {
        self.public_key.as_str()
    }

    pub fn inbox(&self) -> (r: &str)
        ensures
            r@ == self.inbox_url@,
    {
        self.inbox_url.as_str()
    }
}

} // verus!
