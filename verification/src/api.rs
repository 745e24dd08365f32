//! API keys: issuing them and checking a request against them.
use crate::date_time::{add_days, representable, NANOS_PER_DAY};
use crate::db::users_api::UserApi;
use crate::federation::activity::is_v4;
use crate::ids::{uuid_hyphenated, Uuid};
use crate::response_error::{ResponseError, ResponseResult};
use vstd::prelude::*;

verus! {

/// Days for which a new API key is valid.
pub const API_KEY_VALID_DAYS: i32 = 30;

/// What to store for a new API key.
#[derive(Debug, PartialEq, Eq, Structural, Clone, Copy)]
pub enum ApiKeyAction {
    /// The user has a key record already: replace its key.
    Renew,
    /// Create a key record valid until the given time.
    Insert { valid_until: i128 },
}

#[derive(Debug)]
pub struct ApiKeyRequest {
    pub api_key: Uuid,
    pub action: ApiKeyAction,
}

/// A new random API key for a user. `has_record` says whether looking up the
/// user's key record succeeded; a new record is valid for 30 days from `now`.
pub fn create_api(now: i128, has_record: bool) -> (r: ApiKeyRequest)
    requires
        representable(now as int),
        representable(now + API_KEY_VALID_DAYS * NANOS_PER_DAY),
    ensures
        is_v4(r.api_key),
        has_record ==> r.action == ApiKeyAction::Renew,
        !has_record ==> r.action == (ApiKeyAction::Insert {
            valid_until: (now + API_KEY_VALID_DAYS * NANOS_PER_DAY) as i128,
        }),
{
    let api_key = Uuid::new_v4();
    let valid_until = match add_days(now, API_KEY_VALID_DAYS) {
        Some(t) => t,
        None => {
            assert(false);
            now
        },
    };
    let action = if has_record {
        ApiKeyAction::Renew
    } else {
        ApiKeyAction::Insert { valid_until }
    };
    ApiKeyRequest { api_key, action }
}

/// An expired key is refused; otherwise the request is allowed when the key
/// belongs to the user with the given id (in hyphenated form).
pub fn verify_api(user_api: &UserApi, now: i128, user_id: &str) -> (r: ResponseResult<bool>)
    ensures
        user_api.valid_until < now ==> r matches Err(ResponseError::NotAuthenticated),
        user_api.valid_until >= now ==> r == Ok::<bool, ResponseError>(
            uuid_hyphenated(user_api.user_id.value) == user_id@,
        ),
{
    if user_api.valid_until < now {
        return Err(ResponseError::NotAuthenticated);
    }
    let owner = user_api.user_id.to_string();
    let given = user_id.to_string();
    Ok(owner == given)
}

} // verus!
