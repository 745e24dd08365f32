//! Identifiers of locally created ActivityPub objects.
use crate::ids::{uuid_hyphenated, Uuid};
use crate::urls::{join, url_join};
use vstd::prelude::*;

verus! {

/// `{base_url}{prefix}{id}`, resolved as URL references: first `prefix`
/// against the base URL, then the hyphenated id against the result.
pub open spec fn spec_object_url(base_url: Seq<char>, prefix: Seq<char>, id: Uuid) -> Option<
    Seq<char>,
> {
    match url_join(base_url, prefix) {
        Some(dir) => url_join(dir, uuid_hyphenated(id.value)),
        None => None,
    }
}

/// Resolves `prefix` and then the hyphenated `id` against `base_url`.
pub fn object_url(base_url: &str, prefix: &str, id: Uuid) -> (r: Result<String, ::url::ParseError>)
    ensures
        r is Ok <==> spec_object_url(base_url@, prefix@, id) is Some,
        r matches Ok(u) ==> spec_object_url(base_url@, prefix@, id) == Some(u@),
{
    let dir = join(base_url, prefix)?;
    let id_text = id.to_string();
    join(dir.as_str(), id_text.as_str())
}

pub open spec fn activity_prefix() -> Seq<char> {
    "/ap/activity/"@
}

/// The id of the activity with identifier `id`: `{base_url}/ap/activity/{id}`.
pub fn activity_id(base_url: &str, id: Uuid) -> (r: Result<String, ::url::ParseError>)
    ensures
        r is Ok <==> spec_object_url(base_url@, activity_prefix(), id) is Some,
        r matches Ok(u) ==> spec_object_url(base_url@, activity_prefix(), id) == Some(u@),
{
    proof {
        reveal_strlit("/ap/activity/");
    }
    object_url(base_url, "/ap/activity/", id)
}

/// `id` is a random (version 4) identifier.
pub open spec fn is_v4(id: Uuid) -> bool {
    &&& (id.value >> 76u128) & 0xfu128 == 4
    &&& (id.value >> 62u128) & 0x3u128 == 2
}

/// A fresh activity id under `base_url`, for a new random identifier.
pub fn generate_id(base_url: &str) -> (r: Result<String, ::url::ParseError>)
    ensures
        exists|id: Uuid|
            #![trigger spec_object_url(base_url@, activity_prefix(), id)]
            is_v4(id) && (r is Ok <==> spec_object_url(base_url@, activity_prefix(), id) is Some)
                && (r matches Ok(u) ==> spec_object_url(base_url@, activity_prefix(), id) == Some(
                u@,
            )),
{
    let id = Uuid::new_v4();
    activity_id(base_url, id)
}

} // verus!
