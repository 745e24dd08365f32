//! Users as they are sent to and received from other instances.
use crate::db::ap_users::ApUser;
use crate::federation::verification::{verify_domains_match, FederationError};
use crate::forms::ap_users::{create_ap_user_entries, CreateApUser};
use crate::response_error::{is_anyhow, ResponseError, ResponseResult};
use crate::text::concat2;
use crate::urls::url_domain;
use crate::validation::report_text;
use vstd::prelude::*;

verus! {

broadcast use vstd::string::group_string_axioms;

/// The public key of an actor, with id `{owner}#main-key`.
#[derive(Debug)]
pub struct PublicKey {
    pub id: String,
    /// The actor's id, as a serialized URL.
    pub owner: String,
    pub public_key_pem: String,
}

/// An ActivityPub `Person`; URLs are serialized.
#[derive(Debug)]
pub struct Person {
    pub id: String,
    pub preferred_username: String,
    pub name: Option<String>,
    pub summary: Option<String>,
    pub inbox: String,
    pub public_key: PublicKey,
}

pub open spec fn main_key_id(owner: Seq<char>) -> Seq<char> {
    owner + "#main-key"@
}

impl ApUser {
    /// The actor's public key as it is federated.
    pub fn public_key(&self) -> (k: PublicKey)
        ensures
            k.id@ == main_key_id(self.ap_id@),
            k.owner@ == self.ap_id@,
            k.public_key_pem@ == self.public_key@,
    {
        PublicKey {
            id: concat2(self.ap_id.as_str(), "#main-key"),
            owner: self.ap_id.clone(),
            public_key_pem: self.public_key.clone(),
        }
    }

    /// The user as a federated `Person`.
    pub fn into_json(self) -> (p: Person)
        ensures
            p.id@ == self.ap_id@,
            p.preferred_username@ == self.username@,
            p.name == self.display_name,
            p.summary == self.bio,
            p.inbox@ == self.inbox_url@,
            p.public_key.id@ == main_key_id(self.ap_id@),
            p.public_key.owner@ == self.ap_id@,
            p.public_key.public_key_pem@ == self.public_key@,
    {
        let public_key = self.public_key();
        Person {
            id: self.ap_id,
            name: self.display_name,
            preferred_username: self.username,
            inbox: self.inbox_url,
            public_key,
            summary: self.bio,
        }
    }
}

/// The checks on a `Person` received from the instance at `expected_domain`
/// (a URL): its id lies on that domain, and it makes a valid new user.
pub fn verify_person(json: Person, expected_domain: &str) -> (r: ResponseResult<()>)
    ensures
        url_domain(json.id@) != url_domain(expected_domain@) ==> r == Err::<(), ResponseError>(
            ResponseError::FederationError(FederationError::DomainsDoNotMatch),
        ),
        url_domain(json.id@) == url_domain(expected_domain@) ==> {
            &&& r is Ok <==> CreateApUser::remote_entries(json).len() == 0
            &&& CreateApUser::remote_entries(json).len() > 0 ==> is_anyhow(
                r,
                report_text(CreateApUser::remote_entries(json)),
            )
        },
{
    let ghost j = json;
    if let Err(e) = verify_domains_match(json.id.as_str(), expected_domain) {
        return Err(ResponseError::FederationError(e));
    }
    let create = match CreateApUser::try_from(json) {
        Ok(c) => c,
        Err(e) => {
            return Err(e);
        },
    };
    assert(create_ap_user_entries(create) =~= CreateApUser::remote_entries(j));
    match create.validate() {
        Ok(()) => Ok(()),
        Err(report) => Err(ResponseError::Anyhow(report.to_string())),
    }
}

} // verus!
