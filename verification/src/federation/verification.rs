//! Checks on incoming federated data: whether two URLs share a domain, are
//! identical, or refer to this instance.
use crate::urls::{domain, host_with_port, opt_view, spec_host_with_port, url_domain};
use vstd::prelude::*;

verus! {

broadcast use vstd::string::group_string_axioms;

/// Why federated data was rejected.
#[derive(Debug)]
pub enum FederationError {
    DomainsDoNotMatch,
    UrlsDoNotMatch,
    ObjectIsNotRemote,
    /// Any other failure reported while federating, with its message.
    Other(String),
}

pub open spec fn federation_message(e: FederationError) -> Seq<char> {
    match e {
        FederationError::DomainsDoNotMatch => "Domains do not match"@,
        FederationError::UrlsDoNotMatch => "Urls do not match"@,
        FederationError::ObjectIsNotRemote => "Object is not remote"@,
        FederationError::Other(m) => m@,
    }
}

impl FederationError {
    /// The error's message.
    pub fn message(&self) -> (m: String)
        ensures
            m@ == federation_message(*self),
    {
        match self {
            FederationError::DomainsDoNotMatch => "Domains do not match".to_string(),
            FederationError::UrlsDoNotMatch => "Urls do not match".to_string(),
            FederationError::ObjectIsNotRemote => "Object is not remote".to_string(),
            FederationError::Other(m) => m.clone(),
        }
    }
}

pub fn opt_string_eq(a: &Option<String>, b: &Option<String>) -> (r: bool)
    ensures
        r == (opt_view(*a) == opt_view(*b)),
{
    match (a, b) {
        (Some(x), Some(y)) => x.eq(y),
        (None, None) => true,
        _ => false,
    }
}

/// Both URLs must have the same domain.
pub fn verify_domains_match(a: &str, b: &str) -> (r: Result<(), FederationError>)
    ensures
        r is Ok <==> url_domain(a@) == url_domain(b@),
        r is Err ==> r == Err::<(), FederationError>(FederationError::DomainsDoNotMatch),
{
    let da = domain(a);
    let db = domain(b);
    if !opt_string_eq(&da, &db) {
        return Err(FederationError::DomainsDoNotMatch);
    }
    Ok(())
}

/// Both URLs (in serialized form) must be identical.
pub fn verify_urls_match(a: &str, b: &str) -> (r: Result<(), FederationError>)
    ensures
        r is Ok <==> a@ == b@,
        r is Err ==> r == Err::<(), FederationError>(FederationError::UrlsDoNotMatch),
{
    let sa = a.to_string();
    let sb = b.to_string();
    if sa != sb {
        return Err(FederationError::UrlsDoNotMatch);
    }
    Ok(())
}

/// A URL refers to this instance when its `host[:port]` is the instance's
/// federation domain.
pub open spec fn spec_is_local_url(url: Seq<char>, local_domain: Seq<char>) -> bool {
    spec_host_with_port(url) == Some(local_domain)
}

pub fn is_local_url(url: &str, local_domain: &str) -> (r: bool)
    ensures
        r == spec_is_local_url(url@, local_domain@),
{
    match host_with_port(url) {
        Some(h) => {
            let l = local_domain.to_string();
            h == l
        },
        None => false,
    }
}

/// The object's id must not refer to this instance.
pub fn verify_is_remote_object(id: &str, local_domain: &str) -> (r: Result<(), FederationError>)
    ensures
        r is Ok <==> !spec_is_local_url(id@, local_domain@),
        r is Err ==> r == Err::<(), FederationError>(FederationError::ObjectIsNotRemote),
{
    if is_local_url(id, local_domain) {
        Err(FederationError::ObjectIsNotRemote)
    } else {
        Ok(())
    }
}

} // verus!
