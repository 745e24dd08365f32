use vstd::prelude::*;

verus! {

/// Provider metadata beyond the standard: the token revocation endpoint.
#[derive(Debug)]
pub struct RevocationEndpointProviderMetadata {
    pub revocation_endpoint: String,
}

/// The secrets of a single sign-on attempt kept in the session.
#[derive(Debug)]
pub struct OidcSession {
    pub nonce: String,
    pub csrf_token: String,
}

} // verus!
