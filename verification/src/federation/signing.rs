//! Key pairs for signing federated HTTP requests.
use crate::response_error::{ResponseError, ResponseResult};
use vstd::prelude::*;

verus! {

/// A private/public RSA key pair in PEM format.
#[derive(Debug)]
pub struct Keypair {
    pub private_key: String,
    pub public_key: String,
}

/// The first line of a PEM document with the given label, without its line
/// ending: `-----BEGIN {label}-----`.
pub open spec fn pem_begin(label: Seq<char>) -> Seq<char> {
    "-----BEGIN "@ + label + "-----"@
}

/// A key pair as the federation crate writes it: the private key a PKCS#8
/// PEM document (label `PRIVATE KEY`), the public key an SPKI PEM document
/// (label `PUBLIC KEY`).
pub open spec fn pem_keypair(k: Keypair) -> bool {
    &&& pem_begin("PRIVATE KEY"@).is_prefix_of(k.private_key@)
    &&& pem_begin("PUBLIC KEY"@).is_prefix_of(k.public_key@)
}

/// Calls `activitypub_federation::http_signatures::generate_actor_keypair`,
/// which creates a random 2048-bit RSA key pair and writes the private key
/// with `to_pkcs8_pem` and the public key with `to_public_key_pem`. Those
/// start each document with `-----BEGIN ` and the label (`PRIVATE KEY`,
/// `PUBLIC KEY`) and `-----`, which the contract states. The key material is
/// random and is not stated; a failure is returned with its message.
#[verifier::external_body]
fn generate_actor_keypair() -> (r: Result<Keypair, String>)
    ensures
        r matches Ok(k) ==> pem_keypair(k),
{
    activitypub_federation::http_signatures::generate_actor_keypair()
        .map(|k| Keypair { private_key: k.private_key, public_key: k.public_key })
        .map_err(|e| e.to_string())
}

/// A fresh key pair for a local actor, as PEM documents; a failure of the
/// key generation is an internal error.
pub fn generate_keypair() -> (r: ResponseResult<Keypair>)
    ensures
        r matches Ok(k) ==> pem_keypair(k),
        r is Err ==> r->Err_0 is Anyhow,
{
    match generate_actor_keypair() {
        Ok(k) => Ok(k),
        Err(m) => Err(ResponseError::Anyhow(m)),
    }
}

} // verus!
