//! Settings of the federation layer that follow from the instance's base URL.
use crate::response_error::{is_anyhow, ResponseError, ResponseResult};
use crate::urls::{domain_with_port, spec_domain_with_port};
use vstd::prelude::*;

verus! {

broadcast use vstd::string::group_string_axioms;

pub open spec fn missing_base_domain_message() -> Seq<char> {
    "Base URL must contain a domain name"@
}

/// The federation domain of this instance: the base URL's domain, with its
/// port when it names one.
pub fn federation_domain(base_url: &str) -> (r: ResponseResult<String>)
    ensures
        r is Ok <==> spec_domain_with_port(base_url@) is Some,
        r matches Ok(d) ==> Some(d@) == spec_domain_with_port(base_url@),
        r is Err ==> is_anyhow(r, missing_base_domain_message()),
{
    match domain_with_port(base_url) {
        Some(d) => Ok(d),
        None => Err(ResponseError::Anyhow("Base URL must contain a domain name".to_string())),
    }
}

} // verus!
