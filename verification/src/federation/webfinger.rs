//! Webfinger resources: a user name together with the domain it lives on.
use crate::response_error::{is_anyhow, ResponseError, ResponseResult};
use crate::urls::{domain_with_port, spec_domain_with_port};
use vstd::prelude::*;
use vstd::string::StrSliceExecFns;

verus! {

broadcast use vstd::string::group_string_axioms;

#[derive(Debug)]
pub struct Resource {
    pub name: String,
    pub domain: String,
}

pub open spec fn missing_domain_message() -> Seq<char> {
    "Missing domain for webfinger resource URL"@
}

/// `i` is the position of the first `c` in `s`.
pub open spec fn is_first_index_of(s: Seq<char>, c: char, i: int) -> bool {
    &&& 0 <= i < s.len()
    &&& s[i] == c
    &&& forall|k: int| 0 <= k < i ==> s[k] != c
}

/// Position of the first `c` in `s`, if any.
pub fn find_char(s: &str, c: char) -> (r: Option<usize>)
    ensures
        r matches Some(i) ==> is_first_index_of(s@, c, i as int),
        r is None ==> forall|k: int| 0 <= k < s@.len() ==> s@[k] != c,
{
    let n = s.unicode_len();
    let mut i: usize = 0;
    while i < n
        invariant
            n == s@.len(),
            i <= n,
            forall|k: int| 0 <= k < i ==> s@[k] != c,
        decreases n - i,
    {
        if s.get_char(i) == c {
            return Some(i);
        }
        i = i + 1;
    }
    None
}

impl Resource {
    /// A handle is `name@domain`; a bare name lives on the local domain.
    pub fn parse_handle(handle: &str, local_domain: &str) -> (r: ResponseResult<Resource>)
        ensures
            forall|i: int|
                #![trigger is_first_index_of(handle@, '@', i)]
                is_first_index_of(handle@, '@', i) ==> (r matches Ok(res) && res.name@
                    == handle@.take(i) && res.domain@ == handle@.skip(i + 1)),
            (forall|k: int| 0 <= k < handle@.len() ==> handle@[k] != '@') ==> {
                &&& r is Ok <==> spec_domain_with_port(local_domain@) is Some
                &&& r matches Ok(res) ==> res.name@ == handle@ && Some(res.domain@)
                    == spec_domain_with_port(local_domain@)
                &&& r is Err ==> is_anyhow(r, missing_domain_message())
            },
    {
        match find_char(handle, '@') {
            Some(i) => {
                let n = handle.unicode_len();
                let name = handle.substring_char(0, i).to_string();
                let domain = handle.substring_char(i + 1, n).to_string();
                assert(handle@.subrange(0, i as int) == handle@.take(i as int));
                assert(handle@.subrange(i + 1, n as int) == handle@.skip(i + 1));
                Ok(Resource { name, domain })
            },
            // Assume the handle is only a username, and assume it's located on the local domain
            None => Self::from_name_and_url(handle.to_string(), local_domain),
        }
    }

    /// The resource `name` on the domain (and port) of `url`.
    pub fn from_name_and_url(name: String, url: &str) -> (r: ResponseResult<Resource>)
        ensures
            r is Ok <==> spec_domain_with_port(url@) is Some,
            r matches Ok(res) ==> res.name@ == name@ && Some(res.domain@) == spec_domain_with_port(
                url@,
            ),
            r is Err ==> is_anyhow(r, missing_domain_message()),
    {
        match domain_with_port(url) {
            Some(domain) => Ok(Resource { name, domain }),
            None => Err(
                ResponseError::Anyhow("Missing domain for webfinger resource URL".to_string()),
            ),
        }
    }
}

} // verus!
