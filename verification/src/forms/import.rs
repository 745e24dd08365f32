use vstd::prelude::*;

verus! {

/// The API token for importing articles from Omnivore.
#[derive(Debug)]
pub struct ImportFromOmnivore {
    pub api_token: String,
}

} // verus!
