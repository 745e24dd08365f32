use crate::ids::Uuid;
use vstd::prelude::*;

verus! {

/// A preview of a web page.
#[derive(Debug)]
pub struct Metadata {
    pub id: Uuid,
    pub metadata_title: String,
    pub metadata_description: Option<String>,
    pub metadata_image_url: Option<String>,
}

#[derive(Debug)]
pub struct InsertMetadata {
    pub metadata_title: String,
    pub metadata_description: Option<String>,
    pub metadata_image_url: Option<String>,
}

} // verus!
