//! Bookmarks as federated `Note` objects.
use crate::db::bookmarks::InsertBookmark;
use crate::response_error::{is_anyhow, ResponseError, ResponseResult};
use vstd::prelude::*;

verus! {

broadcast use vstd::string::group_string_axioms;

/// A link attached to a federated object.
#[derive(Debug)]
pub struct Link {
    /// Serialized URL.
    pub href: String,
    pub media_type: Option<String>,
}

/// A bookmark as it is federated: a `Note` whose name is the title and whose
/// first attachment is the bookmarked URL.
#[derive(Debug)]
pub struct BookmarkJson {
    /// The author's ActivityPub id (serialized URL).
    pub attributed_to: String,
    pub name: Option<String>,
    pub attachments: Vec<Link>,
}

impl InsertBookmark {
    /// A received bookmark needs a URL (its first attachment) and a title.
    pub fn try_from_json(value: BookmarkJson) -> (r: ResponseResult<InsertBookmark>)
        ensures
            value.attachments@.len() == 0 ==> is_anyhow(r, "Missing URL"@),
            value.attachments@.len() > 0 && value.name is None ==> is_anyhow(r, "Missing title"@),
            r is Ok <==> (value.attachments@.len() > 0 && value.name is Some),
            r matches Ok(b) ==> b.url@ == value.attachments@[0].href@ && b.title@
                == value.name->0@,
    {
        let url = if value.attachments.len() > 0 {
            value.attachments[0].href.clone()
        } else {
            return Err(ResponseError::Anyhow("Missing URL".to_string()));
        };
        let title = match value.name {
            Some(t) => t,
            None => {
                return Err(ResponseError::Anyhow("Missing title".to_string()));
            },
        };
        Ok(InsertBookmark { url, title })
    }
}

} // verus!
