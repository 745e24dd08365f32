//! Previews of web pages: title, description and image, read from the page's HTML.
use crate::db::metadata::InsertMetadata;
use crate::urls::opt_view;
use vstd::prelude::*;
use vstd::string::StrSliceExecFns;
use vstd::utf8::valid_utf8;

verus! {

broadcast use vstd::string::group_string_axioms;

/// Title, description and image URL that `link_preview::LinkPreview::from`
/// finds in the HTML document `html` (read as UTF-8).
pub uninterp spec fn link_preview_of(html: Seq<u8>) -> (
    Option<Seq<char>>,
    Option<Seq<char>>,
    Option<Seq<char>>,
);

/// Reads `html` with `link_preview::html_from_bytes`, which fails exactly on
/// bytes that are not UTF-8, and extracts the preview with
/// `link_preview::LinkPreview::from`; the fields are tied to `link_preview_of`.
#[verifier::external_body]
fn preview_of(html: &[u8]) -> (r: Option<(Option<String>, Option<String>, Option<String>)>)
    ensures
        r is Some <==> valid_utf8(html@),
        r matches Some(p) ==> (opt_view(p.0), opt_view(p.1), opt_view(p.2)) == link_preview_of(
            html@,
        ),
{
    let document = link_preview::html_from_bytes(html).ok()?;
    let preview = link_preview::LinkPreview::from(&document);
    Some((preview.title, preview.description, preview.image_url.map(|u| u.to_string())))
}

/// `i` is the position of the last `c` in `s`.
pub open spec fn is_last_index_of(s: Seq<char>, c: char, i: int) -> bool {
    &&& 0 <= i < s.len()
    &&& s[i] == c
    &&& forall|k: int| i < k < s.len() ==> s[k] != c
}

/// The text after the last `/` of `url` (all of it when there is none).
pub open spec fn last_segment(url: Seq<char>) -> Seq<char> {
    if exists|i: int| is_last_index_of(url, '/', i) {
        url.skip((choose|i: int| is_last_index_of(url, '/', i)) + 1)
    } else {
        url
    }
}

proof fn lemma_last_index_unique(s: Seq<char>, c: char, i: int, j: int)
    requires
        is_last_index_of(s, c, i),
        is_last_index_of(s, c, j),
    ensures
        i == j,
{
    if i < j {
        assert(s[j] != c);
    } else if j < i {
        assert(s[i] != c);
    }
}

/// The last path segment of a URL, as `url.split("/").last()` gives it.
pub fn last_segment_of(url: &str) -> (r: String)
    ensures
        r@ == last_segment(url@),
{
    let n = url.unicode_len();
    let mut i: usize = n;
    while i > 0
        invariant
            n == url@.len(),
            i <= n,
            forall|k: int| i <= k < n ==> url@[k] != '/',
        decreases i,
    {
        if url.get_char(i - 1) == '/' {
            let ghost k = (i - 1) as int;
            assert(is_last_index_of(url@, '/', k));
            proof {
                let c = choose|j: int| is_last_index_of(url@, '/', j);
                lemma_last_index_unique(url@, '/', k, c);
            }
            let r = url.substring_char(i, n).to_string();
            assert(r@ =~= url@.skip(i as int));
            return r;
        }
        i = i - 1;
    }
    assert(!exists|j: int| is_last_index_of(url@, '/', j));
    url.to_string()
}

/// The preview of the page at `url` from its HTML: the page's own title, or
/// else the last segment of the URL; its description; its image URL.
pub open spec fn spec_metadata(url: Seq<char>, html: Seq<u8>, m: InsertMetadata) -> bool {
    let (title, description, image) = link_preview_of(html);
    &&& m.metadata_title@ == match title {
        Some(t) => t,
        None => last_segment(url),
    }
    &&& opt_view(m.metadata_description) == description
    &&& opt_view(m.metadata_image_url) == image
}

/// The preview of the page at `url`, given the page's content. Content that is
/// not UTF-8 is left out: reading it fails.
pub fn get_metadata(url: &str, html: &[u8]) -> (m: InsertMetadata)
    requires
        valid_utf8(html@),
    ensures
        spec_metadata(url@, html@, m),
{
    let (title, description, image_url) = match preview_of(html) {
        Some(p) => p,
        None => {
            assert(false);
            (None, None, None)
        },
    };
    let metadata_title = match title {
        Some(title) => title,
        None => last_segment_of(url),
    };
    InsertMetadata {
        metadata_title,
        metadata_description: description,
        metadata_image_url: image_url,
    }
}

} // verus!
