//! Building the request for one page.
//!
//! The URL is the fixed base path plus the collection slug, followed by a
//! query string holding `event_type` exactly when a filter was supplied
//! and `next` exactly when a cursor is carried from the previous page.
//! The query string itself is serde_urlencoded's rendering of those
//! pairs, reached through the trusted item below.

use vstd::prelude::*;

use vstd::string::StringExecFns;

verus! {

/// The form-urlencoded rendering of a list of key-value pairs, as
/// serde_urlencoded produces it. It depends on the pairs alone.
pub uninterp spec fn form_encoded(pairs: Seq<(Seq<char>, Seq<char>)>) -> Seq<char>;

/// The views of a list of string pairs.
pub open spec fn pair_views(pairs: Seq<(String, String)>) -> Seq<(Seq<char>, Seq<char>)> {
    pairs.map_values(|p: (String, String)| (p.0@, p.1@))
}

/// Relies on serde_urlencoded::to_string: form-encodes the pairs. On
/// pairs of plain strings its serializer cannot fail.
#[verifier::external_body]
fn encode_pairs(pairs: &Vec<(String, String)>) -> (r: String)
    ensures
        r@ == form_encoded(pair_views(pairs@)),
{
    match serde_urlencoded::to_string(pairs) {
        Ok(s) => s,
        Err(_) => String::new(),
    }
}

/// The view of an optional string.
pub open spec fn opt_view(o: Option<String>) -> Option<Seq<char>> {
    match o {
        Some(s) => Some(s@),
        None => None,
    }
}

/// The fixed base path; the collection slug completes it.
pub open spec fn spec_base_url() -> Seq<char> {
    "https://api.opensea.io/api/v2/events/collection/"@
}

/// The query pairs of one request: `event_type` exactly when a filter is
/// supplied, then `next` exactly when a cursor is held.
pub open spec fn spec_query_pairs(event_type: Option<Seq<char>>, cursor: Option<Seq<char>>) -> Seq<
    (Seq<char>, Seq<char>),
> {
    (match event_type {
        Some(t) => seq![("event_type"@, t)],
        None => Seq::empty(),
    }) + (match cursor {
        Some(c) => seq![("next"@, c)],
        None => Seq::empty(),
    })
}

/// The full URL of one request: base path, slug, and, when any query pair
/// is present, `?` and the encoded pairs.
pub open spec fn spec_url(
    slug: Seq<char>,
    event_type: Option<Seq<char>>,
    cursor: Option<Seq<char>>,
) -> Seq<char> {
    let pairs = spec_query_pairs(event_type, cursor);
    if pairs.len() == 0 {
        spec_base_url() + slug
    } else {
        spec_base_url() + slug + "?"@ + form_encoded(pairs)
    }
}

/// One request to issue: the full URL, and the API key to send in an
/// `x-api-key` header when one was supplied. An `Accept:
/// application/json` header accompanies every request.
pub struct Request {
    pub url: String,
    pub api_key: Option<String>,
}

/// Builds the request for one page of the walk.
pub fn build_request(
    slug: &String,
    event_type: &Option<String>,
    cursor: &Option<String>,
    api_key: &Option<String>,
) -> (r: Request)
    ensures
        r.url@ == spec_url(slug@, opt_view(*event_type), opt_view(*cursor)),
        opt_view(r.api_key) == opt_view(*api_key),
{
    let mut url: String = "https://api.opensea.io/api/v2/events/collection/".to_owned();
    url.append(slug.as_str());
    let mut pairs: Vec<(String, String)> = Vec::new();
    if let Some(t) = event_type {
        pairs.push(("event_type".to_owned(), t.clone()));
    }
    if let Some(c) = cursor {
        pairs.push(("next".to_owned(), c.clone()));
    }
    proof {
        assert(pair_views(pairs@) =~= spec_query_pairs(opt_view(*event_type), opt_view(*cursor)));
    }
    if pairs.len() > 0 {
        url.append("?");
        let q = encode_pairs(&pairs);
        url.append(q.as_str());
    }
    let key: Option<String> = match api_key {
        Some(k) => Some(k.clone()),
        None => None,
    };
    Request { url, api_key: key }
}

} // verus!
