//! The parts of a redirect target, parsed and put together by the `http`
//! crate that the engine is built on.

use crate::headers::is_header_text;
use actix_web::http::uri::{Authority, Parts, PathAndQuery, Scheme};
use actix_web::http::Uri;
use vstd::prelude::*;

verus! {

/// The longest request target that the engine's URI parser reads. A path
/// with its query beyond it never reaches a handler, and the parser of the
/// path alone keeps the place of the query in sixteen bits.
pub const MAX_PATH_AND_QUERY: usize = 65534;

/// Whether `Authority::from_maybe_shared` takes `text` as the authority of a
/// URI: a host, with user information before it or a port behind it if any.
pub uninterp spec fn is_authority(text: Seq<char>) -> bool;

/// Whether `PathAndQuery::from_maybe_shared` takes `text` as the path of a
/// URI with its query, if it has one.
pub uninterp spec fn is_path_and_query(text: Seq<char>) -> bool;

/// A path and query up to its fragment: the text before the first `#`.
pub open spec fn before_fragment(text: Seq<char>) -> Seq<char>
    decreases text.len(),
{
    if text.len() == 0 || text[0] == '#' {
        Seq::empty()
    } else {
        seq![text[0]] + before_fragment(text.drop_first())
    }
}

/// A path and query as a URI shows it: without its fragment, and with a
/// slash for a path that is empty.
pub open spec fn shown_path_and_query(text: Seq<char>) -> Seq<char> {
    let kept = before_fragment(text);
    if kept.len() == 0 || kept[0] == '?' {
        seq!['/'] + kept
    } else {
        kept
    }
}

/// The text of the URI with the scheme `https`, an authority, and a path
/// with its query.
pub open spec fn https_address(authority: Seq<char>, path_and_query: Seq<char>) -> Seq<char> {
    "https://"@ + authority + shown_path_and_query(path_and_query)
}

/// A path with its query that a URI shows as it stands: it starts with the
/// path and holds no fragment.
pub open spec fn is_shown_as_is(path_and_query: Seq<char>) -> bool {
    &&& 0 < path_and_query.len()
    &&& path_and_query[0] != '?'
    &&& !path_and_query.contains('#')
}

/// Text without a `#` has no fragment to lose.
pub proof fn no_fragment_keeps_all(text: Seq<char>)
    requires
        !text.contains('#'),
    ensures
        before_fragment(text) == text,
    decreases text.len(),
{
    if text.len() > 0 {
        assert(text[0] != '#');
        let rest = text.drop_first();
        assert forall|i: int| 0 <= i < rest.len() implies rest[i] != '#' by {
            assert(rest[i] == text[i + 1]);
        }
        no_fragment_keeps_all(rest);
        assert(seq![text[0]] + rest =~= text);
    } else {
        assert(before_fragment(text) =~= text);
    }
}

/// A path that is there, with or without a query and without a fragment,
/// stands in the URI as it was given.
pub proof fn shown_as_it_stands(authority: Seq<char>, path_and_query: Seq<char>)
    requires
        is_shown_as_is(path_and_query),
    ensures
        shown_path_and_query(path_and_query) == path_and_query,
        https_address(authority, path_and_query) == "https://"@ + authority + path_and_query,
{
    no_fragment_keeps_all(path_and_query);
}

/// `Authority::from_maybe_shared` on a copy of `host`, and `as_str` on what
/// it gives. The parser changes nothing: an authority that it accepts reads
/// as the text it was given.
#[verifier::external_body]
pub(crate) fn parse_authority(host: &str) -> (authority: Option<String>)
    ensures
        authority.is_some() == is_authority(host@),
        authority matches Some(a) ==> a@ == host@,
{
    match Authority::from_maybe_shared(host.to_owned()) {
        Ok(a) => Some(a.as_str().to_owned()),
        Err(_) => None,
    }
}

/// `Uri::from_parts` on the scheme `https`, the authority and the path and
/// query as `from_maybe_shared` reads them, then `to_string` on the URI.
/// With the scheme set, a URI is built where both other parts are there, so
/// where both parse. Its text is the scheme, the authority as given, the
/// path, or a slash for an empty one, and the query behind `?`; a fragment is
/// dropped. Both parsers take visible ASCII only, so the text can stand in a
/// header. All this holds of a path and query that the engine can hand over:
/// beyond that length the path parser's sixteen-bit place of the query wraps.
#[verifier::external_body]
pub(crate) fn https_uri(authority: &str, path_and_query: Option<&str>) -> (uri: Option<String>)
    requires
        path_and_query matches Some(p) ==> p@.len() <= MAX_PATH_AND_QUERY,
    ensures
        uri.is_some() == (is_authority(authority@) && (path_and_query matches Some(p)
            && is_path_and_query(p@))),
        uri matches Some(u) ==> (path_and_query matches Some(p) ==> u@ == https_address(
            authority@,
            p@,
        )),
        uri matches Some(u) ==> is_header_text(u@),
{
    let mut parts = Parts::default();
    parts.scheme = Some(Scheme::HTTPS);
    parts.authority = Authority::from_maybe_shared(authority.to_owned()).ok();
    parts.path_and_query = match path_and_query {
        Some(p) => PathAndQuery::from_maybe_shared(p.to_owned()).ok(),
        None => None,
    };
    match Uri::from_parts(parts) {
        Ok(u) => Some(u.to_string()),
        Err(_) => None,
    }
}

} // verus!
