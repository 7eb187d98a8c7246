//! The answers that do not come from a file of the site: the not-found page
//! and the two redirects.

use crate::headers::is_header_text;
use crate::response::{Request, Response, NOT_FOUND};
use crate::uri::{
    https_address, https_uri, is_authority, is_path_and_query, is_shown_as_is, parse_authority,
    shown_as_it_stands, MAX_PATH_AND_QUERY,
};
use vstd::prelude::*;
use vstd::string::StrSliceExecFns;

verus! {

/// Where a redirect goes when no target can be built from the request.
pub open spec fn fallback_uri() -> Seq<char> {
    "https://mrandl.fr/"@
}

/// Where the front page of the other domain is sent.
pub open spec fn balelec_uri() -> Seq<char> {
    "https://www.balelec.ch"@
}

/// Whether the request's own address can be rebuilt over HTTPS: its host is
/// an authority, and its target has a path, with or without a query, that
/// parses and is no longer than the engine reads.
pub open spec fn can_keep_address(req: Request) -> bool {
    &&& is_authority(req.host@)
    &&& req.path_and_query matches Some(p)
    &&& p@.len() <= MAX_PATH_AND_QUERY
    &&& is_path_and_query(p@)
}

/// The target of the redirect to HTTPS: the request's own host, path and
/// query behind the scheme `https`, or else the site's fixed address.
pub open spec fn redirect_target(req: Request) -> Seq<char> {
    if can_keep_address(req) {
        https_address(req.host@, req.path_and_query.unwrap()@)
    } else {
        fallback_uri()
    }
}

/// The answer for a path that no file matches: the not-found page as it was
/// served from disk, under the status 404. A page that could not be read
/// gives a server error, never an empty success.
pub fn answer404(page: Option<Response>) -> (res: Response)
    ensures
        match page {
            Some(p) => res.status == NOT_FOUND && res.headers == p.headers && res.body == p.body,
            None => res.is_server_error(),
        },
{
    match page {
        Some(p) => Response { status: NOT_FOUND, headers: p.headers, body: p.body },
        None => Response::server_error(),
    }
}

/// The permanent redirect to the festival's site, whatever was asked.
pub fn to_balelec() -> (res: Response)
    ensures
        res.is_redirect_to(balelec_uri()),
{
    proof {
        reveal_strlit("https://www.balelec.ch");
    }
    Response::permanent_redirect("https://www.balelec.ch")
}

/// The redirect to a target URI, or to the site's own address where none
/// could be built.
pub fn redirect_or_fallback(uri: Option<String>) -> (res: Response)
    ensures
        match uri {
            Some(u) => if is_header_text(u@) {
                res.is_redirect_to(u@)
            } else {
                res.is_server_error()
            },
            None => res.is_redirect_to(fallback_uri()),
        },
{
    match uri {
        Some(u) => Response::permanent_redirect(u.as_str()),
        None => {
            proof {
                reveal_strlit("https://mrandl.fr/");
            }
            Response::permanent_redirect("https://mrandl.fr/")
        },
    }
}

/// The answer of the plaintext listener, whatever the method and the path:
/// a permanent redirect to the same host, path and query over HTTPS. Where
/// that address cannot be rebuilt, because the host is no authority or the
/// target has no path that parses, the redirect goes to the site's fixed
/// address. So the target always starts with `https://`, and a path without
/// a fragment follows the host unchanged, with its query.
pub fn redirect_to_https(req: &Request) -> (res: Response)
    ensures
        res.is_redirect_to(redirect_target(*req)),
        "https://"@.is_prefix_of(redirect_target(*req)),
        !is_authority(req.host@) ==> redirect_target(*req) == fallback_uri(),
        req.path_and_query is None ==> redirect_target(*req) == fallback_uri(),
        req.path_and_query matches Some(p) ==> (can_keep_address(*req) && is_shown_as_is(p@)
            ==> redirect_target(*req) == "https://"@ + req.host@ + p@),
{
    proof {
        reveal_strlit("https://mrandl.fr/");
        reveal_strlit("https://");
        if req.path_and_query is Some && is_shown_as_is(req.path_and_query.unwrap()@) {
            shown_as_it_stands(req.host@, req.path_and_query.unwrap()@);
        }
    }
    let path_and_query = match &req.path_and_query {
        Some(p) => Some(p.as_str()),
        None => None,
    };
    let fits = match path_and_query {
        Some(p) => p.unicode_len() <= MAX_PATH_AND_QUERY,
        None => true,
    };
    if !fits {
        return redirect_or_fallback(None);
    }
    match parse_authority(req.host.as_str()) {
        Some(authority) => redirect_or_fallback(https_uri(authority.as_str(), path_and_query)),
        None => redirect_or_fallback(None),
    }
}

} // verus!
