//! The two values that pass through the site's handlers: what is read of a
//! request, and the answer to it.

use crate::headers::{empty_headers, header_entries, is_header_text, no_entries, set_header};
use actix_web::http::header::HeaderMap;
use vstd::prelude::*;

verus! {

/// Status of a permanent redirect that keeps the request's method.
pub const PERMANENT_REDIRECT: u16 = 308;

/// Status of the not-found page.
pub const NOT_FOUND: u16 = 404;

/// Status of an answer that the server could not build.
pub const INTERNAL_SERVER_ERROR: u16 = 500;

/// What a handler reads of an incoming request.
#[derive(Debug)]
pub struct Request {
    /// The host that the client asked for, as the connection reports it.
    pub host: String,
    /// Path and query of the request target; `None` where the target has
    /// neither, as in a bare `host:port`.
    pub path_and_query: Option<String>,
}

/// An answer: status code, headers and body.
#[derive(Debug)]
pub struct Response {
    pub status: u16,
    pub headers: HeaderMap,
    pub body: Vec<u8>,
}

/// Name of the header that carries a redirect's target.
pub open spec fn location_name() -> Seq<char> {
    "location"@
}

impl Response {
    /// The headers of this answer, by lower-case name.
    pub open spec fn entries(&self) -> Map<Seq<char>, Seq<Seq<char>>> {
        header_entries(self.headers)
    }

    /// A permanent redirect to `location`: nothing but the `Location` header,
    /// and no body.
    pub open spec fn is_redirect_to(&self, location: Seq<char>) -> bool {
        &&& self.status == PERMANENT_REDIRECT
        &&& self.entries() == no_entries().insert(location_name(), seq![location])
        &&& self.body@ == Seq::<u8>::empty()
    }

    /// A bare server error: no header, no body.
    pub open spec fn is_server_error(&self) -> bool {
        &&& self.status == INTERNAL_SERVER_ERROR
        &&& self.entries() == no_entries()
        &&& self.body@ == Seq::<u8>::empty()
    }

    /// An answer with the given status, no header and no body.
    pub fn empty(status: u16) -> (res: Response)
        ensures
            res.status == status,
            res.entries() == no_entries(),
            res.body@ == Seq::<u8>::empty(),
    {
        Response { status, headers: empty_headers(), body: Vec::new() }
    }

    /// The server error that stands in for an answer that could not be built.
    pub fn server_error() -> (res: Response)
        ensures
            res.is_server_error(),
    {
        Response::empty(INTERNAL_SERVER_ERROR)
    }

    /// A permanent redirect to `location`. Text that cannot stand in a header
    /// gives a server error instead, and never a redirect without a target.
    pub fn permanent_redirect(location: &str) -> (res: Response)
        ensures
            is_header_text(location@) ==> res.is_redirect_to(location@),
            !is_header_text(location@) ==> res.is_server_error(),
    {
        let mut res = Response::empty(PERMANENT_REDIRECT);
        proof {
            reveal_strlit("location");
        }
        let stored = set_header(&mut res.headers, "location", location);
        if stored {
            res
        } else {
            Response::server_error()
        }
    }
}

} // verus!
