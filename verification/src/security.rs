//! The header that keeps browsers on HTTPS.

use crate::headers::{header_entries, set_header};
use actix_web::http::header::HeaderMap;
use vstd::prelude::*;

verus! {

/// Name of the Strict-Transport-Security header, as header maps hold it.
pub open spec fn hsts_name() -> Seq<char> {
    "strict-transport-security"@
}

/// The site's policy: two years, subdomains included, fit for preloading.
pub open spec fn hsts_policy() -> Seq<char> {
    "max-age=63072000; includeSubDomains; preload"@
}

/// The headers of an answer once the policy is on it: whatever the
/// Strict-Transport-Security header held before, it then holds the site's
/// policy and nothing else.
pub open spec fn with_hsts(entries: Map<Seq<char>, Seq<Seq<char>>>) -> Map<
    Seq<char>,
    Seq<Seq<char>>,
> {
    entries.insert(hsts_name(), seq![hsts_policy()])
}

/// Puts the Strict-Transport-Security header on an answer that is about to
/// leave the encrypted listener, whatever its status: the header then holds
/// exactly the site's policy, and no other header changes.
pub fn force_hsts(headers: &mut HeaderMap)
    ensures
        header_entries(*final(headers)) == with_hsts(header_entries(*old(headers))),
        header_entries(*final(headers)).contains_key(hsts_name()),
        header_entries(*final(headers))[hsts_name()] == seq![hsts_policy()],
{
    proof {
        reveal_strlit("strict-transport-security");
        reveal_strlit("max-age=63072000; includeSubDomains; preload");
    }
    set_header(headers, "strict-transport-security", "max-age=63072000; includeSubDomains; preload");
}

/// Every answer that has passed the middleware carries the policy, and it
/// is the only value of its header.
pub proof fn hsts_always_present(entries: Map<Seq<char>, Seq<Seq<char>>>)
    ensures
        with_hsts(entries).contains_key(hsts_name()),
        with_hsts(entries)[hsts_name()] == seq![hsts_policy()],
{
}

/// The middleware leaves every other header as the handler set it: present
/// or absent, and with the same values.
pub proof fn hsts_keeps_other_headers(entries: Map<Seq<char>, Seq<Seq<char>>>, name: Seq<char>)
    requires
        name != hsts_name(),
    ensures
        with_hsts(entries).contains_key(name) == entries.contains_key(name),
        with_hsts(entries)[name] == entries[name],
{
}

/// Passing the middleware twice changes nothing that passing it once did not.
pub proof fn hsts_twice_is_once(entries: Map<Seq<char>, Seq<Seq<char>>>)
    ensures
        with_hsts(with_hsts(entries)) == with_hsts(entries),
{
    assert(with_hsts(with_hsts(entries)) =~= with_hsts(entries));
}

} // verus!
