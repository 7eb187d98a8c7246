//! Which requests of the encrypted listener leave the site.

use vstd::prelude::*;
use vstd::string::StrSliceExecFns;

verus! {

/// The domain whose front page is sent to the festival's site.
pub open spec fn crapulerie_domain() -> Seq<char> {
    "crapulerie.ch"@
}

/// A request for the front page: the path `/`, or none at all.
pub open spec fn is_front_page(path: Seq<char>) -> bool {
    path.len() == 0 || path == seq!['/']
}

/// Whether a request goes to the festival's site: the name of its host ends
/// with that domain, and it asks for the front page.
pub open spec fn goes_to_balelec(host: Option<Seq<char>>, path: Seq<char>) -> bool {
    host matches Some(h) && crapulerie_domain().is_suffix_of(h) && is_front_page(path)
}

/// Whether `text` ends with `suffix`.
pub fn ends_with(text: &str, suffix: &str) -> (found: bool)
    ensures
        found == suffix@.is_suffix_of(text@),
{
    let n: usize = text.unicode_len();
    let m: usize = suffix.unicode_len();
    if n < m {
        return false;
    }
    let tail = text.substring_char(n - m, n);
    tail.to_owned() == suffix.to_owned()
}

/// The guard of the route that redirects to the festival's site, on the host
/// of the request's URI, if it names one, and on its path.
pub fn wants_balelec(host: Option<&str>, path: &str) -> (wanted: bool)
    ensures
        wanted == goes_to_balelec(
            match host {
                Some(h) => Some(h@),
                None => None,
            },
            path@,
        ),
{
    let on_old_domain = match host {
        None => false,
        Some(h) => ends_with(h, "crapulerie.ch"),
    };
    let len: usize = path.unicode_len();
    let front_page = len == 0 || (len == 1 && path.get_char(0) == '/');
    assert(front_page == is_front_page(path@)) by {
        if front_page && len == 1 {
            assert(path@ =~= seq!['/']);
        }
    }
    on_old_domain && front_page
}

} // verus!
