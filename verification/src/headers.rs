//! Response headers, kept in the header map of the HTTP engine.

use actix_web::http::header::{HeaderMap, HeaderName, HeaderValue};
use vstd::prelude::*;

verus! {

/// The header multi-map of `actix_web`, opaque to the verifier.
#[verifier::external_type_specification]
#[verifier::external_body]
pub struct ExHeaderMap(HeaderMap);

/// What a header map holds: under each header name, in lower case, the
/// values stored for it, in order, each with its bytes read as UTF-8, lossily
/// where they are none, as `String::from_utf8_lossy` reads them.
pub uninterp spec fn header_entries(headers: HeaderMap) -> Map<Seq<char>, Seq<Seq<char>>>;

/// A character that may stand in a header value: a tab, or anything from the
/// space upwards but the delete character.
pub open spec fn is_value_char(c: char) -> bool {
    c == '\t' || (c >= ' ' && c != '\x7f')
}

/// Text that the engine takes as a header value.
pub open spec fn is_header_text(text: Seq<char>) -> bool {
    forall|i: int| 0 <= i < text.len() ==> is_value_char(#[trigger] text[i])
}

/// A character of the plain header names this library writes.
pub open spec fn is_name_char(c: char) -> bool {
    ('a' <= c && c <= 'z') || ('0' <= c && c <= '9') || c == '-'
}

/// A header name made of lower-case letters, digits and hyphens only.
pub open spec fn is_plain_name(name: Seq<char>) -> bool {
    &&& 0 < name.len() <= 64
    &&& forall|i: int| 0 <= i < name.len() ==> is_name_char(#[trigger] name[i])
}

/// The entries of a map that holds nothing.
pub open spec fn no_entries() -> Map<Seq<char>, Seq<Seq<char>>> {
    Map::empty()
}

/// `HeaderMap::new`: a map that holds nothing.
#[verifier::external_body]
pub(crate) fn empty_headers() -> (headers: HeaderMap)
    ensures
        header_entries(headers) == no_entries(),
{
    HeaderMap::new()
}

/// `HeaderMap::insert` under `HeaderName::from_static(name)`, with the value
/// that `HeaderValue::from_str` makes of `value`. Where `from_str` takes the
/// text, the value becomes the only one under that name and every other name
/// keeps what it had; where it refuses the text, the map stays as it was.
#[verifier::external_body]
pub(crate) fn set_header(headers: &mut HeaderMap, name: &'static str, value: &str) -> (stored: bool)
    requires
        is_plain_name(name@),
    ensures
        stored == is_header_text(value@),
        stored ==> header_entries(*final(headers)) == header_entries(*old(headers)).insert(
            name@,
            seq![value@],
        ),
        !stored ==> header_entries(*final(headers)) == header_entries(*old(headers)),
{
    match HeaderValue::from_str(value) {
        Ok(v) => {
            headers.insert(HeaderName::from_static(name), v);
            true
        },
        Err(_) => false,
    }
}

} // verus!
