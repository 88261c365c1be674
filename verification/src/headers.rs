//! The headers that go with every request.

use reqwest::header::{HeaderMap, HeaderValue};
use vstd::prelude::*;
use vstd::utf8::encode_utf8;

verus! {

/// `reqwest::header::HeaderMap`, the headers of a request.
#[verifier::external_type_specification]
#[verifier::external_body]
#[verifier::reject_recursive_types(T)]
pub struct ExHeaderMap<T>(HeaderMap<T>);

/// `reqwest::header::HeaderValue`, the value of one header.
#[verifier::external_type_specification]
#[verifier::external_body]
pub struct ExHeaderValue(HeaderValue);

/// What a header map holds: for each header name, in lower case, the bytes of
/// the first value stored under it.
pub uninterp spec fn header_entries(headers: HeaderMap<HeaderValue>) -> Map<Seq<char>, Seq<u8>>;

/// The bytes of a header value.
pub uninterp spec fn header_bytes(value: HeaderValue) -> Seq<u8>;

/// The headers that the client sets.
#[derive(Clone, Copy, Debug, PartialEq, Eq)]
pub enum Header {
    Authorization,
    ContentType,
}

impl Header {
    /// The name of the header as it stands in a header map.
    pub open spec fn name(self) -> Seq<char> {
        match self {
            Header::Authorization => "authorization"@,
            Header::ContentType => "content-type"@,
        }
    }
}

/// Whether a character may stand in the value of a header: a tab, or any
/// character from the space on but for the delete character.
pub open spec fn is_header_char(c: char) -> bool {
    c == '\t' || (c >= ' ' && c != '\x7f')
}

/// Whether a character is a visible ASCII character or a tab.
pub open spec fn is_visible_char(c: char) -> bool {
    c == '\t' || (c >= ' ' && c < '\x7f')
}

/// Whether a text holds visible ASCII characters and tabs only.
pub open spec fn is_visible_text(text: Seq<char>) -> bool {
    forall|i: int| 0 <= i < text.len() ==> is_visible_char(#[trigger] text[i])
}

/// Whether a text may be the value of a header.
pub open spec fn is_header_text(text: Seq<char>) -> bool {
    forall|i: int| 0 <= i < text.len() ==> is_header_char(#[trigger] text[i])
}

/// The entries of a map that holds nothing.
pub open spec fn no_headers() -> Map<Seq<char>, Seq<u8>> {
    Map::empty()
}

/// Calls `HeaderMap::new`, which makes a map without entries.
#[verifier::external_body]
fn empty_headers() -> (headers: HeaderMap<HeaderValue>)
    ensures
        header_entries(headers) == no_headers(),
{
    HeaderMap::new()
}

/// Calls `HeaderValue::from_str`, which takes the bytes of a text whose every
/// byte is a tab or at least 32 and not 127, and refuses every other text.
#[verifier::external_body]
fn header_value(text: &str) -> (value: Option<HeaderValue>)
    ensures
        value is Some <==> is_header_text(text@),
        value matches Some(v) ==> header_bytes(v) == encode_utf8(text@),
{
    HeaderValue::from_str(text).ok()
}

/// Calls `HeaderMap::insert` with the name `AUTHORIZATION` or `CONTENT_TYPE`.
/// The value replaces all that the map held under that name; the other names
/// keep theirs. A map of fewer than a thousand names has room for one more.
#[verifier::external_body]
fn insert_header(headers: &mut HeaderMap<HeaderValue>, header: Header, value: HeaderValue)
    requires
        header_entries(*old(headers)).dom().finite(),
        header_entries(*old(headers)).len() < 1000,
    ensures
        header_entries(*final(headers)) == header_entries(*old(headers)).insert(
            header.name(),
            header_bytes(value),
        ),
{
    let name = match header {
        Header::Authorization => reqwest::header::AUTHORIZATION,
        Header::ContentType => reqwest::header::CONTENT_TYPE,
    };
    headers.insert(name, value);
}

/// Calls `HeaderValue::from_static`, which takes the bytes of a text of
/// visible ASCII characters and tabs, and panics on every other text.
#[verifier::external_body]
fn static_header_value(text: &'static str) -> (value: HeaderValue)
    requires
        is_visible_text(text@),
    ensures
        header_bytes(value) == encode_utf8(text@),
{
    HeaderValue::from_static(text)
}

/// The entries of the headers that go with every request: the token as the
/// authorization, and JSON as the content type.
pub open spec fn client_headers(token: Seq<char>) -> Map<Seq<char>, Seq<u8>> {
    no_headers().insert(Header::Authorization.name(), encode_utf8(token)).insert(
        Header::ContentType.name(),
        encode_utf8("application/json"@),
    )
}

/// Whether `token` can stand in a header.
pub fn accepts_token(token: &str) -> (accepted: bool)
    ensures
        accepted == is_header_text(token@),
{
    header_value(token).is_some()
}

/// The headers that go with every request. The token must be a text that can
/// stand in a header.
pub fn json_headers(token: &str) -> (headers: HeaderMap<HeaderValue>)
    requires
        is_header_text(token@),
    ensures
        header_entries(headers) == client_headers(token@),
{
    let mut headers = empty_headers();
    match header_value(token) {
        Some(authorization) => {
            insert_header(&mut headers, Header::Authorization, authorization);
        },
        None => {},
    }
    proof {
        reveal_strlit("application/json");
        let first = no_headers().insert(Header::Authorization.name(), encode_utf8(token@));
        assert(first.dom() =~= set![Header::Authorization.name()]);
    }
    let content_type = static_header_value("application/json");
    insert_header(&mut headers, Header::ContentType, content_type);
    headers
}

} // verus!
