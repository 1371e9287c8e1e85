//! The headers of requests and replies.
use axum::http::{HeaderMap, HeaderValue};
use vstd::prelude::*;

use crate::text::decimal;

verus! {

/// The value of one header, as `axum::http` has it.
#[verifier::external_type_specification]
#[verifier::external_body]
pub struct ExHeaderValue(HeaderValue);

/// A map of headers, as `axum::http` has it.
#[verifier::external_type_specification]
#[verifier::external_body]
#[verifier::reject_recursive_types(T)]
pub struct ExHeaderMap<T>(HeaderMap<T>);

/// The headers that a map holds: for each name, in lower case, its values in order.
pub uninterp spec fn headers_of(map: HeaderMap) -> Map<Seq<char>, Seq<Seq<u8>>>;

/// No headers.
pub open spec fn empty_headers() -> Map<Seq<char>, Seq<Seq<u8>>> {
    Map::empty()
}

/// As many names as a map can hold so that one more header never overflows it: a map whose names
/// collide grows once it is a fifth full, and holds 32768 places at most.
pub const MAX_HEADER_NAMES: usize = 6553;

/// Whether a character can stand in the name of a header that is written in lower case.
pub open spec fn is_name_char(c: char) -> bool {
    'a' <= c <= 'z' || '0' <= c <= '9' || c == '-'
}

/// Whether a text is the name of a header in lower case.
pub open spec fn is_header_name(name: Seq<char>) -> bool {
    0 < name.len() <= 64 && forall|i: int| 0 <= i < name.len() ==> is_name_char(#[trigger] name[i])
}

/// Whether a byte of a header's value can be read as text.
pub open spec fn is_visible(b: u8) -> bool {
    32 <= b <= 126 || b == 9
}

/// The characters of bytes that are ASCII.
pub open spec fn ascii_text(bytes: Seq<u8>) -> Seq<char> {
    bytes.map_values(|b: u8| b as char)
}

/// The bytes of a text that is ASCII.
pub open spec fn ascii_bytes(text: Seq<char>) -> Seq<u8> {
    text.map_values(|c: char| c as u8)
}

/// The text of a header's value, where all of it can be read as text.
pub open spec fn visible_text(bytes: Seq<u8>) -> Option<Seq<char>> {
    if forall|i: int| 0 <= i < bytes.len() ==> is_visible(#[trigger] bytes[i]) {
        Some(ascii_text(bytes))
    } else {
        None
    }
}

/// The first value of a header.
pub open spec fn header_value(headers: Map<Seq<char>, Seq<Seq<u8>>>, name: Seq<char>) -> Option<
    Seq<u8>,
> {
    if headers.contains_key(name) && headers[name].len() > 0 {
        Some(headers[name][0])
    } else {
        None
    }
}

/// The bytes of an optional value.
pub open spec fn optional_value(value: Option<Vec<u8>>) -> Option<Seq<u8>> {
    match value {
        Some(value) => Some(value@),
        None => None,
    }
}

/// `HeaderMap::get` returns the first of a header's values, `None` where it has none. The
/// bytes of the value are copied out.
#[verifier::external_body]
pub(crate) fn first_value(headers: &HeaderMap, name: &str) -> (r: Option<Vec<u8>>)
    requires
        is_header_name(name@),
    ensures
        optional_value(r) == header_value(headers_of(*headers), name@),
{
    headers.get(name).map(|value| value.as_bytes().to_vec())
}

/// `HeaderMap::insert` gives a header one value in place of all that it has, and leaves the
/// other headers as they are. It panics on a map that is too large.
#[verifier::external_body]
pub(crate) fn set_value(headers: &mut HeaderMap, name: &'static str, value: &str)
    requires
        is_header_name(name@),
        headers_of(*old(headers)).dom().len() <= MAX_HEADER_NAMES,
        forall|i: int| 0 <= i < value@.len() ==> ' ' <= #[trigger] value@[i] <= '~',
    ensures
        headers_of(*final(headers)) == headers_of(*old(headers)).insert(
            name@,
            seq![ascii_bytes(value@)],
        ),
{
    headers.insert(name, HeaderValue::from_str(value).expect("visible ASCII"));
}

/// `HeaderMap::keys_len` returns how many names a map holds.
#[verifier::external_body]
fn name_count(headers: &HeaderMap) -> (r: usize)
    ensures
        r == headers_of(*headers).dom().len(),
{
    headers.keys_len()
}

/// `HeaderMap::new` returns a map without headers.
#[verifier::external_body]
pub(crate) fn no_headers() -> (r: HeaderMap)
    ensures
        headers_of(r) == empty_headers(),
{
    HeaderMap::new()
}

/// `HeaderMap::clone` returns a map with the same headers.
#[verifier::external_body]
pub(crate) fn copy_headers(headers: &HeaderMap) -> (r: HeaderMap)
    ensures
        headers_of(r) == headers_of(*headers),
{
    headers.clone()
}

/// Whether a map has room for one more header.
pub fn has_room(headers: &HeaderMap) -> (r: bool)
    ensures
        r == (headers_of(*headers).dom().len() <= MAX_HEADER_NAMES),
{
    name_count(headers) <= MAX_HEADER_NAMES
}

/// The text of bytes that can all be read as text.
pub fn text_of_value(value: &[u8]) -> (r: Option<String>)
    ensures
        crate::policy::optional_text(r) == visible_text(value@),
{
    let mut text: String = String::new();
    let mut i: usize = 0;
    while i < value.len()
        invariant
            i <= value.len(),
            forall|j: int| 0 <= j < i ==> is_visible(#[trigger] value@[j]),
            text@ == ascii_text(value@.take(i as int)),
        decreases value.len() - i,
    {
        let b: u8 = value[i];
        if !(b >= 32 && b <= 126 || b == 9) {
            return None;
        }
        text.push(b as char);
        proof {
            assert(text@ =~= ascii_text(value@.take(i + 1)));
        }
        i += 1;
    }
    proof {
        assert(value@.take(i as int) =~= value@);
    }
    Some(text)
}

/// Headers after one of them got a value in place of all that it has.
pub open spec fn with_header(
    headers: Map<Seq<char>, Seq<Seq<u8>>>,
    name: Seq<char>,
    value: Seq<char>,
) -> Map<Seq<char>, Seq<Seq<u8>>> {
    headers.insert(name, seq![ascii_bytes(value)])
}

/// Headers that say how long the body is.
pub open spec fn with_length(headers: Map<Seq<char>, Seq<Seq<u8>>>, length: nat) -> Map<
    Seq<char>,
    Seq<Seq<u8>>,
> {
    with_header(headers, "content-length"@, crate::text::decimal_text(length))
}

/// Says in the headers how long the body is.
pub fn set_content_length(headers: &mut HeaderMap, length: usize)
    requires
        headers_of(*old(headers)).dom().len() <= MAX_HEADER_NAMES,
    ensures
        headers_of(*final(headers)) == with_length(headers_of(*old(headers)), length as nat),
{
    let text: String = decimal(length);
    proof {
        reveal_strlit("content-length");
        crate::text::lemma_decimal_is_digits(length as nat);
    }
    set_value(headers, "content-length", text.as_str());
}

/// A reply with all of its body.
#[derive(Debug)]
pub struct Reply {
    pub status: u16,
    pub headers: HeaderMap,
    pub body: Vec<u8>,
}

/// The value of a [`Reply`].
pub struct ReplyView {
    pub status: u16,
    pub headers: Map<Seq<char>, Seq<Seq<u8>>>,
    pub body: Seq<u8>,
}

impl View for Reply {
    type V = ReplyView;

    open spec fn view(&self) -> ReplyView {
        ReplyView {
            status: self.status,
            headers: headers_of(self.headers),
            body: self.body@,
        }
    }
}

/// The status of a request that was served.
pub const OK: u16 = 200;

/// The status of a request that was served and has nothing to say.
pub const NO_CONTENT: u16 = 204;

/// Whether a status says that the request was served.
pub open spec fn succeeds(status: u16) -> bool {
    200 <= status < 300
}

/// Whether a status says that the request was served.
pub fn is_success(status: u16) -> (r: bool)
    ensures
        r == succeeds(status),
{
    status >= 200 && status < 300
}

/// The headers of a protocol message.
pub open spec fn proto_headers() -> Map<Seq<char>, Seq<Seq<u8>>> {
    with_header(empty_headers(), "content-type"@, "application/proto"@)
}

impl ReplyView {
    /// The reply that holds a protocol message.
    pub open spec fn proto(body: Seq<u8>) -> ReplyView {
        ReplyView { status: OK, headers: proto_headers(), body }
    }

    /// The reply that holds a protocol message and says how long it is.
    pub open spec fn sized_proto(body: Seq<u8>) -> ReplyView {
        ReplyView { status: OK, headers: with_length(proto_headers(), body.len()), body }
    }
}

/// The reply that holds a protocol message.
pub fn proto_reply(body: Vec<u8>) -> (r: Reply)
    ensures
        r@ == ReplyView::proto(body@),
{
    let mut headers: HeaderMap = no_headers();
    proof {
        reveal_strlit("content-type");
        reveal_strlit("application/proto");
    }
    set_value(&mut headers, "content-type", "application/proto");
    Reply { status: OK, headers, body }
}

/// The reply that holds a protocol message and says how long it is.
pub fn proto_response(body: Vec<u8>) -> (r: Reply)
    ensures
        r@ == ReplyView::sized_proto(body@),
{
    let length: usize = body.len();
    let mut reply: Reply = proto_reply(body);
    proof {
        assert(proto_headers().dom() =~= set!["content-type"@]);
    }
    set_content_length(&mut reply.headers, length);
    reply
}

/// The reply that holds a protocol message without fields, which has no bytes.
pub fn empty_proto() -> (r: Reply)
    ensures
        r@ == ReplyView::sized_proto(seq![]),
{
    let body: Vec<u8> = Vec::new();
    proof {
        assert(body@ =~= seq![]);
    }
    proto_response(body)
}

/// A sized reply tells the length of the body that it carries.
pub proof fn law_sized_replies_tell_their_length(headers: Map<Seq<char>, Seq<Seq<u8>>>, length: nat)
    ensures
        header_value(with_length(headers, length), "content-length"@) == Some(
            ascii_bytes(crate::text::decimal_text(length)),
        ),
        forall|name: Seq<char>|
            name != "content-length"@ ==> #[trigger] header_value(with_length(headers, length), name)
                == header_value(headers, name),
{
}

/// The value of a header is read as text exactly where each of its bytes is visible ASCII or a
/// tab, and the text then has the character of each byte.
pub proof fn law_visible_bytes_are_read_as_text(bytes: Seq<u8>)
    ensures
        visible_text(bytes) is Some <==> forall|i: int|
            0 <= i < bytes.len() ==> 0x20 <= #[trigger] bytes[i] <= 0x7e || bytes[i] == 0x09,
        visible_text(bytes) matches Some(text) ==> text.len() == bytes.len() && forall|i: int|
            0 <= i < text.len() ==> #[trigger] text[i] as int == bytes[i],
{
    if forall|i: int|
        0 <= i < bytes.len() ==> 0x20 <= #[trigger] bytes[i] <= 0x7e || bytes[i] == 0x09 {
        assert forall|i: int| 0 <= i < bytes.len() implies is_visible(#[trigger] bytes[i]) by {}
    }
    if visible_text(bytes) is Some {
        assert forall|i: int| 0 <= i < bytes.len() implies 0x20 <= #[trigger] bytes[i] <= 0x7e
            || bytes[i] == 0x09 by {
            assert(is_visible(bytes[i]));
        }
    }
}

/// A text of visible ASCII that is set as the value of a header is what is read there.
pub proof fn law_set_headers_are_read_back(
    headers: Map<Seq<char>, Seq<Seq<u8>>>,
    name: Seq<char>,
    value: Seq<char>,
    other: Seq<char>,
)
    requires
        forall|i: int| 0 <= i < value.len() ==> ' ' <= #[trigger] value[i] <= '~',
    ensures
        header_value(with_header(headers, name, value), name) matches Some(bytes) && visible_text(
            bytes,
        ) == Some(value),
        other != name ==> header_value(with_header(headers, name, value), other) == header_value(
            headers,
            other,
        ),
{
    let bytes = ascii_bytes(value);
    assert forall|i: int| 0 <= i < bytes.len() implies is_visible(#[trigger] bytes[i]) && bytes[i]
        as char == value[i] by {
        assert(' ' <= value[i] <= '~');
    }
    assert(ascii_text(bytes) =~= value);
}

/// The value of a header is the first that it has.
pub proof fn law_first_value_is_read(headers: Map<Seq<char>, Seq<Seq<u8>>>, name: Seq<char>)
    ensures
        !headers.contains_key(name) ==> header_value(headers, name) is None,
        headers.contains_key(name) && headers[name].len() == 0 ==> header_value(headers, name)
            is None,
        headers.contains_key(name) && headers[name].len() > 0 ==> header_value(headers, name)
            == Some(headers[name][0]),
{
}

/// A request was served exactly where its status is one of the two hundreds, as the two that are
/// given out here are.
pub proof fn law_served_requests_have_a_status_of_their_own(status: u16)
    ensures
        succeeds(status) <==> status / 100 == 2,
        OK == 200,
        NO_CONTENT == 204,
{
}

/// A protocol message is replied with success, with its bytes as they are and the type of its
/// content; where it is sized, with the length too, in decimal digits. There are no other headers.
pub proof fn law_protocol_messages_are_replied_whole(body: Seq<u8>, name: Seq<char>)
    ensures
        ReplyView::proto(body).status == 200,
        ReplyView::proto(body).body == body,
        header_value(ReplyView::proto(body).headers, "content-type"@) matches Some(value)
            && visible_text(value) == Some("application/proto"@),
        name != "content-type"@ ==> header_value(ReplyView::proto(body).headers, name) is None,
        ReplyView::sized_proto(body).status == 200,
        ReplyView::sized_proto(body).body == body,
        header_value(ReplyView::sized_proto(body).headers, "content-type"@) matches Some(value)
            && visible_text(value) == Some("application/proto"@),
        header_value(ReplyView::sized_proto(body).headers, "content-length"@) matches Some(value)
            && visible_text(value) == Some(crate::text::decimal_text(body.len())),
        name != "content-type"@ && name != "content-length"@ ==> header_value(
            ReplyView::sized_proto(body).headers,
            name,
        ) is None,
{
    reveal_strlit("content-type");
    reveal_strlit("content-length");
    reveal_strlit("application/proto");
    assert("content-type"@.len() == 12);
    assert("content-length"@.len() == 14);
    crate::text::lemma_decimal_is_digits(body.len());
    law_set_headers_are_read_back(
        empty_headers(),
        "content-type"@,
        "application/proto"@,
        name,
    );
    law_set_headers_are_read_back(
        proto_headers(),
        "content-length"@,
        crate::text::decimal_text(body.len()),
        "content-type"@,
    );
    law_set_headers_are_read_back(
        proto_headers(),
        "content-length"@,
        crate::text::decimal_text(body.len()),
        name,
    );
}

} // verus!
