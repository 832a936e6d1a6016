//! The parts of HTTP that requests and responses are checked and put together with.
use vstd::prelude::*;

use crate::text::owned;

verus! {

/// The methods that a function can send and receive.
#[derive(Clone, Copy, Debug, PartialEq, Eq, Structural)]
pub enum HttpMethod {
    Get,
    Put,
    Post,
    Patch,
    Delete,
    Options,
    Head,
    Connect,
    Trace,
}

/// The map of headers of the `http` crate.
#[verifier::external_type_specification]
#[verifier::external_body]
#[verifier::reject_recursive_types(T)]
pub struct ExHeaderMap<T>(http::HeaderMap<T>);

/// A header value of the `http` crate.
#[verifier::external_type_specification]
#[verifier::external_body]
pub struct ExHeaderValue(http::HeaderValue);

/// What a map of headers holds: the values of each name in their order, the name in lower case.
pub uninterp spec fn header_values(map: http::HeaderMap<http::HeaderValue>) -> Map<
    Seq<u8>,
    Seq<Seq<u8>>,
>;

/// The bytes that a header name is made of: the token characters of HTTP.
pub open spec fn is_token_byte(b: u8) -> bool {
    // letters and digits
    ||| 97 <= b <= 122
    ||| 65 <= b <= 90
    ||| 48 <= b <= 57
    // ! # $ % & ' * + - .
    ||| b == 33 || 35 <= b <= 39 || b == 42 || b == 43 || b == 45 || b == 46
    // ^ _ ` | ~
    ||| 94 <= b <= 96 || b == 124 || b == 126
}

/// Whether bytes are a header name.
pub open spec fn is_header_name(name: Seq<u8>) -> bool {
    1 <= name.len() <= 65535 && forall|i: int| 0 <= i < name.len() ==> is_token_byte(#[trigger] name[i])
}

/// A header name in lower case, as the map of headers keeps it.
pub open spec fn header_key(name: Seq<u8>) -> Seq<u8> {
    name.map_values(
        |b: u8|
            if 65 <= b <= 90 {
                (b + 32) as u8
            } else {
                b
            },
    )
}

/// Whether bytes are a header value: no control character but the tab.
pub open spec fn is_header_value(value: Seq<u8>) -> bool {
    forall|i: int| 0 <= i < value.len() ==> ((#[trigger] value[i]) >= 32 && value[i] != 127) || value[i] == 9
}

/// How many different names a map of headers takes in any case: with so many it never has to grow
/// beyond its largest size.
pub const MAX_HEADER_NAMES: usize = 6553;

/// Whether a map of headers takes one more name in any case.
pub open spec fn headers_fit(map: http::HeaderMap<http::HeaderValue>) -> bool {
    header_values(map).dom().finite() && header_values(map).dom().len() <= MAX_HEADER_NAMES
}

/// `HeaderName::from_bytes` accepts exactly the token characters, up to 65535 of them.
#[verifier::external_body]
pub(crate) fn header_name_ok(name: &[u8]) -> (ok: bool)
    ensures
        ok == is_header_name(name@),
{
    http::HeaderName::from_bytes(name).is_ok()
}

/// `HeaderValue::from_bytes` accepts any bytes but control characters, and the tab.
#[verifier::external_body]
pub(crate) fn header_value_ok(value: &[u8]) -> (ok: bool)
    ensures
        ok == is_header_value(value@),
{
    http::HeaderValue::from_bytes(value).is_ok()
}

/// `HeaderMap::new`: a map without headers.
#[verifier::external_body]
pub(crate) fn headers_new() -> (map: http::HeaderMap<http::HeaderValue>)
    ensures
        header_values(map).dom() == Set::<Seq<u8>>::empty(),
{
    http::HeaderMap::new()
}

/// `HeaderMap::keys_len`: how many different names a map has.
#[verifier::external_body]
pub(crate) fn headers_names(map: &http::HeaderMap<http::HeaderValue>) -> (names: usize)
    ensures
        names == header_values(*map).dom().len(),
{
    map.keys_len()
}

/// `HeaderMap::append`: adds a value behind those that the name has.
#[verifier::external_body]
pub(crate) fn headers_append(
    map: &mut http::HeaderMap<http::HeaderValue>,
    name: &[u8],
    value: &[u8],
)
    requires
        is_header_name(name@),
        is_header_value(value@),
        headers_fit(*old(map)),
    ensures
        header_values(*final(map)) == with_appended(header_values(*old(map)), name@, value@),
{
    let name = http::HeaderName::from_bytes(name).unwrap();
    map.append(name, http::HeaderValue::from_bytes(value).unwrap());
}

/// `HeaderMap::insert`: gives the name this value alone.
#[verifier::external_body]
pub(crate) fn headers_insert(
    map: &mut http::HeaderMap<http::HeaderValue>,
    name: &[u8],
    value: &[u8],
)
    requires
        is_header_name(name@),
        is_header_value(value@),
        headers_fit(*old(map)),
    ensures
        header_values(*final(map)) == header_values(*old(map)).insert(header_key(name@), seq![value@]),
{
    let name = http::HeaderName::from_bytes(name).unwrap();
    map.insert(name, http::HeaderValue::from_bytes(value).unwrap());
}

/// Headers with one more value for a name.
pub open spec fn with_appended(
    headers: Map<Seq<u8>, Seq<Seq<u8>>>,
    name: Seq<u8>,
    value: Seq<u8>,
) -> Map<Seq<u8>, Seq<Seq<u8>>> {
    let key = header_key(name);
    if headers.dom().contains(key) {
        headers.insert(key, headers[key].push(value))
    } else {
        headers.insert(key, seq![value])
    }
}

/// Whether a number is an HTTP status.
pub open spec fn is_status(code: u16) -> bool {
    100 <= code < 1000
}

/// `StatusCode::from_u16` accepts the numbers from 100 up to 999.
#[verifier::external_body]
pub(crate) fn status_ok(code: u16) -> (ok: bool)
    ensures
        ok == is_status(code),
{
    http::StatusCode::from_u16(code).is_ok()
}

/// Whether `Uri`'s `FromStr` accepts a text.
pub uninterp spec fn is_uri(uri: Seq<char>) -> bool;

/// The host that `Uri::host` finds in a text that is a URI.
pub uninterp spec fn uri_host(uri: Seq<char>) -> Option<Seq<char>>;

/// `Uri`'s `FromStr`: whether a text is a URI, by the grammar of that crate.
#[verifier::external_body]
pub(crate) fn uri_ok(uri: &str) -> (ok: bool)
    ensures
        ok == is_uri(uri@),
{
    uri.parse::<http::Uri>().is_ok()
}

/// `Uri::host`: the host part of a URI, if it has one.
#[verifier::external_body]
pub(crate) fn host_of_uri(uri: &str) -> (host: Option<String>)
    requires
        is_uri(uri@),
    ensures
        host is Some <==> uri_host(uri@) is Some,
        host is Some ==> Some(host->0@) == uri_host(uri@),
{
    uri.parse::<http::Uri>().unwrap().host().map(|host| host.to_owned())
}

/// Whether a request to a URI can be made into one of the HTTP client: it takes a URL, with a scheme
/// of its own, where a URI may go without.
pub uninterp spec fn is_url(uri: Seq<char>) -> bool;

/// `TryFrom<http::Request>` of `reqwest::Request`: whether the client takes a request to a URI. It
/// goes by the URI alone, which it reads as a URL.
#[verifier::external_body]
pub(crate) fn url_ok(uri: &str) -> (ok: bool)
    requires
        is_uri(uri@),
    ensures
        ok == is_url(uri@),
{
    let mut request = http::Request::new(reqwest::Body::default());
    *request.uri_mut() = uri.parse::<http::Uri>().unwrap();
    reqwest::Request::try_from(request).is_ok()
}

/// The answer to a request for a path that a service of the host does not have: a status and a
/// body.
pub fn not_found() -> (answer: (u16, String))
    ensures
        answer.0 == 404,
        answer.1@ == "not found.\n"@,
{
    (404, owned("not found.\n"))
}

/// Header names are looked up without regard to case: the key of a name has its capital letters made
/// small, and is the name else.
pub proof fn header_names_ignore_case(name: Seq<u8>, i: int)
    requires
        0 <= i < name.len(),
    ensures
        header_key(name).len() == name.len(),
        65 <= name[i] <= 90 ==> header_key(name)[i] == name[i] + 32,
        name[i] < 65 || 90 < name[i] ==> header_key(name)[i] == name[i],
        header_key(header_key(name)) == header_key(name),
{
    assert(header_key(header_key(name)) =~= header_key(name));
}

/// A header that is appended comes last among those of its name, the earlier ones stay before it, and
/// those of other names stay as they are.
pub proof fn appended_headers_come_last(
    headers: Map<Seq<u8>, Seq<Seq<u8>>>,
    name: Seq<u8>,
    value: Seq<u8>,
    other: Seq<u8>,
)
    ensures
        with_appended(headers, name, value).dom().contains(header_key(name)),
        with_appended(headers, name, value)[header_key(name)].len() > 0,
        with_appended(headers, name, value)[header_key(name)].last() == value,
        with_appended(headers, name, value)[header_key(name)].drop_last() == (
        if headers.dom().contains(header_key(name)) {
            headers[header_key(name)]
        } else {
            Seq::empty()
        }),
        other != header_key(name) ==> (with_appended(headers, name, value).dom().contains(other)
            <==> headers.dom().contains(other)),
        other != header_key(name) && headers.dom().contains(other) ==> with_appended(
            headers,
            name,
            value,
        )[other] == headers[other],
{
    let after = with_appended(headers, name, value)[header_key(name)];
    if headers.dom().contains(header_key(name)) {
        assert(after.drop_last() =~= headers[header_key(name)]);
    } else {
        assert(after.drop_last() =~= Seq::<Seq<u8>>::empty());
    }
}

/// What is not there is answered with the status for that.
pub proof fn missing_pages_are_told(answer: (u16, String))
    requires
        call_ensures(not_found, (), answer),
    ensures
        answer.0 == 404,
        answer.1@ == "not found.\n"@,
{
}

} // verus!
