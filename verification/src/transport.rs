//! What the client uses of the transport, `reqwest`: header values and
//! maps, the builder of a transport handle, responses and errors.
//!
//! Nothing here is proved: each function makes one call into `reqwest` or
//! into the `http` crate that `reqwest` builds on, and its contract says
//! what that call does.

use reqwest::Client as TransportHandle;
use vstd::prelude::*;
use vstd::string::StringSliceAdditionalSpecFns;
use vstd::utf8::encode_utf8;

verus! {

/// `reqwest::header::HeaderName`.
#[verifier::external_type_specification]
#[verifier::external_body]
pub struct ExHeaderName(reqwest::header::HeaderName);

/// `reqwest::header::HeaderValue`.
#[verifier::external_type_specification]
#[verifier::external_body]
pub struct ExHeaderValue(reqwest::header::HeaderValue);

/// `reqwest::header::InvalidHeaderValue`: why a text is no header value.
#[verifier::external_type_specification]
#[verifier::external_body]
pub struct ExInvalidHeaderValue(reqwest::header::InvalidHeaderValue);

/// `reqwest::header::HeaderMap`.
#[verifier::external_type_specification]
#[verifier::external_body]
#[verifier::reject_recursive_types(T)]
pub struct ExHeaderMap<T>(reqwest::header::HeaderMap<T>);

/// `reqwest::ClientBuilder`.
#[verifier::external_type_specification]
#[verifier::external_body]
pub struct ExClientBuilder(reqwest::ClientBuilder);

/// `reqwest::Client`: a handle on the transport.
#[verifier::external_type_specification]
#[verifier::external_body]
pub struct ExTransportHandle(TransportHandle);

/// `reqwest::Error`.
#[verifier::external_type_specification]
#[verifier::external_body]
pub struct ExTransportError(reqwest::Error);

/// `reqwest::Response`: a response whose body has not been read.
#[verifier::external_type_specification]
#[verifier::external_body]
pub struct ExResponse(reqwest::Response);

/// The name of a header, in lower case: what `HeaderName::as_str` returns.
pub uninterp spec fn header_name_text(name: reqwest::header::HeaderName) -> Seq<char>;

/// The bytes of a header value: what `HeaderValue::as_bytes` returns.
pub uninterp spec fn header_value_bytes(value: reqwest::header::HeaderValue) -> Seq<u8>;

/// Whether a header value is kept out of diagnostics: what
/// `HeaderValue::is_sensitive` returns.
pub uninterp spec fn header_value_is_sensitive(value: reqwest::header::HeaderValue) -> bool;

/// The headers of a map: for each name that the map holds, the bytes of the
/// last value under that name, and whether that value is sensitive.
pub uninterp spec fn header_map_entries(
    map: reqwest::header::HeaderMap<reqwest::header::HeaderValue>,
) -> Map<Seq<char>, (Seq<u8>, bool)>;

/// The headers that a builder will give its transport handle to send with
/// every request.
pub uninterp spec fn builder_headers(builder: reqwest::ClientBuilder) -> Map<
    Seq<char>,
    (Seq<u8>, bool),
>;

/// The headers that a transport handle sends with every request, unless the
/// request has a header of the same name.
pub uninterp spec fn transport_headers(transport: reqwest::Client) -> Map<
    Seq<char>,
    (Seq<u8>, bool),
>;

/// The status code of a response: what `Response::status` returns, as a
/// number.
pub uninterp spec fn response_status(response: reqwest::Response) -> u16;

/// The status code that an error was made for, if it was made for one:
/// what `Error::status` returns, as a number.
pub uninterp spec fn error_status(error: reqwest::Error) -> Option<u16>;

/// A header map of fewer entries than this never has to grow beyond the
/// 32768 slots that `http` allows: a map asks for twice its slots only once
/// three quarters of them are taken or, after a long run of collisions, once
/// a fifth of them is. So an insertion into such a map does not panic.
pub const SAFE_HEADER_COUNT: usize = 4096;

/// The headers of an empty map.
pub open spec fn no_headers() -> Map<Seq<char>, (Seq<u8>, bool)> {
    Map::empty()
}

/// The default headers of a builder that has just been made: `accept: */*`
/// and no other.
pub open spec fn fresh_builder_headers() -> Map<Seq<char>, (Seq<u8>, bool)> {
    no_headers().insert("accept"@, (encode_utf8("*/*"@), false))
}

/// The bytes that may stand in a header value: the tab, and whatever is
/// neither a control character nor the delete character.
pub open spec fn is_header_byte(b: u8) -> bool {
    (b >= 32 && b != 127) || b == 9
}

/// Bytes that can be a header value.
pub open spec fn is_header_bytes(bytes: Seq<u8>) -> bool {
    forall|i: int| 0 <= i < bytes.len() ==> is_header_byte(#[trigger] bytes[i])
}

/// The characters that may stand in a header value: an ASCII character
/// whose byte may, and every character outside ASCII.
pub open spec fn is_header_char(c: char) -> bool {
    (c as u32) < 0x80 ==> is_header_byte(c as u8)
}

/// A text that can be a header value.
pub open spec fn is_header_text(text: Seq<char>) -> bool {
    forall|i: int| 0 <= i < text.len() ==> is_header_char(#[trigger] text[i])
}

/// A status code that stands for success.
pub open spec fn is_success_status(status: u16) -> bool {
    200 <= status < 300
}

/// A status code that stands for an error of the client or of the server.
/// These are the codes that the transport makes an error of its own for.
pub open spec fn is_error_status(status: u16) -> bool {
    400 <= status < 600
}

/// `HeaderValue::from_str`. It takes a text whose bytes may all stand in a
/// header value. The value holds the bytes of the text and is not sensitive.
#[verifier::external_body]
pub(crate) fn header_value_from_str(text: &str) -> (made: Result<
    reqwest::header::HeaderValue,
    reqwest::header::InvalidHeaderValue,
>)
    ensures
        made is Ok <==> is_header_bytes(text.spec_bytes()),
        made is Ok ==> header_value_bytes(made->Ok_0) == text.spec_bytes(),
        made is Ok ==> !header_value_is_sensitive(made->Ok_0),
{
    reqwest::header::HeaderValue::from_str(text)
}

/// `HeaderValue::set_sensitive`, which changes nothing but the mark.
#[verifier::external_body]
pub(crate) fn header_value_set_sensitive(value: &mut reqwest::header::HeaderValue, sensitive: bool)
    ensures
        header_value_bytes(*final(value)) == header_value_bytes(*old(value)),
        header_value_is_sensitive(*final(value)) == sensitive,
{
    value.set_sensitive(sensitive)
}

/// `reqwest::header::AUTHORIZATION`.
#[verifier::external_body]
pub(crate) fn authorization_header_name() -> (name: reqwest::header::HeaderName)
    ensures
        header_name_text(name) == "authorization"@,
{
    reqwest::header::AUTHORIZATION
}

/// `HeaderMap::with_capacity`, which panics on a capacity that needs more
/// than 32768 slots: a third more than the capacity, rounded up to a power
/// of two. The map is empty.
#[verifier::external_body]
pub(crate) fn header_map_with_capacity(capacity: usize) -> (headers: reqwest::header::HeaderMap<
    reqwest::header::HeaderValue,
>)
    requires
        capacity <= SAFE_HEADER_COUNT,
    ensures
        header_map_entries(headers) == no_headers(),
{
    reqwest::header::HeaderMap::with_capacity(capacity)
}

/// `HeaderMap::insert`, which puts `value` in the place of all that the map
/// held under `name`. It panics only where the map would have to grow beyond
/// 32768 slots, which a map of so few entries never has to.
#[verifier::external_body]
pub(crate) fn header_map_insert(
    map: &mut reqwest::header::HeaderMap<reqwest::header::HeaderValue>,
    name: reqwest::header::HeaderName,
    value: reqwest::header::HeaderValue,
)
    requires
        header_map_entries(*old(map)).dom().finite(),
        header_map_entries(*old(map)).len() < SAFE_HEADER_COUNT,
    ensures
        header_map_entries(*final(map)) == header_map_entries(*old(map)).insert(
            header_name_text(name),
            (header_value_bytes(value), header_value_is_sensitive(value)),
        ),
{
    map.insert(name, value);
}

/// `ClientBuilder::new`: a builder whose one default header is
/// `accept: */*`, which is not sensitive.
#[verifier::external_body]
pub(crate) fn builder_new() -> (builder: reqwest::ClientBuilder)
    ensures
        builder_headers(builder) == fresh_builder_headers(),
{
    reqwest::ClientBuilder::new()
}

/// `ClientBuilder::default_headers`, which inserts each header of `headers`
/// into those of the builder, in the place of what the builder held under
/// that name. The insertions panic as those into a header map do.
#[verifier::external_body]
pub(crate) fn builder_default_headers(
    builder: reqwest::ClientBuilder,
    headers: reqwest::header::HeaderMap<reqwest::header::HeaderValue>,
) -> (out: reqwest::ClientBuilder)
    requires
        builder_headers(builder).dom().finite(),
        header_map_entries(headers).dom().finite(),
        builder_headers(builder).len() + header_map_entries(headers).len() <= SAFE_HEADER_COUNT,
    ensures
        builder_headers(out) == builder_headers(builder).union_prefer_right(
            header_map_entries(headers),
        ),
{
    builder.default_headers(headers)
}

/// `ClientBuilder::build`. Whether it makes a transport handle depends on
/// the machine. One that it makes has the default headers of the builder.
#[verifier::external_body]
pub(crate) fn builder_build(builder: reqwest::ClientBuilder) -> (built: Result<
    reqwest::Client,
    reqwest::Error,
>)
    ensures
        built is Ok ==> transport_headers(built->Ok_0) == builder_headers(builder),
{
    builder.build()
}

/// `Client::clone`: a handle on the same transport, with the same default
/// headers.
pub assume_specification[ <TransportHandle as Clone>::clone ](
    handle: &TransportHandle,
) -> (copy: TransportHandle)
    ensures
        transport_headers(copy) == transport_headers(*handle),
;

/// `Response::status`, as a number: the status code of a response.
#[verifier::external_body]
pub(crate) fn response_status_code(response: &reqwest::Response) -> (status: u16)
    ensures
        status == response_status(*response),
{
    response.status().as_u16()
}

/// `Response::error_for_status_ref`: the response itself, or the error that
/// its status calls for. There is an error for the codes from 400 to 599,
/// and it holds the code.
#[verifier::external_body]
pub(crate) fn response_error_for_status(response: &reqwest::Response) -> (checked: Result<
    &reqwest::Response,
    reqwest::Error,
>)
    ensures
        checked is Err <==> is_error_status(response_status(*response)),
        checked is Err ==> error_status(checked->Err_0) == Some(response_status(*response)),
{
    response.error_for_status_ref()
}

} // verus!
