//! The parts of a request URI, as the `http` crate holds them, and the text
//! that they make together.

use crate::text::{
    lemma_ascii_char_is_its_byte, lemma_bytes_follow_chars, lemma_encode_scalar_bytes,
    lemma_encode_utf8_concat, lemma_encode_utf8_empty,
};
use vstd::prelude::*;
use vstd::string::StringSliceAdditionalSpecFns;
use vstd::utf8::{char_u32_cast, encode_scalar, encode_utf8, is_ascii_chars_encode_utf8};

verus! {

/// `http::uri::Scheme`.
#[verifier::external_type_specification]
#[verifier::external_body]
pub struct ExScheme(http::uri::Scheme);

/// `http::uri::Authority`: a host, with or without user information and port.
#[verifier::external_type_specification]
#[verifier::external_body]
pub struct ExAuthority(http::uri::Authority);

/// `http::uri::PathAndQuery`.
#[verifier::external_type_specification]
#[verifier::external_body]
pub struct ExPathAndQuery(http::uri::PathAndQuery);

/// `http::Uri`.
#[verifier::external_type_specification]
#[verifier::external_body]
pub struct ExUri(http::Uri);

/// `http::uri::InvalidUri`: why a text is no part of a URI.
#[verifier::external_type_specification]
#[verifier::external_body]
pub struct ExInvalidUri(http::uri::InvalidUri);

/// `http::uri::InvalidUriParts`: why some parts make no URI.
#[verifier::external_type_specification]
#[verifier::external_body]
pub struct ExInvalidUriParts(http::uri::InvalidUriParts);

/// The text of a scheme: what `Scheme::as_str` returns.
pub uninterp spec fn scheme_text(scheme: http::uri::Scheme) -> Seq<char>;

/// The text of an authority: what `Authority::as_str` returns.
pub uninterp spec fn authority_text(authority: http::uri::Authority) -> Seq<char>;

/// The text of a path and query: what `PathAndQuery::as_str` returns.
pub uninterp spec fn path_and_query_text(path: http::uri::PathAndQuery) -> Seq<char>;

/// The text of a URI: what its `Display` writes.
pub uninterp spec fn uri_text(uri: http::Uri) -> Seq<char>;

/// What `PathAndQuery::from_str` makes of a text: the text of the path and
/// query that it returns, or `None` where it refuses the text.
pub uninterp spec fn path_and_query_of(text: Seq<char>) -> Option<Seq<char>>;

/// The longest text, in bytes, that `http` takes for a URI or a part of one.
pub const MAX_URI_LEN: usize = 65534;

/// The bytes that may stand in a path as they are. `?` and `#` are not
/// among them: they end the path.
pub open spec fn is_path_byte(b: u8) -> bool {
    ||| b == 0x21
    ||| b == 0x22
    ||| 0x24 <= b <= 0x3B
    ||| b == 0x3D
    ||| 0x40 <= b <= 0x5F
    ||| 0x61 <= b <= 0x7E
    ||| 0x80 <= b
}

/// The bytes of a path without query or fragment that needs no escaping:
/// they start with `/`, may all stand in a path, and are not too many.
pub open spec fn is_plain_path_bytes(bytes: Seq<u8>) -> bool {
    &&& 0 < bytes.len() <= MAX_URI_LEN
    &&& bytes[0] == ('/' as u8)
    &&& forall|i: int| 0 <= i < bytes.len() ==> is_path_byte(#[trigger] bytes[i])
}

/// The characters that may stand in a path as they are: the ASCII
/// characters of the path bytes, and every character outside ASCII.
pub open spec fn is_path_char(c: char) -> bool {
    (c as u32) < 0x80 ==> is_path_byte(c as u8)
}

/// A path without query or fragment that needs no escaping: it starts with
/// `/`, holds path characters only, and is not too long.
pub open spec fn is_plain_path(text: Seq<char>) -> bool {
    &&& text.len() > 0
    &&& text[0] == '/'
    &&& forall|i: int| 0 <= i < text.len() ==> is_path_char(#[trigger] text[i])
    &&& encode_utf8(text).len() <= MAX_URI_LEN
}

/// The bytes that may stand nowhere in a path and query: the control
/// characters and the space, `<`, `>` and the delete character.
pub open spec fn is_illegal_uri_byte(b: u8) -> bool {
    ||| b <= 0x20
    ||| b == 0x3C
    ||| b == 0x3E
    ||| b == 0x7F
}

/// Bytes that hold an illegal byte before any `#`: no fragment hides it.
pub open spec fn holds_illegal_byte(bytes: Seq<u8>) -> bool {
    exists|i: int|
        0 <= i < bytes.len() && is_illegal_uri_byte(#[trigger] bytes[i]) && forall|j: int|
            0 <= j < i ==> #[trigger] bytes[j] != ('#' as u8)
}

/// The characters that may stand nowhere in a path and query: the ASCII
/// characters of the illegal bytes.
pub open spec fn is_illegal_uri_char(c: char) -> bool {
    (c as u32) < 0x80 && is_illegal_uri_byte(c as u8)
}

/// A text that holds an illegal character before any `#`.
pub open spec fn holds_illegal_char(text: Seq<char>) -> bool {
    exists|i: int|
        0 <= i < text.len() && is_illegal_uri_char(#[trigger] text[i]) && forall|j: int|
            0 <= j < i ==> #[trigger] text[j] != '#'
}

/// The bytes of a host name or of a port number.
pub open spec fn is_host_byte(b: u8) -> bool {
    ||| ('a' as u8) <= b <= ('z' as u8)
    ||| ('A' as u8) <= b <= ('Z' as u8)
    ||| ('0' as u8) <= b <= ('9' as u8)
    ||| b == ('.' as u8)
    ||| b == ('-' as u8)
}

/// The bytes of a host name, alone or followed by `:` and a port: host
/// bytes, with at most one `:` among them.
pub open spec fn is_plain_authority_bytes(bytes: Seq<u8>) -> bool {
    &&& bytes.len() > 0
    &&& forall|i: int|
        0 <= i < bytes.len() ==> is_host_byte(#[trigger] bytes[i]) || bytes[i] == (':' as u8)
    &&& forall|i: int, j: int|
        0 <= i < bytes.len() && 0 <= j < bytes.len() && #[trigger] bytes[i] == (':' as u8)
            && #[trigger] bytes[j] == (':' as u8) ==> i == j
}

/// The text of the URI that a scheme, an authority and a path and query make
/// together. A path and query that begins with its `?` has an empty path,
/// which is written as `/`.
pub open spec fn absolute_uri_text(scheme: Seq<char>, authority: Seq<char>, path: Seq<char>) -> Seq<
    char,
> {
    let origin = scheme + seq![':', '/', '/'] + authority;
    if path.len() > 0 && path[0] == '?' {
        origin + seq!['/'] + path
    } else {
        origin + path
    }
}

/// `Scheme::HTTP`, whose text is `http`.
#[verifier::external_body]
fn scheme_http() -> (scheme: http::uri::Scheme)
    ensures
        scheme_text(scheme) == "http"@,
{
    http::uri::Scheme::HTTP
}

/// `Authority::from_static`, which panics on a text that it finds invalid.
/// A host name with or without a port is valid, and is kept as it is.
#[verifier::external_body]
fn authority_from_static(text: &'static str) -> (authority: http::uri::Authority)
    requires
        is_plain_authority_bytes(text.spec_bytes()),
    ensures
        authority_text(authority) == text@,
{
    http::uri::Authority::from_static(text)
}

/// `PathAndQuery::from_str`. What it returns depends on the text alone. It
/// takes the bytes of a plain path, and keeps the text as it is. It refuses
/// bytes that hold an illegal byte before any `#`: it reads the bytes up to
/// the first `#`, and takes none of these in the path nor in the query. It
/// refuses a text of more bytes than a URI may have.
#[verifier::external_body]
pub(crate) fn path_and_query_from_str(text: &str) -> (parsed: Result<
    http::uri::PathAndQuery,
    http::uri::InvalidUri,
>)
    ensures
        parsed is Ok <==> path_and_query_of(text@) is Some,
        parsed is Ok ==> path_and_query_of(text@) == Some(path_and_query_text(parsed->Ok_0)),
        is_plain_path_bytes(text.spec_bytes()) ==> parsed is Ok && path_and_query_text(
            parsed->Ok_0,
        ) == text@,
        holds_illegal_byte(text.spec_bytes()) ==> parsed is Err,
        text.spec_bytes().len() > MAX_URI_LEN ==> parsed is Err,
{
    text.parse()
}

/// A byte other than that of `#`.
spec fn is_no_hash_byte(b: u8) -> bool {
    b != ('#' as u8)
}

/// A character other than `#`.
spec fn is_no_hash_char(c: char) -> bool {
    c != '#'
}

/// A character is `#` exactly when it is the ASCII character of the byte of
/// `#`.
proof fn lemma_hash_by_its_byte(c: char)
    ensures
        (c as u32) < 0x80 ==> (c != '#' <==> c as u8 != ('#' as u8)),
        (c as u32) >= 0x80 ==> c != '#',
{
    if (c as u32) < 0x80 {
        lemma_ascii_char_is_its_byte(c);
        char_u32_cast(c, c as u32);
    }
}

/// The bytes of a text that holds an illegal character before any `#` hold
/// an illegal byte before any `#`.
pub proof fn illegal_char_by_its_byte(text: Seq<char>)
    requires
        holds_illegal_char(text),
    ensures
        holds_illegal_byte(encode_utf8(text)),
{
    let at = choose|i: int|
        0 <= i < text.len() && is_illegal_uri_char(#[trigger] text[i]) && forall|j: int|
            0 <= j < i ==> #[trigger] text[j] != '#';
    let head = text.take(at);
    let tail = text.skip(at);
    assert(text =~= head + tail);
    lemma_encode_utf8_concat(head, tail);
    let before = encode_utf8(head);
    let bytes = encode_utf8(text);
    // The illegal character is its own byte, right after the bytes before it.
    lemma_encode_scalar_bytes(tail[0]);
    lemma_ascii_char_is_its_byte(tail[0]);
    assert(encode_utf8(tail)[0] == encode_scalar(tail[0] as u32)[0]);
    assert(bytes[before.len() as int] == encode_utf8(tail)[0]);
    // No character before it is `#`, so no byte before it is.
    assert forall|c: char| (c as u32) < 0x80 implies (#[trigger] is_no_hash_char(c)
        <==> is_no_hash_byte(c as u8)) by {
        lemma_hash_by_its_byte(c);
    }
    assert forall|c: char| (c as u32) >= 0x80 implies #[trigger] is_no_hash_char(c) by {
        lemma_hash_by_its_byte(c);
    }
    lemma_bytes_follow_chars(
        head,
        |b: u8| is_no_hash_byte(b),
        |c: char| is_no_hash_char(c),
        true,
    );
    assert forall|j: int| 0 <= j < head.len() implies is_no_hash_char(#[trigger] head[j]) by {
        assert(head[j] == text[j]);
    }
    assert forall|j: int| 0 <= j < before.len() implies #[trigger] bytes[j] != ('#' as u8) by {
        assert(bytes[j] == before[j]);
        assert(is_no_hash_byte(before[j]));
    }
    assert(is_illegal_uri_byte(bytes[before.len() as int]));
}

/// A character is `/` exactly when its encoding begins with the byte of
/// `/`.
proof fn lemma_slash_by_its_byte(c: char)
    ensures
        c == '/' <==> encode_scalar(c as u32)[0] == ('/' as u8),
{
    lemma_encode_scalar_bytes(c);
    if (c as u32) < 0x80 {
        lemma_ascii_char_is_its_byte(c);
        char_u32_cast(c, c as u32);
    }
}

/// A text is a plain path exactly when its bytes are those of one.
pub proof fn plain_path_by_its_bytes(text: Seq<char>)
    ensures
        is_plain_path(text) <==> is_plain_path_bytes(encode_utf8(text)),
{
    lemma_encode_utf8_empty(text);
    lemma_bytes_follow_chars(text, |b: u8| is_path_byte(b), |c: char| is_path_char(c), true);
    if text.len() > 0 {
        lemma_slash_by_its_byte(text[0]);
        lemma_encode_scalar_bytes(text[0]);
        assert(encode_utf8(text)[0] == encode_scalar(text[0] as u32)[0]);
    }
}

/// `Uri::from_parts` on parts that hold a scheme, an authority and a path
/// and query: with all three it makes a URI, which is written as the scheme,
/// `://`, the authority, then the path (`/` where it is empty) and the query.
#[verifier::external_body]
fn uri_from_parts(
    scheme: http::uri::Scheme,
    authority: http::uri::Authority,
    path: http::uri::PathAndQuery,
) -> (made: Result<http::Uri, http::uri::InvalidUriParts>)
    ensures
        made is Ok,
        uri_text(made->Ok_0) == absolute_uri_text(
            scheme_text(scheme),
            authority_text(authority),
            path_and_query_text(path),
        ),
{
    let mut parts = http::uri::Parts::default();
    parts.scheme = Some(scheme);
    parts.authority = Some(authority);
    parts.path_and_query = Some(path);
    http::Uri::from_parts(parts)
}

/// `Uri::to_string`: the text of a URI.
#[verifier::external_body]
fn uri_to_string(uri: &http::Uri) -> (text: String)
    ensures
        text@ == uri_text(*uri),
{
    uri.to_string()
}

/// `Authority::clone`: an authority with the same text.
pub assume_specification[ <http::uri::Authority as Clone>::clone ](
    authority: &http::uri::Authority,
) -> (copy: http::uri::Authority)
    ensures
        authority_text(copy) == authority_text(*authority),
;

/// The authority of a service that runs on this machine, at its usual port.
/// It stands in until the real one is known.
pub fn default_authority() -> (authority: http::uri::Authority)
    ensures
        authority_text(authority) == "localhost:8123"@,
{
    proof {
        reveal_strlit("localhost:8123");
        is_ascii_chars_encode_utf8("localhost:8123"@);
    }
    authority_from_static("localhost:8123")
}

/// The URI, as text, of a request to `authority` over plain HTTP.
pub fn http_uri(authority: &http::uri::Authority, path: http::uri::PathAndQuery) -> (made: Result<
    String,
    http::uri::InvalidUriParts,
>)
    ensures
        made is Ok,
        made->Ok_0@ == absolute_uri_text(
            "http"@,
            authority_text(*authority),
            path_and_query_text(path),
        ),
{
    match uri_from_parts(scheme_http(), authority.clone(), path) {
        Ok(uri) => Ok(uri_to_string(&uri)),
        Err(refused) => Err(refused),
    }
}

} // verus!
