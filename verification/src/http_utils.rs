//! Request methods in two vocabularies: that of the endpoints
//! (`http::Method`) and that of the transport (`reqwest::Method`), and the
//! way from the first to the second.
//!
//! The two crates agree on the standard methods. For any other method the
//! transport builds its own value from the method's text, and its grammar of
//! method tokens is the narrower one: it has no `#`, `$`, `%`, `&` or `'`.

use crate::text::{lemma_bytes_follow_chars, lemma_encode_utf8_empty, same_text};
use vstd::prelude::*;
use vstd::string::StringSliceAdditionalSpecFns;
use vstd::utf8::{encode_utf8, encode_utf8_decode_utf8};

verus! {

/// `http::Method`: a request method of the endpoint vocabulary.
#[verifier::external_type_specification]
#[verifier::external_body]
pub struct ExEndpointMethod(http::Method);

/// `reqwest::Method`: a request method of the transport vocabulary.
#[verifier::external_type_specification]
#[verifier::external_body]
pub struct ExTransportMethod(reqwest::Method);

/// The text of a method of the endpoint vocabulary: what
/// `http::Method::as_str` returns.
pub uninterp spec fn endpoint_method_text(method: http::Method) -> Seq<char>;

/// The text of a method of the transport vocabulary: what
/// `reqwest::Method::as_str` returns.
pub uninterp spec fn transport_method_text(method: reqwest::Method) -> Seq<char>;

/// The bytes that the transport takes in a method token.
pub open spec fn is_transport_token_byte(b: u8) -> bool {
    ||| b == ('!' as u8)
    ||| b == ('*' as u8)
    ||| b == ('+' as u8)
    ||| b == ('-' as u8)
    ||| b == ('.' as u8)
    ||| ('0' as u8) <= b <= ('9' as u8)
    ||| ('A' as u8) <= b <= ('Z' as u8)
    ||| b == ('^' as u8)
    ||| b == ('_' as u8)
    ||| b == ('`' as u8)
    ||| ('a' as u8) <= b <= ('z' as u8)
    ||| b == ('|' as u8)
    ||| b == ('~' as u8)
}

/// The bytes that the endpoint vocabulary takes in a method token: those of
/// the transport, and five more.
pub open spec fn is_endpoint_token_byte(b: u8) -> bool {
    ||| is_transport_token_byte(b)
    ||| b == ('#' as u8)
    ||| b == ('$' as u8)
    ||| b == ('%' as u8)
    ||| b == ('&' as u8)
    ||| b == ('\'' as u8)
}

/// The bytes of a method token of the transport: one token byte or more.
pub open spec fn is_transport_token_bytes(bytes: Seq<u8>) -> bool {
    &&& bytes.len() > 0
    &&& forall|i: int| 0 <= i < bytes.len() ==> is_transport_token_byte(#[trigger] bytes[i])
}

/// The bytes of a method token of the endpoint vocabulary: one token byte
/// or more.
pub open spec fn is_endpoint_token_bytes(bytes: Seq<u8>) -> bool {
    &&& bytes.len() > 0
    &&& forall|i: int| 0 <= i < bytes.len() ==> is_endpoint_token_byte(#[trigger] bytes[i])
}

/// The characters that the transport takes in a method token: the ASCII
/// characters of its token bytes.
pub open spec fn is_transport_token_char(c: char) -> bool {
    (c as u32) < 0x80 && is_transport_token_byte(c as u8)
}

/// The characters that the endpoint vocabulary takes in a method token.
pub open spec fn is_endpoint_token_char(c: char) -> bool {
    (c as u32) < 0x80 && is_endpoint_token_byte(c as u8)
}

/// The token characters that only the endpoint vocabulary takes.
pub open spec fn is_endpoint_only_char(c: char) -> bool {
    c == '#' || c == '$' || c == '%' || c == '&' || c == '\''
}

/// A method token of the transport: one token character or more.
pub open spec fn is_transport_token(text: Seq<char>) -> bool {
    &&& text.len() > 0
    &&& forall|i: int| 0 <= i < text.len() ==> is_transport_token_char(#[trigger] text[i])
}

/// A method token of the endpoint vocabulary: one token character or more.
pub open spec fn is_endpoint_token(text: Seq<char>) -> bool {
    &&& text.len() > 0
    &&& forall|i: int| 0 <= i < text.len() ==> is_endpoint_token_char(#[trigger] text[i])
}

/// The texts of the methods that both vocabularies hold as values of their
/// own.
pub open spec fn is_standard_method(text: Seq<char>) -> bool {
    ||| text == "CONNECT"@
    ||| text == "DELETE"@
    ||| text == "GET"@
    ||| text == "HEAD"@
    ||| text == "OPTIONS"@
    ||| text == "PATCH"@
    ||| text == "POST"@
    ||| text == "PUT"@
    ||| text == "TRACE"@
}

/// `http::Method::as_str`: the text of a method. Every method is made of
/// the bytes of a token of its vocabulary.
#[verifier::external_body]
fn endpoint_method_as_str(method: &http::Method) -> (text: &str)
    ensures
        text@ == endpoint_method_text(*method),
        is_endpoint_token_bytes(text.spec_bytes()),
{
    method.as_str()
}

/// `http::Method::POST`.
#[verifier::external_body]
pub(crate) fn endpoint_post() -> (method: http::Method)
    ensures
        endpoint_method_text(method) == "POST"@,
{
    http::Method::POST
}

/// `reqwest::Method::from_bytes`. It makes a method of the bytes of a token
/// of the transport and of nothing else, and the text of the method is made
/// of these bytes. Its error says no more than that it made none.
#[verifier::external_body]
fn transport_method_from_bytes(bytes: &[u8]) -> (made: Option<reqwest::Method>)
    ensures
        made is Some <==> is_transport_token_bytes(bytes@),
        made is Some ==> encode_utf8(transport_method_text(made->Some_0)) == bytes@,
{
    reqwest::Method::from_bytes(bytes).ok()
}

/// `reqwest::Method::CONNECT`.
#[verifier::external_body]
fn transport_connect() -> (method: reqwest::Method)
    ensures
        transport_method_text(method) == "CONNECT"@,
{
    reqwest::Method::CONNECT
}

/// `reqwest::Method::DELETE`.
#[verifier::external_body]
fn transport_delete() -> (method: reqwest::Method)
    ensures
        transport_method_text(method) == "DELETE"@,
{
    reqwest::Method::DELETE
}

/// `reqwest::Method::GET`.
#[verifier::external_body]
fn transport_get() -> (method: reqwest::Method)
    ensures
        transport_method_text(method) == "GET"@,
{
    reqwest::Method::GET
}

/// `reqwest::Method::HEAD`.
#[verifier::external_body]
fn transport_head() -> (method: reqwest::Method)
    ensures
        transport_method_text(method) == "HEAD"@,
{
    reqwest::Method::HEAD
}

/// `reqwest::Method::OPTIONS`.
#[verifier::external_body]
fn transport_options() -> (method: reqwest::Method)
    ensures
        transport_method_text(method) == "OPTIONS"@,
{
    reqwest::Method::OPTIONS
}

/// `reqwest::Method::PATCH`.
#[verifier::external_body]
fn transport_patch() -> (method: reqwest::Method)
    ensures
        transport_method_text(method) == "PATCH"@,
{
    reqwest::Method::PATCH
}

/// `reqwest::Method::POST`.
#[verifier::external_body]
fn transport_post() -> (method: reqwest::Method)
    ensures
        transport_method_text(method) == "POST"@,
{
    reqwest::Method::POST
}

/// `reqwest::Method::PUT`.
#[verifier::external_body]
fn transport_put() -> (method: reqwest::Method)
    ensures
        transport_method_text(method) == "PUT"@,
{
    reqwest::Method::PUT
}

/// `reqwest::Method::TRACE`.
#[verifier::external_body]
fn transport_trace() -> (method: reqwest::Method)
    ensures
        transport_method_text(method) == "TRACE"@,
{
    reqwest::Method::TRACE
}

/// A text is a token of the transport exactly when its bytes are the bytes
/// of one.
pub proof fn transport_token_by_its_bytes(text: Seq<char>)
    ensures
        is_transport_token(text) <==> is_transport_token_bytes(encode_utf8(text)),
{
    lemma_encode_utf8_empty(text);
    lemma_bytes_follow_chars(
        text,
        |b: u8| is_transport_token_byte(b),
        |c: char| is_transport_token_char(c),
        false,
    );
}

/// A text is a token of the endpoint vocabulary exactly when its bytes are
/// the bytes of one.
pub proof fn endpoint_token_by_its_bytes(text: Seq<char>)
    ensures
        is_endpoint_token(text) <==> is_endpoint_token_bytes(encode_utf8(text)),
{
    lemma_encode_utf8_empty(text);
    lemma_bytes_follow_chars(
        text,
        |b: u8| is_endpoint_token_byte(b),
        |c: char| is_endpoint_token_char(c),
        false,
    );
}

/// The standard methods are tokens of the transport, so each of them can be
/// carried over.
pub proof fn standard_methods_are_transport_tokens(text: Seq<char>)
    requires
        is_standard_method(text),
    ensures
        is_transport_token(text),
{
    reveal_strlit("CONNECT");
    reveal_strlit("DELETE");
    reveal_strlit("GET");
    reveal_strlit("HEAD");
    reveal_strlit("OPTIONS");
    reveal_strlit("PATCH");
    reveal_strlit("POST");
    reveal_strlit("PUT");
    reveal_strlit("TRACE");
}

/// A token character of the endpoint vocabulary is one of the transport
/// unless only the endpoint vocabulary takes it.
pub proof fn transport_token_chars_among_endpoint_token_chars(c: char)
    requires
        is_endpoint_token_char(c),
    ensures
        is_transport_token_char(c) <==> !is_endpoint_only_char(c),
{
}

/// A token of the endpoint vocabulary is a token of the transport exactly
/// when it holds none of `#`, `$`, `%`, `&` and `'`.
pub proof fn transport_tokens_among_endpoint_tokens(text: Seq<char>)
    requires
        is_endpoint_token(text),
    ensures
        is_transport_token(text) <==> forall|i: int|
            0 <= i < text.len() ==> !is_endpoint_only_char(#[trigger] text[i]),
{
    assert forall|i: int| 0 <= i < text.len() implies (is_transport_token_char(#[trigger] text[i])
        <==> !is_endpoint_only_char(text[i])) by {
        transport_token_chars_among_endpoint_token_chars(text[i]);
    }
}

/// The method of the transport whose text is `text`, or `None` where `text`
/// is no token of the transport.
///
/// A standard method is mapped to the transport's value for it. Any other
/// method is built anew from the bytes of the text.
pub fn transport_method(text: &str) -> (out: Option<reqwest::Method>)
    ensures
        out is Some <==> is_transport_token(text@),
        out is Some ==> transport_method_text(out->Some_0) == text@,
{
    proof {
        if is_standard_method(text@) {
            standard_methods_are_transport_tokens(text@);
        }
    }
    if same_text(text, "CONNECT") {
        Some(transport_connect())
    } else if same_text(text, "DELETE") {
        Some(transport_delete())
    } else if same_text(text, "GET") {
        Some(transport_get())
    } else if same_text(text, "HEAD") {
        Some(transport_head())
    } else if same_text(text, "OPTIONS") {
        Some(transport_options())
    } else if same_text(text, "PATCH") {
        Some(transport_patch())
    } else if same_text(text, "POST") {
        Some(transport_post())
    } else if same_text(text, "PUT") {
        Some(transport_put())
    } else if same_text(text, "TRACE") {
        Some(transport_trace())
    } else {
        let made = transport_method_from_bytes(text.as_bytes());
        proof {
            transport_token_by_its_bytes(text@);
            if made is Some {
                // Texts with the same encoding are the same text.
                encode_utf8_decode_utf8(transport_method_text(made->Some_0));
                encode_utf8_decode_utf8(text@);
            }
        }
        made
    }
}

/// The method of the transport vocabulary that stands for `method`: one with
/// the same text. The text has to be a token of the transport.
pub fn downgrade(method: http::Method) -> (out: reqwest::Method)
    requires
        is_transport_token(endpoint_method_text(method)),
    ensures
        transport_method_text(out) == endpoint_method_text(method),
{
    transport_method(endpoint_method_as_str(&method)).expect(
        "source method is invalid as dest method",
    )
}

/// The method of the transport vocabulary that stands for `method`, or
/// `None` where the transport has none: where the text of `method` holds one
/// of `#`, `$`, `%`, `&` and `'`.
pub fn checked_downgrade(method: http::Method) -> (out: Option<reqwest::Method>)
    ensures
        out is Some <==> is_transport_token(endpoint_method_text(method)),
        out is Some ==> transport_method_text(out->Some_0) == endpoint_method_text(method),
        out is None <==> exists|i: int|
            0 <= i < endpoint_method_text(method).len() && is_endpoint_only_char(
                #[trigger] endpoint_method_text(method)[i],
            ),
{
    let text = endpoint_method_as_str(&method);
    proof {
        endpoint_token_by_its_bytes(text@);
        transport_tokens_among_endpoint_tokens(text@);
    }
    transport_method(text)
}

} // verus!
