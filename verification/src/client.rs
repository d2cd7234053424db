//! The client: where requests go, and the transport handle that sends them
//! with the bearer token of the service.
//!
//! Sending a request and reading the body of the response are the caller's
//! part. What is decided before, between and after these two steps is
//! decided here: the URI of the request, the error that a response calls
//! for, and what becomes of the body.

use crate::endpoints::Endpoint;
use crate::transport::{
    authorization_header_name, builder_build, builder_default_headers, builder_headers,
    builder_new, error_status, fresh_builder_headers, header_map_entries, header_map_insert,
    header_map_with_capacity, header_value_bytes, header_value_from_str,
    header_value_is_sensitive, header_value_set_sensitive, is_error_status, is_header_byte,
    is_header_bytes, is_header_char, is_header_text, is_success_status,
    response_error_for_status, response_status, response_status_code, transport_headers,
    SAFE_HEADER_COUNT,
};
use crate::text::{lemma_ascii_char_is_its_byte, lemma_bytes_follow_chars};
use crate::uri::{
    absolute_uri_text, authority_text, default_authority, http_uri, path_and_query_text,
};
use vstd::prelude::*;
use vstd::string::StringExecFns;
use vstd::utf8::encode_utf8;

verus! {

/// `serde_json::Error`.
#[verifier::external_type_specification]
#[verifier::external_body]
pub struct ExJsonError(serde_json::Error);

/// Why no client could be made.
#[non_exhaustive]
#[derive(Debug)]
pub enum NewClientError {
    /// The token cannot be written into a header.
    InvalidToken,
    /// The transport could not make a handle.
    ReqwestError(reqwest::Error),
}

/// How a request failed on its way: in the transport, or at the service.
#[derive(Debug)]
pub enum Failure {
    /// The transport's own error: it could not send the request or read the
    /// response, or the service answered with a status from 400 to 599.
    Transport(reqwest::Error),
    /// The service answered with this status, which is no success and which
    /// the transport has no error for.
    Status(u16),
}

impl Failure {
    /// The status that the service answered with, where the failure is the
    /// answer of the service.
    pub open spec fn status(self) -> Option<u16> {
        match self {
            Failure::Transport(error) => error_status(error),
            Failure::Status(status) => Some(status),
        }
    }
}

/// Why a request has no result.
#[non_exhaustive]
#[derive(Debug)]
pub enum RequestError {
    /// The endpoint has no valid path and query.
    InvalidEndpoint(http::uri::InvalidUri),
    /// The authority and the path and query make no URI.
    InvalidUri(http::uri::InvalidUriParts),
    /// The transport failed, or the service answered with a status that is
    /// no success.
    RequestFailed(Failure),
    /// The body of the response is not what the endpoint declares.
    JsonError(serde_json::Error),
}

impl From<reqwest::Error> for NewClientError {
    fn from(error: reqwest::Error) -> (wrapped: Self) {
        NewClientError::ReqwestError(error)
    }
}

impl vstd::std_specs::convert::FromSpecImpl<reqwest::Error> for NewClientError {
    open spec fn obeys_from_spec() -> bool {
        true
    }

    open spec fn from_spec(error: reqwest::Error) -> Self {
        NewClientError::ReqwestError(error)
    }
}

impl From<http::uri::InvalidUri> for RequestError {
    fn from(error: http::uri::InvalidUri) -> (wrapped: Self) {
        RequestError::InvalidEndpoint(error)
    }
}

impl vstd::std_specs::convert::FromSpecImpl<http::uri::InvalidUri> for RequestError {
    open spec fn obeys_from_spec() -> bool {
        true
    }

    open spec fn from_spec(error: http::uri::InvalidUri) -> Self {
        RequestError::InvalidEndpoint(error)
    }
}

impl From<http::uri::InvalidUriParts> for RequestError {
    fn from(error: http::uri::InvalidUriParts) -> (wrapped: Self) {
        RequestError::InvalidUri(error)
    }
}

impl vstd::std_specs::convert::FromSpecImpl<http::uri::InvalidUriParts> for RequestError {
    open spec fn obeys_from_spec() -> bool {
        true
    }

    open spec fn from_spec(error: http::uri::InvalidUriParts) -> Self {
        RequestError::InvalidUri(error)
    }
}

impl From<reqwest::Error> for RequestError {
    fn from(error: reqwest::Error) -> (wrapped: Self) {
        RequestError::RequestFailed(Failure::Transport(error))
    }
}

impl vstd::std_specs::convert::FromSpecImpl<reqwest::Error> for RequestError {
    open spec fn obeys_from_spec() -> bool {
        true
    }

    open spec fn from_spec(error: reqwest::Error) -> Self {
        RequestError::RequestFailed(Failure::Transport(error))
    }
}

impl From<serde_json::Error> for RequestError {
    fn from(error: serde_json::Error) -> (wrapped: Self) {
        RequestError::JsonError(error)
    }
}

impl vstd::std_specs::convert::FromSpecImpl<serde_json::Error> for RequestError {
    open spec fn obeys_from_spec() -> bool {
        true
    }

    open spec fn from_spec(error: serde_json::Error) -> Self {
        RequestError::JsonError(error)
    }
}

/// A client of the remote service.
#[derive(Clone, Debug)]
pub struct Client {
    /// The host, and the port if there is one, that requests are sent to.
    pub authority: http::uri::Authority,
    client: reqwest::Client,
}

/// The text of the header value that carries `token`.
pub open spec fn bearer_text(token: Seq<char>) -> Seq<char> {
    "Bearer "@ + token
}

/// The authorization header of a client made for `token`: its value, and
/// that the value is sensitive.
pub open spec fn bearer_entry(token: Seq<char>) -> (Seq<u8>, bool) {
    (encode_utf8(bearer_text(token)), true)
}

/// A text can be a header value exactly when its bytes can.
pub proof fn header_text_by_its_bytes(text: Seq<char>)
    ensures
        is_header_text(text) <==> is_header_bytes(encode_utf8(text)),
{
    lemma_bytes_follow_chars(text, |b: u8| is_header_byte(b), |c: char| is_header_char(c), true);
}

/// The header value that carries a token can be made exactly when the token
/// itself can be a header value.
pub proof fn bearer_text_by_its_token(token: Seq<char>)
    ensures
        is_header_text(bearer_text(token)) <==> is_header_text(token),
{
    reveal_strlit("Bearer ");
    let text = bearer_text(token);
    if is_header_text(token) {
        assert forall|i: int| 0 <= i < text.len() implies is_header_char(#[trigger] text[i]) by {
            if i >= 7 {
                assert(text[i] == token[i - 7]);
            } else {
                lemma_ascii_char_is_its_byte(text[i]);
            }
        }
    }
    if is_header_text(text) {
        assert forall|i: int| 0 <= i < token.len() implies is_header_char(#[trigger] token[i]) by {
            assert(token[i] == text[i + 7]);
        }
    }
}

/// A token that holds a line feed cannot be a header value.
pub proof fn line_feed_is_refused(token: Seq<char>)
    requires
        token.contains('\n'),
    ensures
        !is_header_text(token),
{
    let at = choose|i: int| 0 <= i < token.len() && token[i] == '\n';
    assert(token[at] == '\n');
    lemma_ascii_char_is_its_byte('\n');
}

/// A token of printable ASCII characters can be a header value.
pub proof fn printable_token_is_accepted(token: Seq<char>)
    requires
        forall|i: int| 0 <= i < token.len() ==> ' ' <= #[trigger] token[i] <= '~',
    ensures
        is_header_text(token),
{
    assert forall|i: int| 0 <= i < token.len() implies is_header_char(#[trigger] token[i]) by {
        lemma_ascii_char_is_its_byte(token[i]);
    }
}

/// A builder of a transport handle with the defaults of the transport. Its
/// one default header is `accept: */*`, so that it can take many more.
pub fn fresh_builder() -> (builder: reqwest::ClientBuilder)
    ensures
        builder_headers(builder) == fresh_builder_headers(),
        builder_headers(builder).dom().finite(),
        builder_headers(builder).len() == 1,
{
    let builder = builder_new();
    proof {
        assert(fresh_builder_headers().dom() =~= set!["accept"@]);
    }
    builder
}

/// The value of the authorization header that carries `token`, marked as
/// sensitive; or `None` where the token holds a character that no header
/// value can hold.
pub fn bearer_header(token: &str) -> (header: Option<reqwest::header::HeaderValue>)
    ensures
        header is Some <==> is_header_text(token@),
        header is Some ==> header_value_bytes(header->Some_0) == encode_utf8(bearer_text(token@)),
        header is Some ==> header_value_is_sensitive(header->Some_0),
{
    let mut text = "Bearer ".to_owned();
    text.append(token);
    proof {
        header_text_by_its_bytes(text@);
        bearer_text_by_its_token(token@);
    }
    match header_value_from_str(text.as_str()) {
        Ok(mut value) => {
            header_value_set_sensitive(&mut value, true);
            Some(value)
        },
        Err(_) => None,
    }
}

impl Client {
    /// The authority that this client sends requests to.
    pub closed spec fn spec_authority(&self) -> http::uri::Authority {
        self.authority
    }

    /// The transport handle that sends the requests of this client.
    pub closed spec fn spec_transport(&self) -> reqwest::Client {
        self.client
    }

    /// Sends the requests of this client to `authority` from now on.
    pub fn set_authority(&mut self, authority: http::uri::Authority)
        ensures
            final(self).spec_authority() == authority,
            final(self).spec_transport() == old(self).spec_transport(),
    {
        self.authority = authority;
    }

    /// The transport handle that sends the requests of this client.
    pub fn transport(&self) -> (transport: &reqwest::Client)
        ensures
            *transport == self.spec_transport(),
    {
        &self.client
    }

    /// The client around a transport handle, or the error of the transport
    /// that made none. The client sends to the default authority.
    pub fn from_transport(built: Result<reqwest::Client, reqwest::Error>) -> (made: Result<
        Client,
        NewClientError,
    >)
        ensures
            built is Ok ==> made is Ok && made->Ok_0.spec_transport() == built->Ok_0,
            built is Ok ==> authority_text(made->Ok_0.spec_authority()) == "localhost:8123"@,
            built is Err ==> made is Err && made->Err_0 == NewClientError::ReqwestError(
                built->Err_0,
            ),
    {
        match built {
            Ok(client) => Ok(Client { authority: default_authority(), client }),
            Err(error) => Err(NewClientError::ReqwestError(error)),
        }
    }

    /// A client whose transport handle is made by `builder` and sends
    /// `Bearer {token}` as the authorization of every request, marked as
    /// sensitive.
    ///
    /// A token that cannot stand in a header value is refused as
    /// `InvalidToken`, whatever the builder. With any other token the builder
    /// has to hold fewer default headers than a header map safely takes, and
    /// the rest is up to the transport:
    /// either it makes a handle, which then has the default headers of
    /// `builder` and the authorization, or the client fails with the
    /// transport's error.
    pub fn with_builder(builder: reqwest::ClientBuilder, token: &str) -> (made: Result<
        Client,
        NewClientError,
    >)
        requires
            is_header_text(token@) ==> builder_headers(builder).dom().finite(),
            is_header_text(token@) ==> builder_headers(builder).len() < SAFE_HEADER_COUNT,
        ensures
            !is_header_text(token@) ==> made matches Err(NewClientError::InvalidToken),
            is_header_text(token@) && made is Err ==> made->Err_0 is ReqwestError,
            made is Ok ==> authority_text(made->Ok_0.spec_authority()) == "localhost:8123"@,
            made is Ok ==> transport_headers(made->Ok_0.spec_transport()) == builder_headers(
                builder,
            ).insert("authorization"@, bearer_entry(token@)),
    {
        let bearer_auth = match bearer_header(token) {
            Some(value) => value,
            None => {
                return Err(NewClientError::InvalidToken);
            },
        };
        let mut headers = header_map_with_capacity(1);
        header_map_insert(&mut headers, authorization_header_name(), bearer_auth);
        proof {
            let held = builder_headers(builder);
            let added = header_map_entries(headers);
            assert(added.dom() =~= set!["authorization"@]);
            assert(held.union_prefer_right(added) =~= held.insert(
                "authorization"@,
                bearer_entry(token@),
            ));
        }
        Client::from_transport(builder_build(builder_default_headers(builder, headers)))
    }

    /// A client whose transport handle has the defaults of the transport and
    /// sends `Bearer {token}` as the authorization of every request: its
    /// default headers are `accept: */*` and the authorization.
    pub fn new(token: &str) -> (made: Result<Client, NewClientError>)
        ensures
            !is_header_text(token@) ==> made matches Err(NewClientError::InvalidToken),
            is_header_text(token@) && made is Err ==> made->Err_0 is ReqwestError,
            made is Ok ==> authority_text(made->Ok_0.spec_authority()) == "localhost:8123"@,
            made is Ok ==> transport_headers(made->Ok_0.spec_transport())
                == fresh_builder_headers().insert("authorization"@, bearer_entry(token@)),
    {
        Client::with_builder(fresh_builder(), token)
    }

    /// Whether `uri` is what this client makes of a request whose endpoint
    /// gave `path`: the URI of plain HTTP to the authority of the client with
    /// that path and query, or the endpoint's error.
    pub open spec fn is_uri_of(
        &self,
        path: Result<http::uri::PathAndQuery, http::uri::InvalidUri>,
        uri: Result<String, RequestError>,
    ) -> bool {
        match path {
            Ok(path) => uri is Ok && uri->Ok_0@ == absolute_uri_text(
                "http"@,
                authority_text(self.spec_authority()),
                path_and_query_text(path),
            ),
            Err(refused) => uri matches Err(RequestError::InvalidEndpoint(kept)) && kept
                == refused,
        }
    }

    /// Whether `uri` is what this client makes of `request`: of the path and
    /// query that the endpoint gives for it.
    pub open spec fn is_uri_of_request<R: Endpoint>(
        &self,
        request: &R,
        uri: Result<String, RequestError>,
    ) -> bool {
        exists|path: Result<http::uri::PathAndQuery, http::uri::InvalidUri>|
            call_ensures(R::path_and_query, (request,), path) && #[trigger] self.is_uri_of(
                path,
                uri,
            )
    }

    /// The URI of a request whose endpoint gave `path`.
    pub fn uri_of(&self, path: Result<http::uri::PathAndQuery, http::uri::InvalidUri>) -> (uri:
        Result<String, RequestError>)
        ensures
            self.is_uri_of(path, uri),
    {
        match path {
            Ok(path) => match http_uri(&self.authority, path) {
                Ok(uri) => Ok(uri),
                Err(refused) => Err(RequestError::InvalidUri(refused)),
            },
            Err(refused) => Err(RequestError::InvalidEndpoint(refused)),
        }
    }

    /// The URI that `request` is sent to: what this client makes of the path
    /// and query that the endpoint gives. It begins with `http://` and the
    /// authority of the client, and there is none only where the endpoint
    /// gives no path and query.
    pub fn request_uri<R: Endpoint>(&self, request: &R) -> (uri: Result<String, RequestError>)
        ensures
            self.is_uri_of_request(request, uri),
            uri matches Ok(text) ==> ("http://"@ + authority_text(
                self.spec_authority(),
            )).is_prefix_of(text@),
            uri matches Err(error) ==> error is InvalidEndpoint,
    {
        let path = request.path_and_query();
        let uri = self.uri_of(path);
        proof {
            assert(self.is_uri_of(path, uri));
            reveal_strlit("http");
            reveal_strlit("http://");
            if uri is Ok {
                let text = uri->Ok_0@;
                let origin = "http://"@ + authority_text(self.spec_authority());
                assert(origin =~= "http"@ + seq![':', '/', '/'] + authority_text(
                    self.spec_authority(),
                ));
                assert(text.subrange(0, origin.len() as int) =~= origin);
            }
        }
        uri
    }
}

/// What the client holds once the head of a response has arrived: the
/// response, whose body is still to be read, and the failure that its status
/// calls for, if it calls for one.
pub struct Received {
    pub response: reqwest::Response,
    pub pending: Option<Failure>,
}

/// Takes what the transport made of sending a request.
///
/// A failure of the transport ends the request. A response is kept for its
/// body to be read, whatever its status. Every status that is no success
/// leaves a failure pending: the transport's error for a status from 400 to
/// 599, the bare status for any other.
pub fn receive(sent: Result<reqwest::Response, reqwest::Error>) -> (received: Result<
    Received,
    RequestError,
>)
    ensures
        sent is Err ==> received is Err && received->Err_0 == RequestError::RequestFailed(
            Failure::Transport(sent->Err_0),
        ),
        sent is Ok ==> received is Ok && received->Ok_0.response == sent->Ok_0,
        sent is Ok ==> (received->Ok_0.pending is None <==> is_success_status(
            response_status(sent->Ok_0),
        )),
        sent is Ok && received->Ok_0.pending is Some ==> received->Ok_0.pending->Some_0.status()
            == Some(response_status(sent->Ok_0)),
        sent is Ok && received->Ok_0.pending is Some ==> (received->Ok_0.pending->Some_0
            is Transport <==> is_error_status(response_status(sent->Ok_0))),
{
    match sent {
        Ok(response) => {
            let status = response_status_code(&response);
            let pending = match response_error_for_status(&response) {
                Err(error) => Some(Failure::Transport(error)),
                Ok(_) => if 200 <= status && status < 300 {
                    None
                } else {
                    Some(Failure::Status(status))
                },
            };
            Ok(Received { response, pending })
        },
        Err(error) => Err(RequestError::RequestFailed(Failure::Transport(error))),
    }
}

/// Takes what the transport made of reading the body of a response.
///
/// A body that could not be read ends the request with the transport's
/// error. A body that was read is given up where a failure is pending, and
/// the request ends with that failure; only without one is the body handed
/// on to be decoded.
pub fn settle<B>(pending: Option<Failure>, body: Result<B, reqwest::Error>) -> (settled: Result<
    B,
    RequestError,
>)
    ensures
        body is Err ==> settled is Err && settled->Err_0 == RequestError::RequestFailed(
            Failure::Transport(body->Err_0),
        ),
        body is Ok && pending is Some ==> settled is Err && settled->Err_0
            == RequestError::RequestFailed(pending->Some_0),
        body is Ok && pending is None ==> settled is Ok && settled->Ok_0 == body->Ok_0,
{
    match body {
        Err(error) => Err(RequestError::RequestFailed(Failure::Transport(error))),
        Ok(bytes) => match pending {
            Some(failure) => Err(RequestError::RequestFailed(failure)),
            None => Ok(bytes),
        },
    }
}

/// The result of a request whose body was decoded as `parsed`: the decoded
/// value, or the error of the decoder.
pub fn decoded<T>(parsed: Result<T, serde_json::Error>) -> (result: Result<T, RequestError>)
    ensures
        parsed is Ok ==> result is Ok && result->Ok_0 == parsed->Ok_0,
        parsed is Err ==> result is Err && result->Err_0 == RequestError::JsonError(
            parsed->Err_0,
        ),
{
    match parsed {
        Ok(value) => Ok(value),
        Err(error) => Err(RequestError::JsonError(error)),
    }
}

} // verus!
