use hass::client::{
    bearer_header, decoded, fresh_builder, receive, settle, Client, Failure, NewClientError,
    RequestError,
};
use hass::endpoints::Endpoint;
use http::uri::{InvalidUri, PathAndQuery};

struct States;

impl Endpoint for States {
    type Output = Vec<u32>;

    fn method() -> http::Method {
        http::Method::GET
    }

    fn path_and_query(&self) -> Result<PathAndQuery, InvalidUri> {
        "/api/states".parse()
    }
}

struct Broken;

impl Endpoint for Broken {
    type Output = ();

    fn method() -> http::Method {
        http::Method::GET
    }

    fn path_and_query(&self) -> Result<PathAndQuery, InvalidUri> {
        "no slash and a space".parse()
    }
}

fn response(status: u16, body: &'static str) -> reqwest::Response {
    reqwest::Response::from(hyper::Response::builder().status(status).body(body).unwrap())
}

fn transport_error() -> reqwest::Error {
    reqwest::Client::new().get("not a url").build().unwrap_err()
}

#[test]
fn token_with_a_line_feed_is_invalid() {
    assert!(matches!(Client::new("abc\ndef"), Err(NewClientError::InvalidToken)));
    assert!(matches!(Client::new("\n"), Err(NewClientError::InvalidToken)));
    assert!(matches!(Client::new("abc\n"), Err(NewClientError::InvalidToken)));
}

#[test]
fn token_with_a_control_character_is_invalid() {
    for token in ["a\rb", "a\0b", "a\u{7f}b", "a\u{1b}b"] {
        assert!(matches!(Client::new(token), Err(NewClientError::InvalidToken)), "{:?}", token);
    }
}

#[test]
fn printable_token_makes_a_client() {
    let client = Client::new("eyJhbGciOi.JIUzI1NiIs-InR5cCI6_IkpXVCJ9 ~!").unwrap();
    assert_eq!(client.authority.as_str(), "localhost:8123");
}

#[test]
fn empty_token_makes_a_client() {
    assert!(Client::new("").is_ok());
}

#[test]
fn client_with_a_builder_of_its_own() {
    let builder = reqwest::ClientBuilder::new().user_agent("door/1");
    let client = Client::with_builder(builder, "secret").unwrap();
    assert_eq!(client.authority.as_str(), "localhost:8123");
    let refused = Client::with_builder(reqwest::ClientBuilder::new(), "sec\nret");
    assert!(matches!(refused, Err(NewClientError::InvalidToken)));
}

#[test]
fn client_of_a_transport_that_failed() {
    let made = Client::from_transport(Err(transport_error()));
    assert!(matches!(made, Err(NewClientError::ReqwestError(_))));
    let made = Client::from_transport(Ok(reqwest::Client::new())).unwrap();
    assert_eq!(made.authority.as_str(), "localhost:8123");
}

#[test]
fn bearer_header_carries_the_token() {
    let header = bearer_header("secret").unwrap();
    assert_eq!(header.as_bytes(), b"Bearer secret");
    assert!(header.is_sensitive());
    assert_eq!(format!("{:?}", header), "Sensitive");
}

#[test]
fn bearer_header_of_a_token_with_a_tab_or_outside_ascii() {
    assert_eq!(bearer_header("a\tb").unwrap().as_bytes(), b"Bearer a\tb");
    assert_eq!(bearer_header("clé").unwrap().as_bytes(), "Bearer clé".as_bytes());
}

#[test]
fn bearer_header_of_a_bad_token_is_none() {
    assert!(bearer_header("a\nb").is_none());
    assert!(bearer_header("a\u{7f}").is_none());
}

#[test]
fn authority_can_be_replaced() {
    let mut client = Client::new("secret").unwrap();
    client.authority = "hass.local:80".parse().unwrap();
    assert_eq!(client.request_uri(&States).unwrap(), "http://hass.local:80/api/states");
    let copy = client.clone();
    assert_eq!(copy.authority, client.authority);
}

#[test]
fn request_uri_of_an_endpoint() {
    let client = Client::new("secret").unwrap();
    assert_eq!(client.request_uri(&States).unwrap(), "http://localhost:8123/api/states");
}

#[test]
fn request_uri_of_a_broken_endpoint() {
    let client = Client::new("secret").unwrap();
    assert!(matches!(client.request_uri(&Broken), Err(RequestError::InvalidEndpoint(_))));
}

#[test]
fn uri_of_a_path_or_of_its_error() {
    let client = Client::new("secret").unwrap();
    let uri = client.uri_of("/api/?x".parse()).unwrap();
    assert_eq!(uri, "http://localhost:8123/api/?x");
    let refused = client.uri_of("".parse());
    assert!(matches!(refused, Err(RequestError::InvalidEndpoint(_))));
}

#[test]
fn server_error_fails_the_request() {
    let received = receive(Ok(response(500, "not json at all"))).unwrap();
    assert_eq!(received.response.status(), reqwest::StatusCode::INTERNAL_SERVER_ERROR);
    let pending = received.pending;
    match &pending {
        Some(Failure::Transport(error)) => {
            assert_eq!(error.status(), Some(reqwest::StatusCode::INTERNAL_SERVER_ERROR));
        }
        other => panic!("{:?}", other),
    }
    match settle(pending, Ok(b"not json at all".to_vec())) {
        Err(RequestError::RequestFailed(Failure::Transport(error))) => {
            assert!(error.is_status());
            assert_eq!(error.status(), Some(reqwest::StatusCode::INTERNAL_SERVER_ERROR));
        }
        other => panic!("{:?}", other),
    }
}

#[test]
fn client_error_fails_the_request() {
    for status in [400u16, 401, 404, 499, 500, 503, 599] {
        let received = receive(Ok(response(status, ""))).unwrap();
        match settle(received.pending, Ok(())) {
            Err(RequestError::RequestFailed(Failure::Transport(error))) => {
                assert_eq!(error.status().map(|code| code.as_u16()), Some(status));
            }
            other => panic!("{} {:?}", status, other),
        }
    }
}

#[test]
fn success_leaves_nothing_pending() {
    for status in [200u16, 201, 204, 206, 299] {
        let received = receive(Ok(response(status, "[]"))).unwrap();
        assert!(received.pending.is_none(), "{}", status);
        assert_eq!(received.response.status().as_u16(), status);
        assert_eq!(settle(received.pending, Ok("[]")).unwrap(), "[]");
    }
}

#[test]
fn not_modified_fails_the_request() {
    let received = receive(Ok(response(304, ""))).unwrap();
    assert_eq!(received.response.status().as_u16(), 304);
    assert!(matches!(received.pending, Some(Failure::Status(304))));
    let settled = settle(received.pending, Ok(Vec::<u8>::new()));
    assert!(matches!(settled, Err(RequestError::RequestFailed(Failure::Status(304)))));
}

#[test]
fn every_status_but_success_fails_the_request() {
    for status in [100u16, 101, 199, 300, 301, 304, 399, 600, 999] {
        let received = receive(Ok(response(status, "[]"))).unwrap();
        assert_eq!(received.response.status().as_u16(), status);
        match settle(received.pending, Ok("[]")) {
            Err(RequestError::RequestFailed(Failure::Status(code))) => assert_eq!(code, status),
            other => panic!("{} {:?}", status, other),
        }
    }
}

#[test]
fn transport_failure_fails_the_request() {
    match receive(Err(transport_error())) {
        Err(RequestError::RequestFailed(Failure::Transport(error))) => assert!(error.is_builder()),
        other => panic!("{:?}", other.map(|received| received.pending)),
    }
}

#[test]
fn unread_body_fails_the_request() {
    let read: Result<Vec<u8>, reqwest::Error> = Err(transport_error());
    match settle(None, read) {
        Err(RequestError::RequestFailed(Failure::Transport(error))) => assert!(error.is_builder()),
        other => panic!("{:?}", other),
    }
}

#[test]
fn unread_body_comes_before_the_pending_failure() {
    for status in [500u16, 304] {
        let received = receive(Ok(response(status, ""))).unwrap();
        let read: Result<Vec<u8>, reqwest::Error> = Err(transport_error());
        match settle(received.pending, read) {
            Err(RequestError::RequestFailed(Failure::Transport(error))) => {
                assert!(error.is_builder());
                assert!(!error.is_status());
            }
            other => panic!("{:?}", other),
        }
    }
}

#[test]
fn body_of_another_shape_is_a_json_error() {
    let received = receive(Ok(response(200, "{\"entity_id\": 1}"))).unwrap();
    let body = settle(received.pending, Ok(b"{\"entity_id\": 1}".to_vec())).unwrap();
    let result: Result<Vec<u32>, RequestError> = decoded(serde_json::from_slice(&body));
    match result {
        Err(RequestError::JsonError(error)) => assert!(error.is_data()),
        other => panic!("{:?}", other),
    }
}

#[test]
fn body_of_the_declared_shape_is_the_result() {
    let received = receive(Ok(response(200, "[1, 2, 3]"))).unwrap();
    let body = settle(received.pending, Ok(b"[1, 2, 3]".to_vec())).unwrap();
    let result: Result<Vec<u32>, RequestError> = decoded(serde_json::from_slice(&body));
    assert_eq!(result.unwrap(), vec![1, 2, 3]);
}

#[test]
fn errors_convert_from_their_causes() {
    let parse: InvalidUri = "".parse::<PathAndQuery>().unwrap_err();
    assert!(matches!(RequestError::from(parse), RequestError::InvalidEndpoint(_)));
    let parts: http::uri::InvalidUriParts = http::Uri::from_parts({
        let mut parts = http::uri::Parts::default();
        parts.scheme = Some(http::uri::Scheme::HTTP);
        parts
    })
    .unwrap_err();
    assert!(matches!(RequestError::from(parts), RequestError::InvalidUri(_)));
    assert!(matches!(
        RequestError::from(transport_error()),
        RequestError::RequestFailed(Failure::Transport(_))
    ));
    let json = serde_json::from_str::<u32>("x").unwrap_err();
    assert!(matches!(RequestError::from(json), RequestError::JsonError(_)));
    assert!(matches!(NewClientError::from(transport_error()), NewClientError::ReqwestError(_)));
}

#[test]
fn transport_holds_the_authorization_out_of_sight() {
    let client = Client::new("secret-token").unwrap();
    let shown = format!("{:?}", client.transport());
    assert!(shown.contains("\"authorization\": Sensitive"), "{}", shown);
    assert!(shown.contains("\"accept\": \"*/*\""), "{}", shown);
    assert!(!shown.contains("secret-token"), "{}", shown);
    assert!(!format!("{:?}", client).contains("secret-token"));
}

#[test]
fn transport_keeps_the_headers_of_its_builder() {
    let mut headers = reqwest::header::HeaderMap::new();
    headers.insert("x-door", reqwest::header::HeaderValue::from_static("ring-1"));
    headers.insert(reqwest::header::AUTHORIZATION, reqwest::header::HeaderValue::from_static("Basic old"));
    let builder = reqwest::ClientBuilder::new().default_headers(headers);
    let client = Client::with_builder(builder, "secret-token").unwrap();
    let shown = format!("{:?}", client.transport());
    assert!(shown.contains("\"x-door\": \"ring-1\""), "{}", shown);
    assert!(shown.contains("\"authorization\": Sensitive"), "{}", shown);
    assert!(!shown.contains("Basic old"), "{}", shown);
}

#[test]
fn authority_can_be_set() {
    let mut client = Client::new("secret").unwrap();
    client.set_authority("10.0.0.2:8123".parse().unwrap());
    assert_eq!(client.authority.as_str(), "10.0.0.2:8123");
    assert_eq!(client.request_uri(&States).unwrap(), "http://10.0.0.2:8123/api/states");
}

#[test]
fn fresh_builder_holds_one_default_header() {
    let shown = format!("{:?}", fresh_builder());
    assert!(shown.contains("default_headers: {\"accept\": \"*/*\"}"), "{}", shown);
}

#[test]
fn new_client_sends_two_default_headers() {
    let client = Client::new("secret-token").unwrap();
    let shown = format!("{:?}", client.transport());
    assert!(
        shown.contains("default_headers: {\"accept\": \"*/*\", \"authorization\": Sensitive}"),
        "{}",
        shown
    );
    let built = Client::with_builder(fresh_builder(), "secret-token").unwrap();
    assert_eq!(format!("{:?}", built.transport()), shown);
}

#[test]
fn bad_token_is_refused_whatever_the_builder() {
    let mut headers = reqwest::header::HeaderMap::new();
    for i in 0..5000 {
        let name = reqwest::header::HeaderName::from_bytes(format!("x-{}", i).as_bytes()).unwrap();
        headers.insert(name, reqwest::header::HeaderValue::from_static("v"));
    }
    let builder = reqwest::ClientBuilder::new().default_headers(headers);
    assert!(matches!(Client::with_builder(builder, "a\nb"), Err(NewClientError::InvalidToken)));
}
