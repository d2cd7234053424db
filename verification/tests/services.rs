use hass::endpoints::services::{service_path, Post};
use hass::endpoints::Endpoint;
use hass::types::Service;

struct ButtonPress;

impl Service for ButtonPress {
    type Output = ();

    fn domain(&self) -> &str {
        "button"
    }

    fn service(&self) -> &str {
        "press"
    }
}

struct Call {
    domain: String,
    service: String,
}

impl Service for Call {
    type Output = Vec<u8>;

    fn domain(&self) -> &str {
        &self.domain
    }

    fn service(&self) -> &str {
        &self.service
    }
}

#[test]
fn post_path_of_button_press() {
    let path = Post(ButtonPress).path_and_query().unwrap();
    assert_eq!(path.as_str(), "/api/services/button/press");
    assert_eq!(path.path(), "/api/services/button/press");
    assert_eq!(path.query(), None);
}

#[test]
fn post_is_sent_with_post() {
    assert_eq!(<Post<ButtonPress> as Endpoint>::method(), http::Method::POST);
    assert_eq!(<Post<Call> as Endpoint>::method(), http::Method::POST);
}

#[test]
fn post_path_follows_the_payload() {
    let call = Call { domain: "light".to_owned(), service: "turn_on".to_owned() };
    assert_eq!(Post(call).path_and_query().unwrap().as_str(), "/api/services/light/turn_on");
}

#[test]
fn post_path_of_a_bad_segment_is_refused() {
    let call = Call { domain: "li ght".to_owned(), service: "turn_on".to_owned() };
    assert!(Post(call).path_and_query().is_err());
}

#[test]
fn service_path_keeps_plain_segments() {
    let path = service_path("light", "turn_on").unwrap();
    assert_eq!(path.as_str(), "/api/services/light/turn_on");
}

#[test]
fn service_path_keeps_every_plain_character() {
    let domain = "!\"$%&'()*+,-.0123456789:;=@ABCDEFGHIJKLMNOPQRSTUVWXYZ[\\]^_";
    let service = "abcdefghijklmnopqrstuvwxyz{|}~";
    let path = service_path(domain, service).unwrap();
    assert_eq!(path.as_str(), format!("/api/services/{}/{}", domain, service));
}

#[test]
fn service_path_keeps_characters_outside_ascii() {
    let path = service_path("lumière", "開く").unwrap();
    assert_eq!(path.as_str(), "/api/services/lumière/開く");
}

#[test]
fn service_path_of_empty_segments() {
    assert_eq!(service_path("", "").unwrap().as_str(), "/api/services//");
}

#[test]
fn service_path_refuses_what_needs_escaping() {
    for bad in [" ", "a b", "<", ">", "`", "\u{7f}", "\n", "\t"] {
        assert!(service_path(bad, "press").is_err(), "{:?}", bad);
        assert!(service_path("button", bad).is_err(), "{:?}", bad);
    }
}

#[test]
fn service_path_is_cut_at_a_fragment() {
    assert_eq!(service_path("button", "press#now").unwrap().as_str(), "/api/services/button/press");
    assert_eq!(service_path("but#ton", "a b").unwrap().as_str(), "/api/services/but");
}

#[test]
fn service_path_takes_a_query() {
    let path = service_path("button", "press?return_response").unwrap();
    assert_eq!(path.as_str(), "/api/services/button/press?return_response");
    assert_eq!(path.query(), Some("return_response"));
}

#[test]
fn service_path_at_the_length_limit() {
    let longest = "a".repeat(65534 - 15 - 6);
    let path = service_path("button", &longest).unwrap();
    assert_eq!(path.as_str().len(), 65534);
    let too_long = "a".repeat(65534 - 15 - 6 + 1);
    assert!(service_path("button", &too_long).is_err());
}

#[test]
fn service_path_refuses_an_illegal_character_before_a_fragment() {
    for bad in ["\0", "\u{1f}", " ", "<", ">", "\u{7f}"] {
        assert!(service_path(&format!("but{}ton#x", bad), "press").is_err(), "{:?}", bad);
        assert!(service_path("button", &format!("press?a{}b", bad)).is_err(), "{:?}", bad);
        assert!(service_path("button", &format!("pr#ess{}", bad)).is_ok(), "{:?}", bad);
    }
}
