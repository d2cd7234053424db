use hass::http_utils::{checked_downgrade, downgrade, transport_method};

fn standard() -> Vec<(http::Method, reqwest::Method, &'static str)> {
    vec![
        (http::Method::CONNECT, reqwest::Method::CONNECT, "CONNECT"),
        (http::Method::DELETE, reqwest::Method::DELETE, "DELETE"),
        (http::Method::GET, reqwest::Method::GET, "GET"),
        (http::Method::HEAD, reqwest::Method::HEAD, "HEAD"),
        (http::Method::OPTIONS, reqwest::Method::OPTIONS, "OPTIONS"),
        (http::Method::PATCH, reqwest::Method::PATCH, "PATCH"),
        (http::Method::POST, reqwest::Method::POST, "POST"),
        (http::Method::PUT, reqwest::Method::PUT, "PUT"),
        (http::Method::TRACE, reqwest::Method::TRACE, "TRACE"),
    ]
}

#[test]
fn standard_methods_keep_their_text() {
    for (source, _, text) in standard() {
        assert_eq!(source.as_str(), text);
        assert_eq!(downgrade(source).as_str(), text);
    }
}

#[test]
fn standard_methods_map_to_the_transport_values() {
    for (source, target, _) in standard() {
        assert_eq!(downgrade(source), target);
    }
}

#[test]
fn standard_methods_have_a_checked_translation() {
    for (source, target, _) in standard() {
        assert_eq!(checked_downgrade(source), Some(target));
    }
}

#[test]
fn extension_method_keeps_its_text() {
    let source = http::Method::from_bytes(b"PURGE").unwrap();
    let target = downgrade(source.clone());
    assert_eq!(target.as_str(), "PURGE");
    assert_eq!(target.as_str(), source.as_str());
    assert_eq!(target, reqwest::Method::from_bytes(b"PURGE").unwrap());
}

#[test]
fn long_extension_method_keeps_its_text() {
    let text = "A-VERY-LONG-METHOD-NAME.with_other~characters!";
    let source = http::Method::from_bytes(text.as_bytes()).unwrap();
    assert_eq!(downgrade(source).as_str(), text);
}

#[test]
fn extension_method_of_fifteen_bytes_keeps_its_text() {
    let text = "ABCDEFGHIJKLMNO";
    let source = http::Method::from_bytes(text.as_bytes()).unwrap();
    assert_eq!(downgrade(source).as_str(), text);
}

#[test]
fn query_method_is_rebuilt_from_its_text() {
    assert_eq!(downgrade(http::Method::QUERY).as_str(), "QUERY");
}

#[test]
fn lower_case_method_is_not_the_standard_one() {
    let source = http::Method::from_bytes(b"get").unwrap();
    let target = downgrade(source);
    assert_eq!(target.as_str(), "get");
    assert_ne!(target, reqwest::Method::GET);
}

#[test]
fn method_with_a_character_of_the_wider_grammar_has_no_translation() {
    for text in ["A#B", "$", "50%", "R&D", "IT'S"] {
        let source = http::Method::from_bytes(text.as_bytes()).unwrap();
        assert_eq!(checked_downgrade(source), None, "{}", text);
    }
}

#[test]
fn checked_translation_keeps_the_text() {
    let source = http::Method::from_bytes(b"M-SEARCH").unwrap();
    assert_eq!(checked_downgrade(source).unwrap().as_str(), "M-SEARCH");
}

#[test]
fn transport_method_of_a_standard_text() {
    assert_eq!(transport_method("POST"), Some(reqwest::Method::POST));
}

#[test]
fn transport_method_of_an_empty_text_is_none() {
    assert_eq!(transport_method(""), None);
}

#[test]
fn transport_method_refuses_what_is_no_token() {
    for text in ["GE T", "GET\n", "G/T", "MÉTHODE", "A#B", "(GET)", "GET:"] {
        assert_eq!(transport_method(text), None, "{}", text);
    }
}

#[test]
fn transport_method_takes_every_token_character() {
    let text = "!*+-.0123456789ABCDEFGHIJKLMNOPQRSTUVWXYZ^_`abcdefghijklmnopqrstuvwxyz|~";
    assert_eq!(transport_method(text).unwrap().as_str(), text);
}
