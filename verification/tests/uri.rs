use hass::uri::{default_authority, http_uri};
use http::uri::{Authority, PathAndQuery};

#[test]
fn valid_base() {
    let _: Authority = default_authority();
}

#[test]
fn default_authority_is_the_local_service() {
    let authority = default_authority();
    assert_eq!(authority.as_str(), "localhost:8123");
    assert_eq!(authority.host(), "localhost");
    assert_eq!(authority.port_u16(), Some(8123));
}

#[test]
fn http_uri_joins_authority_and_path() {
    let authority: Authority = "hass.example.org:8123".parse().unwrap();
    let path: PathAndQuery = "/api/services/button/press".parse().unwrap();
    assert_eq!(
        http_uri(&authority, path).unwrap(),
        "http://hass.example.org:8123/api/services/button/press"
    );
}

#[test]
fn http_uri_keeps_the_query() {
    let authority: Authority = "localhost".parse().unwrap();
    let path: PathAndQuery = "/api/history?filter=sun.sun&limit=2".parse().unwrap();
    assert_eq!(
        http_uri(&authority, path).unwrap(),
        "http://localhost/api/history?filter=sun.sun&limit=2"
    );
}

#[test]
fn http_uri_writes_an_empty_path_as_a_slash() {
    let authority: Authority = "localhost:8123".parse().unwrap();
    let path: PathAndQuery = "?limit=2".parse().unwrap();
    assert_eq!(path.as_str(), "?limit=2");
    assert_eq!(http_uri(&authority, path).unwrap(), "http://localhost:8123/?limit=2");
}

#[test]
fn http_uri_of_the_root() {
    let authority: Authority = "127.0.0.1:80".parse().unwrap();
    let path: PathAndQuery = "/".parse().unwrap();
    assert_eq!(http_uri(&authority, path).unwrap(), "http://127.0.0.1:80/");
}

#[test]
fn http_uri_of_a_path_cut_at_its_fragment() {
    let authority: Authority = "localhost".parse().unwrap();
    let path: PathAndQuery = "#top".parse().unwrap();
    assert_eq!(path.as_str(), "/");
    assert_eq!(http_uri(&authority, path).unwrap(), "http://localhost/");
}

#[test]
fn http_uri_with_user_and_bracketed_host() {
    let authority: Authority = "user@[::1]:8123".parse().unwrap();
    let path: PathAndQuery = "/api/".parse().unwrap();
    assert_eq!(http_uri(&authority, path).unwrap(), "http://user@[::1]:8123/api/");
}

#[test]
fn http_uri_of_unusual_paths() {
    let authority: Authority = "localhost".parse().unwrap();
    for (path, uri) in [
        ("*", "http://localhost*"),
        ("/a?", "http://localhost/a?"),
        ("?", "http://localhost/?"),
        ("/?", "http://localhost/?"),
        ("/a?b?c", "http://localhost/a?b?c"),
        ("/a/b/", "http://localhost/a/b/"),
        ("/a#b?c", "http://localhost/a"),
        ("?a#b", "http://localhost/?a"),
        ("//", "http://localhost//"),
        ("/é", "http://localhost/é"),
    ] {
        let parsed: PathAndQuery = path.parse().unwrap();
        assert_eq!(http_uri(&authority, parsed).unwrap(), uri, "{}", path);
    }
}
