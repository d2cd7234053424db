use hass::text::same_text;

#[test]
fn same_text_of_equal_strings() {
    assert!(same_text("", ""));
    assert!(same_text("GET", "GET"));
    assert!(same_text("héllo", "héllo"));
}

#[test]
fn same_text_of_different_strings() {
    assert!(!same_text("GET", "GE"));
    assert!(!same_text("GET", "GEt"));
    assert!(!same_text("", "a"));
    assert!(!same_text("é", "e"));
    assert!(!same_text("PUT", "GET"));
}
