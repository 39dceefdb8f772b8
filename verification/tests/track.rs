use jank_bot::error::ValidationError;
use jank_bot::track::{has_http_scheme, starts_with, TrackRequest};

#[test]
fn scheme_test_accepts_locators_under_http_and_https() {
    for uri in [
        "http://a",
        "https://a.example/b?c=d",
        "http://",
        "https://",
        "http://é",
        "https://https://",
        "http:///",
    ] {
        assert!(has_http_scheme(uri), "{}", uri);
    }
}

#[test]
fn scheme_test_rejects_everything_else() {
    for uri in [
        "", "h", "ht", "htt", "http", "https", "httpx", "httpfoo", "http:", "http:/", "https:/",
        "https:", "http//a", "http:a", "http:/a", "https//a", "httpss://a", "httpx://a",
        "ftp://a", "HTTP://a", "Http://a", "HTTPS://a", " http://a", "xhttp://a", "hott", "éhttp://a",
        "://", "s://a",
    ] {
        assert!(!has_http_scheme(uri), "{:?}", uri);
    }
}

#[test]
fn starts_with_compares_character_for_character() {
    assert!(starts_with("", ""));
    assert!(starts_with("abc", ""));
    assert!(starts_with("abc", "a"));
    assert!(starts_with("abc", "abc"));
    assert!(!starts_with("abc", "abcd"));
    assert!(!starts_with("abc", "b"));
    assert!(!starts_with("", "a"));
    assert!(starts_with("héllo", "hé"));
    assert!(!starts_with("hello", "hé"));
}

#[test]
fn request_keeps_the_locator_it_was_made_of() {
    let request = TrackRequest::new("https://a.example/track".to_string()).unwrap();
    assert_eq!(request.as_str(), "https://a.example/track");
    let copy = request.clone();
    assert_eq!(copy.as_str(), "https://a.example/track");
    assert_eq!(request.into_string(), "https://a.example/track".to_string());
}

#[test]
fn request_refuses_a_malformed_locator() {
    assert_eq!(
        TrackRequest::new("not a locator".to_string()).err(),
        Some(ValidationError::MalformedUri)
    );
    assert_eq!(TrackRequest::new(String::new()).err(), Some(ValidationError::MalformedUri));
    assert_eq!(
        TrackRequest::new("httpfoo".to_string()).err(),
        Some(ValidationError::MalformedUri)
    );
    assert_eq!(TrackRequest::new("http".to_string()).err(), Some(ValidationError::MalformedUri));
}
