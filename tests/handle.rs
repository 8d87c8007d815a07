use rpki_setup::handle::{Handle, InvalidHandle};
use rpki_setup::error::IdExchangeError;
use rpki_setup::uri::{Rsync, ServiceUri};

#[test]
fn handle_accepts_allowed_characters() {
    let h = Handle::from_str("Carol-1_a/b\\c").unwrap();
    assert_eq!(h.as_str(), "Carol-1_a/b\\c");
}

#[test]
fn handle_rejects_empty() {
    assert_eq!(Handle::from_str(""), Err(InvalidHandle));
}

#[test]
fn handle_length_limit() {
    let ok = "a".repeat(255);
    assert!(Handle::from_str(&ok).is_ok());
    let too_long = "a".repeat(256);
    assert_eq!(Handle::from_str(&too_long), Err(InvalidHandle));
}

#[test]
fn handle_rejects_other_characters() {
    assert!(Handle::from_str("a b").is_err());
    assert!(Handle::from_str("a.b").is_err());
    assert!(Handle::from_str("a+b").is_err());
    assert!(Handle::from_str("é").is_err());
}

#[test]
fn handle_path_round_trip() {
    let h = Handle::from_str("ca/child\\x").unwrap();
    let p = h.to_path_buf();
    assert_eq!(p, "ca+child=x");
    let back = Handle::from_path_buf(&p).unwrap();
    assert_eq!(back, h);
    let nested = Handle::from_path_buf(&format!("/var/lib/ca/{}", p)).unwrap();
    assert_eq!(nested, h);
    assert!(Handle::from_path_buf("/var/lib/").is_err());
}

#[test]
fn handle_from_string_and_clone() {
    let h = Handle::try_from_string("bob".to_string()).unwrap();
    assert_eq!(h.clone(), h);
    assert_eq!(h.to_string(), "bob");
    assert!(InvalidHandle.message().len() > 0);
}

#[test]
fn service_uri_http_any_case() {
    let u = ServiceUri::from_str("HTTP://example.net/rfc6492").unwrap();
    assert!(matches!(u, ServiceUri::Http(_)));
    assert_eq!(u.as_str(), "HTTP://example.net/rfc6492");
}

#[test]
fn service_uri_https() {
    let u = ServiceUri::from_str("https://example.net/rfc8181").unwrap();
    assert!(matches!(u, ServiceUri::Https(_)));
    assert_eq!(u.as_str(), "https://example.net/rfc8181");
    assert!(u.is_wf());
}

#[test]
fn service_uri_rejects_other() {
    assert_eq!(ServiceUri::from_str("ftp://example.net/"), Err(IdExchangeError::InvalidUri));
    assert_eq!(ServiceUri::from_str("https://"), Err(IdExchangeError::InvalidUri));
    assert_eq!(ServiceUri::from_str("https://a b"), Err(IdExchangeError::InvalidUri));
}

#[test]
fn rsync_uri() {
    assert!(Rsync::from_str("rsync://example.net/repo/").is_ok());
    assert!(Rsync::from_str("https://example.net/repo/").is_err());
}
