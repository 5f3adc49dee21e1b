use gemini_server::errors::ServerError;
use gemini_server::sanitize::sanitize_path;

#[test]
fn test_sanitize_valid_path() {
    let input = "/about";
    let sanitized = sanitize_path(input).unwrap();
    assert_eq!(sanitized, "/about");
}

#[test]
fn test_sanitize_directory_traversal() {
    let input = "/../secret";
    assert!(sanitize_path(input).is_err());
}

// Percent escapes are decoded before the traversal check.
#[test]
fn sanitize_decodes_percent_escapes() {
    assert_eq!(sanitize_path("/a%41b").unwrap(), "/aAb");
    assert_eq!(sanitize_path("/with%20space").unwrap(), "/with space");
}

// A traversal hidden behind percent encoding is still refused.
#[test]
fn sanitize_refuses_encoded_traversal() {
    assert_eq!(sanitize_path("/%2e%2e/secret"), Err(ServerError::Traversal));
    assert_eq!(sanitize_path("/a/%2E%2E"), Err(ServerError::Traversal));
}

// A bare `..`, and one in the middle of a path, are refused; lookalike
// components are not.
#[test]
fn sanitize_component_boundaries() {
    assert!(sanitize_path("..").is_err());
    assert!(sanitize_path("/a/../b").is_err());
    assert!(sanitize_path("/a/..").is_err());
    assert_eq!(sanitize_path("/a..b").unwrap(), "/a..b");
    assert_eq!(sanitize_path("/...").unwrap(), "/...");
    assert_eq!(sanitize_path("/.").unwrap(), "/.");
}

// Sanitizing an accepted result again yields the same string, as long as
// the decoded form no longer holds `%`.
#[test]
fn sanitize_is_stable_on_decoded_output() {
    let once = sanitize_path("/x%20y").unwrap();
    assert_eq!(once, "/x y");
    let twice = sanitize_path(&once).unwrap();
    assert_eq!(twice, once);

    let plain = sanitize_path("/about").unwrap();
    assert_eq!(sanitize_path(&plain).unwrap(), plain);
}

// Malformed percent sequences pass through rather than being rejected,
// and malformed UTF-8 is replaced, never fatal.
#[test]
fn sanitize_is_lossy_never_fatal() {
    assert_eq!(sanitize_path("/50%").unwrap(), "/50%");
    assert_eq!(sanitize_path("/a%zzb").unwrap(), "/a%zzb");
    // 0xFF is not valid UTF-8: the byte is replaced, the path accepted.
    assert!(sanitize_path("/bad%FFbyte").is_ok());
}
