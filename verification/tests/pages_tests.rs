use gemini_server::cache::Cache;
use gemini_server::pages::{
    get_mime_type, resolve_binary_path, resolve_markdown_path, serve_markdown,
    serve_markdown_cached, serve_static_file, serve_static_file_cached,
};

// Test mime type detection
#[test]
fn test_get_mime_type() {
    assert_eq!(get_mime_type("test.jpg"), "image/jpeg");
    assert_eq!(get_mime_type("test.png"), "image/png");
    assert_eq!(get_mime_type("test.gif"), "image/gif");
    assert_eq!(get_mime_type("test.txt"), "application/octet-stream");
}

#[test]
fn mime_type_jpeg_spelling_and_bare_names() {
    assert_eq!(get_mime_type("photo.jpeg"), "image/jpeg");
    assert_eq!(get_mime_type("jpg"), "application/octet-stream");
    assert_eq!(get_mime_type(""), "application/octet-stream");
}

// The root path serves the index page; other paths get the markup
// extension appended; binary paths are joined unchanged.
#[test]
fn path_resolution() {
    assert_eq!(resolve_markdown_path("pages", "/"), "pages/index.md");
    assert_eq!(resolve_markdown_path("pages", "/about"), "pages/about.md");
    assert_eq!(resolve_binary_path("pages", "/example.jpg"), "pages/example.jpg");
}

// Test serving Markdown content
#[test]
fn test_serve_markdown() {
    let mut cache = Cache::new();
    let pages_dir = "test_pages";
    let safe_path = "/";
    let content = "# Hello World\n\nWelcome to Gemini!";

    let result = serve_markdown(&mut cache, pages_dir, safe_path, Some(content.to_string()));
    assert!(result.is_ok(), "The Markdown file should be served correctly");
    let result_content = result.unwrap();
    assert!(result_content.contains("Hello World"));
    assert!(result_content.contains("Welcome to Gemini!"));
}

// Test serving static files (e.g., images)
#[test]
fn test_serve_static_file() {
    let mut cache = Cache::new();
    let pages_dir = "test_pages";
    let safe_path = "/example.jpg";
    let data = vec![255, 216, 255, 224]; // Some binary data for the test

    let result = serve_static_file(&mut cache, pages_dir, safe_path, Some(data.clone()));
    assert!(result.is_ok(), "The static file should be served correctly");
    let (served_data, mime_type) = result.unwrap();
    assert_eq!(mime_type, "image/jpeg");
    assert_eq!(served_data, data);
}

// A missing file surfaces as an error and stores nothing.
#[test]
fn missing_files_are_not_found() {
    let mut cache = Cache::new();
    assert!(serve_markdown(&mut cache, "pages", "/nope", None).is_err());
    assert!(serve_static_file(&mut cache, "pages", "/nope.png", None).is_err());
    assert_eq!(serve_markdown_cached(&cache, "pages", "/nope"), None);
    assert!(serve_static_file_cached(&cache, "pages", "/nope.png").is_none());
}

// Once served, a page is answered from the cache: the second request
// needs no file contents at all.
#[test]
fn second_request_hits_cache() {
    let mut cache = Cache::new();
    let pages_dir = "test_pages";
    let safe_path = "/";
    let content = "# Hello World\n\nWelcome to Gemini!";

    // Nothing cached yet: the caller would have to read the file.
    assert_eq!(serve_markdown_cached(&cache, pages_dir, safe_path), None);

    let first = serve_markdown(&mut cache, pages_dir, safe_path, Some(content.to_string()))
        .unwrap();

    // The second request is a pure cache hit with the identical text.
    let second = serve_markdown_cached(&cache, pages_dir, safe_path);
    assert_eq!(second, Some(first));
}

// The same memoization holds for binary assets.
#[test]
fn second_static_request_hits_cache() {
    let mut cache = Cache::new();
    let data = vec![0xFF, 0xD8, 0xFF, 0xE0];

    assert!(serve_static_file_cached(&cache, "pages", "/example.jpg").is_none());
    let (first, mime) = serve_static_file(&mut cache, "pages", "/example.jpg", Some(data.clone()))
        .unwrap();
    assert_eq!(mime, "image/jpeg");
    assert_eq!(first, data);

    let (second, mime2) = serve_static_file_cached(&cache, "pages", "/example.jpg").unwrap();
    assert_eq!(second, data);
    assert_eq!(mime2, "image/jpeg");
}
