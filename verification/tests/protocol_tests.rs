use gemini_server::cache::Cache;
use gemini_server::protocol::{
    not_found_response, on_file_read, on_request_line, plan_request, success_response, FileKind,
    HandlerStep, ReadOutcome, RequestPlan,
};

// A full request for the root page: resolve, read, convert, respond.
#[test]
fn root_request_serves_index() {
    let mut cache = Cache::new();
    let pages_dir = "pages";

    let step = on_request_line(&cache, pages_dir, Some("gemini://host/\r\n"));
    let pending = match step {
        HandlerStep::NeedFile { pending } => pending,
        _ => panic!("a first request must need a file read"),
    };
    assert_eq!(pending.kind, FileKind::Markup);
    assert_eq!(pending.safe_path, "/");
    assert_eq!(pending.resolved, "pages/index.md");

    let content = "# Hello World\n\nWelcome to Gemini!".to_string();
    let response = on_file_read(&mut cache, pages_dir, pending, ReadOutcome::Text { content });

    assert!(response.starts_with(b"20 text/gemini\r\n"));
    let body = String::from_utf8(response[b"20 text/gemini\r\n".len()..].to_vec()).unwrap();
    assert!(body.contains("# Hello World"));
    assert!(body.contains("Welcome to Gemini!"));
}

// A traversal attempt is answered with the not-found status, whether or
// not a file of that name exists: either the URL parser collapses the
// dot segments (so nothing above the pages root can be named) or the
// sanitizer refuses the path outright.
#[test]
fn traversal_request_is_not_found() {
    let mut cache = Cache::new();
    let step = on_request_line(&cache, "pages", Some("gemini://host/../secret\r\n"));
    let response = match step {
        HandlerStep::Respond { response } => response,
        HandlerStep::NeedFile { pending } => {
            // Whatever the parser left, the file to read stays inside the
            // pages root.
            assert!(!pending.resolved.contains(".."));
            on_file_read(&mut cache, "pages", pending, ReadOutcome::Missing)
        },
        HandlerStep::CloseSilently => panic!("a request line was read"),
    };
    assert_eq!(response, b"51 Not Found\r\n".to_vec());
}

// A traversal hidden behind encoded slashes survives URL parsing and is
// refused by the sanitizer itself.
#[test]
fn encoded_traversal_is_refused_by_sanitizer() {
    let cache = Cache::new();
    let step = on_request_line(&cache, "pages", Some("gemini://host/a%2F..%2Fsecret\r\n"));
    match step {
        HandlerStep::Respond { response } => assert_eq!(response, b"51 Not Found\r\n".to_vec()),
        _ => panic!("an encoded traversal must be refused outright"),
    }
}

// A binary asset is served with its MIME type and its exact bytes.
#[test]
fn image_request_serves_bytes() {
    let mut cache = Cache::new();
    let pages_dir = "pages";

    let step = on_request_line(&cache, pages_dir, Some("gemini://host/example.jpg\r\n"));
    let pending = match step {
        HandlerStep::NeedFile { pending } => pending,
        _ => panic!("a first request must need a file read"),
    };
    assert_eq!(pending.kind, FileKind::Binary);
    assert_eq!(pending.resolved, "pages/example.jpg");

    let data = vec![0xFF, 0xD8, 0xFF, 0xE0];
    let response = on_file_read(
        &mut cache,
        pages_dir,
        pending,
        ReadOutcome::Bytes { data: data.clone() },
    );

    let header = b"20 image/jpeg\r\n";
    assert!(response.starts_with(header));
    assert_eq!(response[header.len()..].to_vec(), data);
}

// After a page is served once, the same request line is answered from
// the cache alone.
#[test]
fn second_request_is_answered_from_cache() {
    let mut cache = Cache::new();
    let pages_dir = "pages";
    let line = Some("gemini://host/\r\n");

    let pending = match on_request_line(&cache, pages_dir, line) {
        HandlerStep::NeedFile { pending } => pending,
        _ => panic!("a first request must need a file read"),
    };
    let content = "# Hello World".to_string();
    let first = on_file_read(&mut cache, pages_dir, pending, ReadOutcome::Text { content });

    match on_request_line(&cache, pages_dir, line) {
        HandlerStep::Respond { response } => assert_eq!(response, first),
        _ => panic!("the second request must be a cache hit"),
    }
}

// A clean disconnect before any line arrived closes silently.
#[test]
fn eof_closes_silently() {
    let cache = Cache::new();
    match on_request_line(&cache, "pages", None) {
        HandlerStep::CloseSilently => {},
        _ => panic!("an immediate disconnect gets no response"),
    }
}

// A line that does not parse as a URL is answered with the not-found
// status: malformed and missing are indistinguishable to the client.
#[test]
fn malformed_line_is_not_found() {
    let cache = Cache::new();
    match on_request_line(&cache, "pages", Some("not a url\r\n")) {
        HandlerStep::Respond { response } => assert_eq!(response, b"51 Not Found\r\n".to_vec()),
        _ => panic!("a malformed line must be answered outright"),
    }
}

// The routing rule: a URL's path is extracted, sanitized and dispatched
// by extension.
#[test]
fn request_planning() {
    match plan_request("gemini://host/about") {
        RequestPlan::Markup { safe_path } => assert_eq!(safe_path, "/about"),
        _ => panic!("a plain path is a markup request"),
    }
    match plan_request("gemini://host/pic.png") {
        RequestPlan::Binary { safe_path } => assert_eq!(safe_path, "/pic.png"),
        _ => panic!("an image path is a binary request"),
    }
    assert!(matches!(plan_request("gemini://host/a%2F..%2Fx"), RequestPlan::Invalid));
    assert!(matches!(plan_request(""), RequestPlan::Invalid));
}

// The request line is trimmed before parsing.
#[test]
fn request_line_is_trimmed() {
    match plan_request("  gemini://host/about \r\n") {
        RequestPlan::Markup { safe_path } => assert_eq!(safe_path, "/about"),
        _ => panic!("surrounding whitespace must not break parsing"),
    }
}

// Response framing: the status line, then the body, nothing else.
#[test]
fn response_framing() {
    let r = success_response("text/gemini", b"body".to_vec());
    assert_eq!(r, b"20 text/gemini\r\nbody".to_vec());
    assert_eq!(not_found_response(), b"51 Not Found\r\n".to_vec());
}

// A file outcome of the wrong shape for the pending kind is refused, not
// mis-served.
#[test]
fn mismatched_read_outcome_is_not_found() {
    let mut cache = Cache::new();
    let pending = match on_request_line(&cache, "pages", Some("gemini://host/a.png\r\n")) {
        HandlerStep::NeedFile { pending } => pending,
        _ => panic!("a first request must need a file read"),
    };
    let response = on_file_read(
        &mut cache,
        "pages",
        pending,
        ReadOutcome::Text { content: "oops".to_string() },
    );
    assert_eq!(response, b"51 Not Found\r\n".to_vec());
}

// A missing file is answered with the not-found status.
#[test]
fn missing_file_is_not_found() {
    let mut cache = Cache::new();
    let pending = match on_request_line(&cache, "pages", Some("gemini://host/gone\r\n")) {
        HandlerStep::NeedFile { pending } => pending,
        _ => panic!("a first request must need a file read"),
    };
    let response = on_file_read(&mut cache, "pages", pending, ReadOutcome::Missing);
    assert_eq!(response, b"51 Not Found\r\n".to_vec());
}
