use vstd::prelude::*;

use crate::cache::Cache;
use crate::markup::{char_is_whitespace, convert_spec, is_unicode_whitespace, markup_events_of};
use crate::pages;
use crate::pages::{binary_path_spec, has_suffix, markdown_path_spec, mime_type_spec};
use crate::sanitize::{has_dotdot_component, sanitize_path, sanitize_spec};
use vstd::utf8::encode_utf8;

verus! {

/// What dropping leading whitespace leaves of a text.
pub open spec fn trim_start_spec(s: Seq<char>) -> Seq<char>
    decreases s.len(),
{
    if s.len() > 0 && is_unicode_whitespace(s[0]) {
        trim_start_spec(s.drop_first())
    } else {
        s
    }
}

/// What dropping trailing whitespace leaves of a text.
pub open spec fn trim_end_spec(s: Seq<char>) -> Seq<char>
    decreases s.len(),
{
    if s.len() > 0 && is_unicode_whitespace(s.last()) {
        trim_end_spec(s.drop_last())
    } else {
        s
    }
}

/// What trimming whitespace from both ends leaves of a text.
pub open spec fn trim_spec(s: Seq<char>) -> Seq<char> {
    trim_end_spec(trim_start_spec(s))
}

/// Trims whitespace from both ends of a text.
pub fn trim_str(s: &str) -> (r: String)
    ensures
        r@ == trim_spec(s@),
{
    let n = s.unicode_len();
    let mut a: usize = 0;
    proof {
        assert(s@.skip(0) =~= s@);
    }
    while a < n && char_is_whitespace(s.get_char(a))
        invariant
            a <= n,
            n == s@.len(),
            trim_start_spec(s@) == trim_start_spec(s@.skip(a as int)),
        decreases n - a,
    {
        proof {
            assert(s@.skip(a as int).drop_first() =~= s@.skip(a as int + 1));
        }
        a = a + 1;
    }
    proof {
        assert(trim_start_spec(s@) == s@.skip(a as int));
    }
    let ghost t = s@.skip(a as int);
    let mut b: usize = n;
    proof {
        assert(t.take(b - a) =~= t);
    }
    while b > a && char_is_whitespace(s.get_char(b - 1))
        invariant
            a <= b <= n,
            n == s@.len(),
            t == s@.skip(a as int),
            trim_end_spec(t) == trim_end_spec(t.take(b - a)),
        decreases b,
    {
        proof {
            assert(t.take(b - a).last() == s@[b - 1]);
            assert(t.take(b - a).drop_last() =~= t.take(b - 1 - a));
        }
        b = b - 1;
    }
    proof {
        assert(trim_end_spec(t.take(b - a)) == t.take(b - a));
        assert(t.take(b - a) =~= s@.subrange(a as int, b as int));
    }
    s.substring_char(a, b).to_owned()
}

/// The path component of the request URL, when the text parses as one.
pub uninterp spec fn url_path_of(line: Seq<char>) -> Option<Seq<char>>;

/// Relies on `url::Url::parse` and `url::Url::path`: whether a text
/// parses as a URL, and which path its parse carries, depend on the text
/// alone.
#[verifier::external_body]
fn parse_url_path(line: &str) -> (r: Option<String>)
    ensures
        r is Some <==> url_path_of(line@) is Some,
        r is Some ==> r->0@ == url_path_of(line@)->0,
{
    match url::Url::parse(line) {
        Ok(u) => Some(u.path().to_string()),
        Err(_) => None,
    }
}

/// The dispatch rule: a sanitized path names a binary asset exactly when
/// it ends in a known image extension; anything else is a markup request.
pub open spec fn is_binary_request(safe_path: Seq<char>) -> bool {
    ||| has_suffix(safe_path, ".jpg"@)
    ||| has_suffix(safe_path, ".jpeg"@)
    ||| has_suffix(safe_path, ".png"@)
    ||| has_suffix(safe_path, ".gif"@)
}

/// Decides `is_binary_request` for a sanitized path.
pub fn is_binary_request_path(safe_path: &str) -> (r: bool)
    ensures
        r == is_binary_request(safe_path@),
{
    pages::str_ends_with(safe_path, ".jpg") || pages::str_ends_with(safe_path, ".jpeg")
        || pages::str_ends_with(safe_path, ".png") || pages::str_ends_with(safe_path, ".gif")
}

/// The sanitized path a raw request line asks for: the line is trimmed,
/// parsed as a URL, its path component sanitized.  `None` when parsing
/// or sanitization fails.
pub open spec fn request_safe_path(raw_line: Seq<char>) -> Option<Seq<char>> {
    match url_path_of(trim_spec(raw_line)) {
        Option::None => Option::None,
        Option::Some(p) => sanitize_spec(p),
    }
}

/// How a request line is routed.
pub enum RequestPlan {
    /// The line does not parse as a URL, or its path attempts traversal:
    /// answer the client-error status line, with no body.
    Invalid,
    /// Serve the markup page behind the sanitized path.
    Markup { safe_path: String },
    /// Serve the binary asset behind the sanitized path.
    Binary { safe_path: String },
}

/// Routes one raw request line: trims it, parses it as a URL, sanitizes
/// the URL's path and applies the dispatch rule.  Parse and sanitization
/// failures are deliberately indistinguishable in the result, so a
/// client cannot probe the file-system layout.  A URL path that holds a
/// `..` component even before decoding is refused as well.
pub fn plan_request(raw_line: &str) -> (r: RequestPlan)
    ensures
        match request_safe_path(raw_line@) {
            Option::None => r is Invalid,
            Option::Some(sp) => if is_binary_request(sp) {
                r matches RequestPlan::Binary { safe_path } && safe_path@ == sp
            } else {
                r matches RequestPlan::Markup { safe_path } && safe_path@ == sp
            },
        },
        url_path_of(trim_spec(raw_line@)) matches Some(p) && has_dotdot_component(p) ==> r
            is Invalid,
{
    let trimmed = trim_str(raw_line);
    match parse_url_path(trimmed.as_str()) {
        Option::None => RequestPlan::Invalid,
        Option::Some(p) => match sanitize_path(p.as_str()) {
            Result::Err(_) => RequestPlan::Invalid,
            Result::Ok(safe_path) => {
                if is_binary_request_path(safe_path.as_str()) {
                    RequestPlan::Binary { safe_path }
                } else {
                    RequestPlan::Markup { safe_path }
                }
            },
        },
    }
}

/// The full successful response: the success status line carrying the
/// MIME type, then the body bytes.  The connection's close marks the end
/// of the body; there is no other framing.
pub open spec fn success_response_spec(mime: Seq<char>, body: Seq<u8>) -> Seq<u8> {
    encode_utf8("20 "@ + mime + "\r\n"@) + body
}

/// The full client-error response: the not-found status line, no body.
pub open spec fn not_found_response_spec() -> Seq<u8> {
    encode_utf8("51 Not Found\r\n"@)
}

/// Frames a successful response from a MIME type and body bytes.
pub fn success_response(mime: &str, body: Vec<u8>) -> (r: Vec<u8>)
    ensures
        r@ == success_response_spec(mime@, body@),
{
    let mut header = "20 ".to_owned();
    header.append(mime);
    header.append("\r\n");
    let mut r = header.as_str().as_bytes_vec();
    r.extend_from_slice(body.as_slice());
    r
}

/// Frames the client-error response.
pub fn not_found_response() -> (r: Vec<u8>)
    ensures
        r@ == not_found_response_spec(),
{
    "51 Not Found\r\n".as_bytes_vec()
}

/// Which pipeline a pending file read feeds.
#[derive(Clone, Copy, Debug, PartialEq, Eq, Structural)]
pub enum FileKind {
    /// The file is markup source to convert.
    Markup,
    /// The file is a binary asset to serve raw.
    Binary,
}

/// A file read the connection handler still needs before it can respond.
pub struct PendingRead {
    /// Which pipeline the file feeds.
    pub kind: FileKind,
    /// The sanitized request path.
    pub safe_path: String,
    /// The resolved file-system path to read.
    pub resolved: String,
}

/// What the connection handler decides from a request line.
pub enum HandlerStep {
    /// Close without responding: a clean disconnect before any line
    /// arrived.
    CloseSilently,
    /// The response is fully determined: write these bytes, then close.
    Respond { response: Vec<u8> },
    /// A file read is needed; hand its outcome to `on_file_read`.
    NeedFile { pending: PendingRead },
}

/// Decides what to do once the request line has been read (or the peer
/// has hung up).  Invalid lines are answered with the client-error
/// status; requests whose content is already cached are answered
/// outright; anything else names the one file read that is still needed.
pub fn on_request_line(cache: &Cache, pages_dir: &str, line_read: Option<&str>) -> (r: HandlerStep)
    ensures
        line_read is None ==> r is CloseSilently,
        line_read matches Some(line) && (url_path_of(trim_spec(line@)) matches Some(p)
            && has_dotdot_component(p)) ==> (r matches HandlerStep::Respond { response }
            && response@ == not_found_response_spec()),
        line_read matches Some(line) ==> match request_safe_path(line@) {
            Option::None => r matches HandlerStep::Respond { response } && response@
                == not_found_response_spec(),
            Option::Some(sp) => if is_binary_request(sp) {
                if cache.binary_view().contains_key(binary_path_spec(pages_dir@, sp)) {
                    r matches HandlerStep::Respond { response } && response@
                        == success_response_spec(
                        mime_type_spec(sp),
                        cache.binary_view()[binary_path_spec(pages_dir@, sp)],
                    )
                } else {
                    r matches HandlerStep::NeedFile { pending } && pending.kind == FileKind::Binary
                        && pending.safe_path@ == sp && pending.resolved@ == binary_path_spec(
                        pages_dir@,
                        sp,
                    )
                }
            } else {
                if cache.text_view().contains_key(markdown_path_spec(pages_dir@, sp)) {
                    r matches HandlerStep::Respond { response } && response@
                        == success_response_spec(
                        "text/gemini"@,
                        encode_utf8(cache.text_view()[markdown_path_spec(pages_dir@, sp)]),
                    )
                } else {
                    r matches HandlerStep::NeedFile { pending } && pending.kind == FileKind::Markup
                        && pending.safe_path@ == sp && pending.resolved@ == markdown_path_spec(
                        pages_dir@,
                        sp,
                    )
                }
            },
        },
{
    let line = match line_read {
        Option::None => {
            return HandlerStep::CloseSilently;
        },
        Option::Some(line) => line,
    };
    match plan_request(line) {
        RequestPlan::Invalid => HandlerStep::Respond { response: not_found_response() },
        RequestPlan::Binary { safe_path } => {
            match pages::serve_static_file_cached(cache, pages_dir, safe_path.as_str()) {
                Option::Some((data, mime)) => HandlerStep::Respond {
                    response: success_response(mime, data),
                },
                Option::None => {
                    let resolved = pages::resolve_binary_path(pages_dir, safe_path.as_str());
                    HandlerStep::NeedFile {
                        pending: PendingRead { kind: FileKind::Binary, safe_path, resolved },
                    }
                },
            }
        },
        RequestPlan::Markup { safe_path } => {
            match pages::serve_markdown_cached(cache, pages_dir, safe_path.as_str()) {
                Option::Some(text) => HandlerStep::Respond {
                    response: success_response("text/gemini", text.as_str().as_bytes_vec()),
                },
                Option::None => {
                    let resolved = pages::resolve_markdown_path(pages_dir, safe_path.as_str());
                    HandlerStep::NeedFile {
                        pending: PendingRead { kind: FileKind::Markup, safe_path, resolved },
                    }
                },
            }
        },
    }
}

/// The outcome of the file read a `PendingRead` asked for.
pub enum ReadOutcome {
    /// The file was read as text (a markup request).
    Text { content: String },
    /// The file was read as raw bytes (a binary request).
    Bytes { data: Vec<u8> },
    /// The file is missing or unreadable.
    Missing,
}

/// Finishes a request once the pending file read has an outcome: converts
/// and caches a markup page, or caches a binary asset, and frames the
/// response.  A missing file — or an outcome of the wrong shape for the
/// pending kind — yields the client-error response and leaves the cache
/// untouched.
pub fn on_file_read(cache: &mut Cache, pages_dir: &str, pending: PendingRead, file: ReadOutcome) -> (r:
    Vec<u8>)
    ensures
        match (pending.kind, file) {
            (FileKind::Markup, ReadOutcome::Text { content }) => {
                &&& r@ == success_response_spec(
                    "text/gemini"@,
                    encode_utf8(convert_spec(markup_events_of(content@))),
                )
                &&& final(cache).text_view() == old(cache).text_view().insert(
                    markdown_path_spec(pages_dir@, pending.safe_path@),
                    convert_spec(markup_events_of(content@)),
                )
                &&& final(cache).binary_view() == old(cache).binary_view()
            },
            (FileKind::Binary, ReadOutcome::Bytes { data }) => {
                &&& r@ == success_response_spec(mime_type_spec(pending.safe_path@), data@)
                &&& final(cache).binary_view() == old(cache).binary_view().insert(
                    binary_path_spec(pages_dir@, pending.safe_path@),
                    data@,
                )
                &&& final(cache).text_view() == old(cache).text_view()
            },
            _ => {
                &&& r@ == not_found_response_spec()
                &&& *final(cache) == *old(cache)
            },
        },
{
    match (pending.kind, file) {
        (FileKind::Markup, ReadOutcome::Text { content }) => {
            match pages::serve_markdown(cache, pages_dir, pending.safe_path.as_str(), Some(
                content,
            )) {
                Result::Ok(text) => success_response("text/gemini", text.as_str().as_bytes_vec()),
                Result::Err(_) => not_found_response(),
            }
        },
        (FileKind::Binary, ReadOutcome::Bytes { data }) => {
            match pages::serve_static_file(cache, pages_dir, pending.safe_path.as_str(), Some(
                data,
            )) {
                Result::Ok((bytes, mime)) => success_response(mime, bytes),
                Result::Err(_) => not_found_response(),
            }
        },
        _ => not_found_response(),
    }
}

} // verus!
