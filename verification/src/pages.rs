use vstd::prelude::*;

use crate::cache::Cache;
use crate::errors::ServerError;
use crate::markup;
use crate::markup::{convert_spec, markup_events_of};

verus! {

/// True when `s` ends with `suffix`.
pub open spec fn has_suffix(s: Seq<char>, suffix: Seq<char>) -> bool {
    s.len() >= suffix.len() && s.subrange(s.len() - suffix.len(), s.len() as int) == suffix
}

/// Decides `has_suffix` for two texts.
pub fn str_ends_with(s: &str, suffix: &str) -> (r: bool)
    ensures
        r == has_suffix(s@, suffix@),
{
    let n = s.unicode_len();
    let m = suffix.unicode_len();
    if m > n {
        return false;
    }
    let mut k: usize = 0;
    while k < m
        invariant
            k <= m <= n,
            n == s@.len(),
            m == suffix@.len(),
            forall|j: int| 0 <= j < k ==> s@[n - m + j] == suffix@[j],
        decreases m - k,
    {
        if s.get_char(n - m + k) != suffix.get_char(k) {
            proof {
                assert(!has_suffix(s@, suffix@)) by {
                    if has_suffix(s@, suffix@) {
                        assert(s@.subrange(n - m, n as int)[k as int] == suffix@[k as int]);
                    }
                }
            }
            return false;
        }
        k = k + 1;
    }
    proof {
        assert(s@.subrange(n - m, n as int) =~= suffix@);
    }
    true
}

/// The MIME type served for a sanitized path, inferred from its
/// extension; anything unrecognized is served as a plain octet stream.
pub open spec fn mime_type_spec(path: Seq<char>) -> Seq<char> {
    if has_suffix(path, ".jpg"@) || has_suffix(path, ".jpeg"@) {
        "image/jpeg"@
    } else if has_suffix(path, ".png"@) {
        "image/png"@
    } else if has_suffix(path, ".gif"@) {
        "image/gif"@
    } else {
        "application/octet-stream"@
    }
}

/// Infers the MIME type of a file from its path's extension.  The lookup
/// is pure and cheap, so its result is never cached.
pub fn get_mime_type(path: &str) -> (r: &'static str)
    ensures
        r@ == mime_type_spec(path@),
{
    if str_ends_with(path, ".jpg") || str_ends_with(path, ".jpeg") {
        "image/jpeg"
    } else if str_ends_with(path, ".png") {
        "image/png"
    } else if str_ends_with(path, ".gif") {
        "image/gif"
    } else {
        "application/octet-stream"
    }
}

/// Where a markup request resolves on disk: the root path serves the
/// index page; any other path serves the markup file named after it.
pub open spec fn markdown_path_spec(pages_dir: Seq<char>, safe_path: Seq<char>) -> Seq<char> {
    if safe_path == "/"@ {
        pages_dir + "/index.md"@
    } else {
        pages_dir + safe_path + ".md"@
    }
}

/// Where a binary-asset request resolves on disk.
pub open spec fn binary_path_spec(pages_dir: Seq<char>, safe_path: Seq<char>) -> Seq<char> {
    pages_dir + safe_path
}

/// Decides whether a sanitized path is exactly the root path.
fn is_root_path(p: &str) -> (r: bool)
    ensures
        r == (p@ == "/"@),
{
    proof {
        reveal_strlit("/");
    }
    if p.unicode_len() == 1 {
        if p.get_char(0) == '/' {
            proof {
                assert(p@ =~= "/"@);
            }
            true
        } else {
            false
        }
    } else {
        false
    }
}

/// Resolves a sanitized markup request path to the file that backs it.
pub fn resolve_markdown_path(pages_dir: &str, safe_path: &str) -> (r: String)
    ensures
        r@ == markdown_path_spec(pages_dir@, safe_path@),
{
    let mut r = pages_dir.to_owned();
    if is_root_path(safe_path) {
        r.append("/index.md");
    } else {
        r.append(safe_path);
        r.append(".md");
    }
    r
}

/// Resolves a sanitized binary request path to the file that backs it.
pub fn resolve_binary_path(pages_dir: &str, safe_path: &str) -> (r: String)
    ensures
        r@ == binary_path_spec(pages_dir@, safe_path@),
{
    let mut r = pages_dir.to_owned();
    r.append(safe_path);
    r
}

/// Answers a markup request from the cache alone: returns the converted
/// page stored under the resolved path, if one is there.  A `Some` answer
/// means no file read is needed.
pub fn serve_markdown_cached(cache: &Cache, pages_dir: &str, safe_path: &str) -> (r: Option<
    String,
>)
    ensures
        match r {
            Some(v) => cache.text_view().contains_key(markdown_path_spec(pages_dir@, safe_path@))
                && v@ == cache.text_view()[markdown_path_spec(pages_dir@, safe_path@)],
            None => !cache.text_view().contains_key(markdown_path_spec(pages_dir@, safe_path@)),
        },
{
    let key = resolve_markdown_path(pages_dir, safe_path);
    cache.get_text(key.as_str())
}

/// Serves a markup page from freshly read file contents: converts the
/// source to the line dialect, stores the result in the text namespace
/// under the resolved path, and returns it.  A failed read (`None`) is
/// surfaced as `NotFound` and leaves the cache untouched.
pub fn serve_markdown(cache: &mut Cache, pages_dir: &str, safe_path: &str, file: Option<
    String,
>) -> (r: Result<String, ServerError>)
    ensures
        match file {
            Some(source) => {
                &&& r is Ok
                &&& r->Ok_0@ == convert_spec(markup_events_of(source@))
                &&& final(cache).text_view() == old(cache).text_view().insert(
                    markdown_path_spec(pages_dir@, safe_path@),
                    convert_spec(markup_events_of(source@)),
                )
                &&& final(cache).binary_view() == old(cache).binary_view()
            },
            None => {
                &&& r is Err
                &&& r->Err_0 == ServerError::NotFound
                &&& *final(cache) == *old(cache)
            },
        },
{
    match file {
        Some(source) => {
            let converted = markup::convert(source.as_str());
            let key = resolve_markdown_path(pages_dir, safe_path);
            cache.set_text(key, converted.clone());
            Ok(converted)
        },
        None => Err(ServerError::NotFound),
    }
}

/// Answers a binary-asset request from the cache alone: returns the bytes
/// stored under the resolved path together with the path's MIME type.
pub fn serve_static_file_cached(cache: &Cache, pages_dir: &str, safe_path: &str) -> (r: Option<
    (Vec<u8>, &'static str),
>)
    ensures
        match r {
            Some(dm) => cache.binary_view().contains_key(binary_path_spec(pages_dir@, safe_path@))
                && dm.0@ == cache.binary_view()[binary_path_spec(pages_dir@, safe_path@)] && dm.1@
                == mime_type_spec(safe_path@),
            None => !cache.binary_view().contains_key(binary_path_spec(pages_dir@, safe_path@)),
        },
{
    let key = resolve_binary_path(pages_dir, safe_path);
    match cache.get_binary(key.as_str()) {
        Some(data) => Some((data, get_mime_type(safe_path))),
        None => None,
    }
}

/// Serves a binary asset from freshly read file contents: stores the
/// bytes in the binary namespace under the resolved path and returns them
/// with the path's MIME type.  A failed read (`None`) is surfaced as
/// `NotFound` and leaves the cache untouched.
pub fn serve_static_file(cache: &mut Cache, pages_dir: &str, safe_path: &str, file: Option<
    Vec<u8>,
>) -> (r: Result<(Vec<u8>, &'static str), ServerError>)
    ensures
        match file {
            Some(data) => {
                &&& r is Ok
                &&& r->Ok_0.0@ == data@
                &&& r->Ok_0.1@ == mime_type_spec(safe_path@)
                &&& final(cache).binary_view() == old(cache).binary_view().insert(
                    binary_path_spec(pages_dir@, safe_path@),
                    data@,
                )
                &&& final(cache).text_view() == old(cache).text_view()
            },
            None => {
                &&& r is Err
                &&& r->Err_0 == ServerError::NotFound
                &&& *final(cache) == *old(cache)
            },
        },
{
    match file {
        Some(data) => {
            let key = resolve_binary_path(pages_dir, safe_path);
            let mime = get_mime_type(safe_path);
            cache.set_binary(key, data.clone());
            Ok((data, mime))
        },
        None => Err(ServerError::NotFound),
    }
}

/// Law: once a page has been served and stored, a second request for the
/// same path is answered from the cache — the stored text is exactly what
/// `serve_markdown_cached` must return, so no further file read happens.
pub proof fn lemma_second_request_is_cache_hit(
    c0: Cache,
    c1: Cache,
    pages_dir: Seq<char>,
    safe_path: Seq<char>,
    text: Seq<char>,
)
    requires
        c1.text_view() == c0.text_view().insert(markdown_path_spec(pages_dir, safe_path), text),
    ensures
        c1.text_view().contains_key(markdown_path_spec(pages_dir, safe_path)),
        c1.text_view()[markdown_path_spec(pages_dir, safe_path)] == text,
{
}

} // verus!
