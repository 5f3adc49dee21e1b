use vstd::prelude::*;

use crate::errors::ServerError;

verus! {

/// The percent-decoded, UTF-8-lossy reading of a request path: what
/// `percent_encoding::percent_decode_str(..).decode_utf8_lossy()` returns
/// for the given characters.
pub uninterp spec fn percent_decoded_lossy(s: Seq<char>) -> Seq<char>;

/// True when position `i` starts a parent-directory (`..`) component of
/// `s`: two dots delimited by `/` separators or the ends of the string.
pub open spec fn dotdot_component_at(s: Seq<char>, i: int) -> bool {
    &&& 0 <= i
    &&& i + 2 <= s.len()
    &&& s[i] == '.'
    &&& s[i + 1] == '.'
    &&& (i == 0 || s[i - 1] == '/')
    &&& (i + 2 == s.len() || s[i + 2] == '/')
}

/// True when some component of `s` is a parent-directory reference.
pub open spec fn has_dotdot_component(s: Seq<char>) -> bool {
    exists|i: int| dotdot_component_at(s, i)
}

/// What sanitization yields: the decoded path, unless a component of the
/// decoded path is a parent-directory reference.
pub open spec fn sanitize_spec(path: Seq<char>) -> Option<Seq<char>> {
    if has_dotdot_component(percent_decoded_lossy(path)) {
        None
    } else {
        Some(percent_decoded_lossy(path))
    }
}

/// Relies on `percent_encoding::percent_decode_str` and
/// `PercentDecode::decode_utf8_lossy`: the result depends on the input
/// characters alone.  Decoding rewrites only `%`-hex-hex triples and passes
/// every other byte through in order, so an input without `%` decodes to
/// itself; and since `%`, `.` and `/` are never consumed by a triple and
/// ASCII bytes pass the lossy UTF-8 step unchanged, a `/`-delimited `..`
/// component survives decoding.
#[verifier::external_body]
fn percent_decode_lossy(s: &str) -> (r: String)
    ensures
        r@ == percent_decoded_lossy(s@),
        !s@.contains('%') ==> r@ == s@,
        !r@.contains('%') ==> percent_decoded_lossy(r@) == r@,
        has_dotdot_component(s@) ==> has_dotdot_component(r@),
{
    percent_encoding::percent_decode_str(s).decode_utf8_lossy().into_owned()
}

/// Sanitizes a requested path: percent-decodes it (malformed byte
/// sequences are replaced, never rejected) and refuses any path whose
/// decoded form holds a parent-directory (`..`) component.  Accepted paths
/// are returned decoded and otherwise unchanged.
///
/// Sanitization is stable: feeding an accepted result back in succeeds
/// with the same string, as long as that result no longer holds `%` (a
/// decoded path may itself hold percent escapes, which would decode
/// again).
pub fn sanitize_path(path: &str) -> (r: Result<String, ServerError>)
    ensures
        match r {
            Ok(s) => sanitize_spec(path@) == Some(s@),
            Err(e) => sanitize_spec(path@) is None && e == ServerError::Traversal,
        },
        has_dotdot_component(path@) ==> r is Err,
        r is Ok && !r->Ok_0@.contains('%') ==> sanitize_spec(r->Ok_0@) == Some(r->Ok_0@),
{
    let decoded = percent_decode_lossy(path);
    let n = decoded.as_str().unicode_len();
    let mut i: usize = 0;
    while i < n
        invariant
            n == decoded@.len(),
            decoded@ == percent_decoded_lossy(path@),
            forall|j: int| j < i ==> !dotdot_component_at(decoded@, j),
        decreases n - i,
    {
        if decoded.as_str().get_char(i) == '.' && i + 1 < n && decoded.as_str().get_char(i + 1)
            == '.' {
            let before_ok = i == 0 || decoded.as_str().get_char(i - 1) == '/';
            let after_ok = i + 2 == n || decoded.as_str().get_char(i + 2) == '/';
            if before_ok && after_ok {
                proof {
                    assert(has_dotdot_component(percent_decoded_lossy(path@))) by {
                        assert(dotdot_component_at(percent_decoded_lossy(path@), i as int));
                    }
                }
                return Err(ServerError::Traversal);
            }
        }
        i = i + 1;
    }
    assert(!has_dotdot_component(decoded@)) by {
        assert(forall|j: int| j >= n ==> !dotdot_component_at(decoded@, j));
    }
    Ok(decoded)
}

} // verus!
