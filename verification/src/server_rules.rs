//! Rules of the HTTP server: static asset types and caching, the
//! per-session API token, and the security headers of every response.
use vstd::prelude::*;
use rand::Rng;
use vstd::string::StringExecFns;

use crate::text::{
    chars_of, ends_with, has_prefix, has_suffix, replace_first, replace_first_str, split_on,
    split_ranges, starts_with, str_equals, string_from_range,
};

verus! {

/// The MIME type for a file extension.
pub open spec fn mime_for_extension(ext: Seq<char>) -> Seq<char> {
    if ext == "html"@ {
        "text/html; charset=utf-8"@
    } else if ext == "js"@ {
        "application/javascript; charset=utf-8"@
    } else if ext == "css"@ {
        "text/css; charset=utf-8"@
    } else if ext == "svg"@ {
        "image/svg+xml"@
    } else if ext == "png"@ {
        "image/png"@
    } else if ext == "ico"@ {
        "image/x-icon"@
    } else if ext == "json"@ {
        "application/json"@
    } else if ext == "woff2"@ {
        "font/woff2"@
    } else if ext == "woff"@ {
        "font/woff"@
    } else {
        "application/octet-stream"@
    }
}

/// The MIME type of an embedded file, by the text after its last `.` (the
/// whole path when it has none).
pub fn mime_from_path(path: &str) -> (r: &'static str)
    ensures
        r@ == mime_for_extension(split_on(path@, '.').last()),
{
    let v = chars_of(path);
    let pieces = split_ranges(&v, 0, v.len(), '.');
    assert(v@.subrange(0, v@.len() as int) =~= path@);
    let (a, b) = pieces[pieces.len() - 1];
    let ext = string_from_range(&v, a, b);
    let e = ext.as_str();
    if str_equals(e, "html") {
        "text/html; charset=utf-8"
    } else if str_equals(e, "js") {
        "application/javascript; charset=utf-8"
    } else if str_equals(e, "css") {
        "text/css; charset=utf-8"
    } else if str_equals(e, "svg") {
        "image/svg+xml"
    } else if str_equals(e, "png") {
        "image/png"
    } else if str_equals(e, "ico") {
        "image/x-icon"
    } else if str_equals(e, "json") {
        "application/json"
    } else if str_equals(e, "woff2") {
        "font/woff2"
    } else if str_equals(e, "woff") {
        "font/woff"
    } else {
        "application/octet-stream"
    }
}

/// HTML is always revalidated (new deploys show up); hashed assets are
/// immutable.
pub fn cache_control_for(file_path: &str) -> (r: &'static str)
    ensures
        r@ == if file_path@ == "index.html"@ || has_suffix(file_path@, ".html"@) {
            "no-cache"@
        } else {
            "public, max-age=31536000, immutable"@
        },
{
    if str_equals(file_path, "index.html") || ends_with(file_path, ".html") {
        "no-cache"
    } else {
        "public, max-age=31536000, immutable"
    }
}

/// Static file paths under `api/` are never served from the embedded assets.
pub fn is_api_asset_path(path: &str) -> (r: bool)
    ensures
        r == has_prefix(path@, "api/"@),
{
    starts_with(path, "api/")
}

/// API requests carry the session token, except the event stream.
pub open spec fn needs_session_token(path: Seq<char>) -> bool {
    has_prefix(path, "/api/"@) && path != "/api/events"@
}

/// Whether a request to `path` may proceed: requests that need the session
/// token must carry exactly it (a missing header counts as empty).
pub fn session_token_accepted(path: &str, provided: Option<&str>, token: &str) -> (r: bool)
    ensures
        r == (!needs_session_token(path@) || match provided {
            Some(p) => p@ == token@,
            None => token@.len() == 0,
        }),
{
    let api = starts_with(path, "/api/");
    let events = str_equals(path, "/api/events");
    if api && !events {
        match provided {
            Some(p) => str_equals(p, token),
            None => {
                proof {
                    reveal_strlit("");
                }
                assert(token@.len() == 0 ==> token@ =~= ""@);
                str_equals("", token)
            },
        }
    } else {
        true
    }
}

/// The tag that carries the session token to the client.
pub open spec fn token_meta(token: Seq<char>) -> Seq<char> {
    "<meta name=\"x-session-token\" content=\""@ + token + "\"></head>"@
}

/// Inject the session token into `index.html`, just before its first
/// `</head>`.
pub fn inject_session_token(html: &str, token: &str) -> (r: String)
    ensures
        r@ == replace_first(html@, "</head>"@, token_meta(token@)),
{
    let meta = String::from_str("<meta name=\"x-session-token\" content=\"").concat(token).concat(
        "\"></head>",
    );
    proof {
        reveal_strlit("</head>");
    }
    replace_first_str(html, "</head>", meta.as_str())
}

/// The headers added to every response. `connect-src 'self'` keeps script
/// that might run in the page from sending data to another origin.
pub fn security_headers() -> (r: Vec<(&'static str, &'static str)>)
    ensures
        r@.len() == 4,
        r@[0].0@ == "x-content-type-options"@ && r@[0].1@ == "nosniff"@,
        r@[1].0@ == "x-frame-options"@ && r@[1].1@ == "DENY"@,
        r@[2].0@ == "referrer-policy"@ && r@[2].1@ == "no-referrer"@,
        r@[3].0@ == "content-security-policy"@ && r@[3].1@ == "default-src 'self'; img-src 'self' https://avatars.githubusercontent.com https://github.com data:; style-src 'self' 'unsafe-inline'; script-src 'self'; connect-src 'self'; frame-ancestors 'none'; base-uri 'self'; form-action 'self'"@,
{
    let mut r: Vec<(&'static str, &'static str)> = Vec::new();
    r.push(("x-content-type-options", "nosniff"));
    r.push(("x-frame-options", "DENY"));
    r.push(("referrer-policy", "no-referrer"));
    r.push(
        (
            "content-security-policy",
            "default-src 'self'; img-src 'self' https://avatars.githubusercontent.com https://github.com data:; style-src 'self' 'unsafe-inline'; script-src 'self'; connect-src 'self'; frame-ancestors 'none'; base-uri 'self'; form-action 'self'",
        ),
    );
    r
}

/// An ASCII letter or digit.
pub open spec fn is_ascii_alphanumeric(c: char) -> bool {
    ('a' <= c && c <= 'z') || ('A' <= c && c <= 'Z') || ('0' <= c && c <= '9')
}

/// `len` characters drawn with `rand`'s `Alphanumeric` distribution from the
/// thread-local generator. The contract states what holds of every draw:
/// the length and that each character is an ASCII letter or digit.
#[verifier::external_body]
fn random_alphanumeric(len: usize) -> (r: String)
    ensures
        r@.len() == len,
        forall|i: int| 0 <= i < r@.len() ==> is_ascii_alphanumeric(#[trigger] r@[i]),
{
    rand::thread_rng().sample_iter(&rand::distributions::Alphanumeric).take(len).map(char::from).collect()
}

/// A fresh per-session secret: 32 random ASCII letters and digits.
pub fn new_session_token() -> (r: String)
    ensures
        r@.len() == 32,
        forall|i: int| 0 <= i < r@.len() ==> is_ascii_alphanumeric(#[trigger] r@[i]),
{
    random_alphanumeric(32)
}

} // verus!
