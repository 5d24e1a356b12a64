//! The canonical request form that Signature Version 4 signs.
//!
//! The request is serialized deterministically: method, canonical URI path,
//! empty canonical query string, the canonical block of the three signed
//! headers in their sorted order, the signed-headers list, and the
//! hex-encoded SHA-256 digest of the body.

use vstd::prelude::*;

verus! {

/// The signed-headers list: the lower-case names of exactly the headers
/// this system signs, sorted and semicolon-joined. A non-empty session
/// token is signed as an additional header.
pub open spec fn spec_signed_headers(session_token: Seq<char>) -> Seq<char> {
    if session_token.len() > 0 {
        "host;x-amz-content-sha256;x-amz-date;x-amz-security-token"@
    } else {
        "host;x-amz-content-sha256;x-amz-date"@
    }
}

/// The first `/` at or after position `i`.
pub open spec fn find_slash(u: Seq<char>, i: int) -> Option<int>
    decreases u.len() - i,
{
    if i >= u.len() {
        None
    } else if u[i] == '/' {
        Some(i)
    } else {
        find_slash(u, i + 1)
    }
}

/// The canonical URI path of an `https` URL: everything from the first `/`
/// after the scheme and authority, or `/` when the URL has no path part.
pub open spec fn spec_url_path(u: Seq<char>) -> Seq<char> {
    match find_slash(u, 8) {
        Some(i) => u.skip(i),
        None => "/"@,
    }
}

/// The canonical request for a PUT of `payload_hash`-digested content to
/// `path` on `host`, dated `amz_date`, with an empty query string. A
/// non-empty session token stands as a fourth canonical header line, in
/// its sorted place after `x-amz-date`. The path is signed verbatim, with
/// no URI normalization or percent-encoding: exact for this system's
/// generated keys, whose characters are unreserved.
pub open spec fn spec_canonical_request(
    path: Seq<char>,
    host: Seq<char>,
    payload_hash: Seq<char>,
    amz_date: Seq<char>,
    session_token: Seq<char>,
) -> Seq<char> {
    "PUT\n"@ + path + "\n"@ + "\n"@ + "host:"@ + host + "\n"@ + "x-amz-content-sha256:"@
        + payload_hash + "\n"@ + "x-amz-date:"@ + amz_date + "\n"@ + (if session_token.len() > 0 {
        "x-amz-security-token:"@ + session_token + "\n"@
    } else {
        Seq::empty()
    }) + "\n"@ + spec_signed_headers(session_token) + "\n"@ + payload_hash
}

/// Extracts the canonical URI path from an `https` URL.
pub fn url_path(url: &str) -> (r: String)
    ensures
        r@ == spec_url_path(url@),
{
    let n = url.unicode_len();
    let mut i: usize = 8;
    while i < n
        invariant
            n == url@.len(),
            8 <= i,
            find_slash(url@, 8) == find_slash(url@, i as int),
        decreases n - i,
    {
        if url.get_char(i) == '/' {
            return url.substring_char(i, n).to_owned();
        }
        i = i + 1;
    }
    "/".to_owned()
}

/// Serializes the canonical request.
pub fn canonical_request(
    path: &str,
    host: &str,
    payload_hash: &str,
    amz_date: &str,
    session_token: &str,
) -> (r: String)
    ensures
        r@ == spec_canonical_request(path@, host@, payload_hash@, amz_date@, session_token@),
{
    let mut out = String::new();
    out.append("PUT\n");
    out.append(path);
    out.append("\n");
    out.append("\n");
    out.append("host:");
    out.append(host);
    out.append("\n");
    out.append("x-amz-content-sha256:");
    out.append(payload_hash);
    out.append("\n");
    out.append("x-amz-date:");
    out.append(amz_date);
    out.append("\n");
    if !session_token.is_empty() {
        out.append("x-amz-security-token:");
        out.append(session_token);
        out.append("\n");
    }
    out.append("\n");
    out.append(signed_headers(session_token));
    out.append("\n");
    out.append(payload_hash);
    assert(out@ =~= spec_canonical_request(
        path@,
        host@,
        payload_hash@,
        amz_date@,
        session_token@,
    ));
    out
}

/// Renders the signed-headers list for a session token.
pub fn signed_headers(session_token: &str) -> (r: &'static str)
    ensures
        r@ == spec_signed_headers(session_token@),
{
    if !session_token.is_empty() {
        "host;x-amz-content-sha256;x-amz-date;x-amz-security-token"
    } else {
        "host;x-amz-content-sha256;x-amz-date"
    }
}

} // verus!
