//! Signature Version 4: scoped key derivation, string-to-sign, and the
//! final signature and `authorization` value.

use vstd::prelude::*;
use vstd::utf8::encode_utf8;

use crate::canonical::{signed_headers, spec_signed_headers};
use crate::crypto::{hmac_sha256, hmac_sha256_of, sha256, sha256_of};
use crate::hex::{hex_encode, hex_of, lemma_hex_of_len};

verus! {

/// The credential scope: `<date>/<region>/s3/aws4_request`.
pub open spec fn spec_scope(date_stamp: Seq<char>, region: Seq<char>) -> Seq<char> {
    date_stamp + "/"@ + region + "/s3/aws4_request"@
}

/// The scoped signing key: HMAC-SHA256 chained over `"AWS4" + secret`, the
/// date stamp, the region, the service name `s3`, and `aws4_request`.
pub open spec fn spec_signing_key(
    secret: Seq<char>,
    date_stamp: Seq<char>,
    region: Seq<char>,
) -> Seq<u8> {
    hmac_sha256_of(
        hmac_sha256_of(
            hmac_sha256_of(
                hmac_sha256_of(encode_utf8("AWS4"@ + secret), encode_utf8(date_stamp)),
                encode_utf8(region),
            ),
            encode_utf8("s3"@),
        ),
        encode_utf8("aws4_request"@),
    )
}

/// The hex-encoded SHA-256 digest of a body's UTF-8 bytes.
pub open spec fn spec_payload_hash(body: Seq<char>) -> Seq<char> {
    hex_of(sha256_of(encode_utf8(body)))
}

/// The string to sign: algorithm tag, timestamp, credential scope, and the
/// hex-encoded SHA-256 digest of the canonical request.
pub open spec fn spec_string_to_sign(
    amz_date: Seq<char>,
    scope: Seq<char>,
    canonical_request: Seq<char>,
) -> Seq<char> {
    "AWS4-HMAC-SHA256\n"@ + amz_date + "\n"@ + scope + "\n"@ + hex_of(
        sha256_of(encode_utf8(canonical_request)),
    )
}

/// The final signature: the hex-encoded HMAC-SHA256 tag of the string to
/// sign under the scoped signing key.
pub open spec fn spec_signature_of(signing_key: Seq<u8>, string_to_sign: Seq<char>) -> Seq<char> {
    hex_of(hmac_sha256_of(signing_key, encode_utf8(string_to_sign)))
}

/// The `authorization` header value carrying the access key, the
/// credential scope, the signed-headers list, and the signature. The
/// signed-headers list names the session token when one is configured.
pub open spec fn spec_authorization(
    access_key: Seq<char>,
    scope: Seq<char>,
    signature: Seq<char>,
    session_token: Seq<char>,
) -> Seq<char> {
    "AWS4-HMAC-SHA256 Credential="@ + access_key + "/"@ + scope + ", SignedHeaders="@
        + spec_signed_headers(session_token) + ", Signature="@ + signature
}

/// Renders the credential scope.
pub fn scope(date_stamp: &str, region: &str) -> (r: String)
    ensures
        r@ == spec_scope(date_stamp@, region@),
{
    let mut out = String::new();
    out.append(date_stamp);
    out.append("/");
    out.append(region);
    out.append("/s3/aws4_request");
    assert(out@ =~= spec_scope(date_stamp@, region@));
    out
}

/// Derives the scoped signing key for a secret, date stamp, and region.
pub fn derive_signing_key(secret: &str, date_stamp: &str, region: &str) -> (r: Vec<u8>)
    ensures
        r@ == spec_signing_key(secret@, date_stamp@, region@),
        r@.len() == 32,
{
    let mut initial = String::new();
    initial.append("AWS4");
    initial.append(secret);
    assert(initial@ =~= "AWS4"@ + secret@);
    let k_date = hmac_sha256(initial.as_str().as_bytes(), date_stamp.as_bytes());
    let k_region = hmac_sha256(k_date.as_slice(), region.as_bytes());
    let k_service = hmac_sha256(k_region.as_slice(), "s3".as_bytes());
    hmac_sha256(k_service.as_slice(), "aws4_request".as_bytes())
}

/// Hex-encodes the SHA-256 digest of a body.
pub fn payload_hash(body: &str) -> (r: String)
    ensures
        r@ == spec_payload_hash(body@),
        r@.len() == 64,
{
    let digest = sha256(body.as_bytes());
    proof {
        lemma_hex_of_len(digest@);
    }
    hex_encode(digest.as_slice())
}

/// Renders the string to sign for a canonical request.
pub fn string_to_sign(amz_date: &str, scope: &str, canonical_request: &str) -> (r: String)
    ensures
        r@ == spec_string_to_sign(amz_date@, scope@, canonical_request@),
{
    let digest = sha256(canonical_request.as_bytes());
    let digest_hex = hex_encode(digest.as_slice());
    let mut out = String::new();
    out.append("AWS4-HMAC-SHA256\n");
    out.append(amz_date);
    out.append("\n");
    out.append(scope);
    out.append("\n");
    out.append(digest_hex.as_str());
    assert(out@ =~= spec_string_to_sign(amz_date@, scope@, canonical_request@));
    out
}

/// Computes the hex-encoded signature of the string to sign.
pub fn compute_signature(signing_key: &[u8], string_to_sign: &str) -> (r: String)
    ensures
        r@ == spec_signature_of(signing_key@, string_to_sign@),
        r@.len() == 64,
{
    let tag = hmac_sha256(signing_key, string_to_sign.as_bytes());
    proof {
        lemma_hex_of_len(tag@);
    }
    hex_encode(tag.as_slice())
}

/// Renders the `authorization` header value.
pub fn authorization_value(
    access_key: &str,
    scope: &str,
    signature: &str,
    session_token: &str,
) -> (r: String)
    ensures
        r@ == spec_authorization(access_key@, scope@, signature@, session_token@),
{
    let mut out = String::new();
    out.append("AWS4-HMAC-SHA256 Credential=");
    out.append(access_key);
    out.append("/");
    out.append(scope);
    out.append(", SignedHeaders=");
    out.append(signed_headers(session_token));
    out.append(", Signature=");
    out.append(signature);
    assert(out@ =~= spec_authorization(access_key@, scope@, signature@, session_token@));
    out
}

} // verus!
