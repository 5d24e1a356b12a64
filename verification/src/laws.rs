//! Proved laws of the signing pipeline.

use vstd::prelude::*;

use crate::canonical::{find_slash, spec_canonical_request, spec_url_path};
use crate::s3_payload::{spec_headers, spec_host, spec_url, SettingsView};
use crate::sigv4::{
    spec_authorization, spec_payload_hash, spec_scope, spec_signature_of, spec_signing_key,
    spec_string_to_sign,
};
use crate::timestamp::UtcTime;

verus! {

/// The header set holds an entry under `name`.
pub open spec fn has_header(h: Seq<(Seq<char>, Seq<char>)>, name: Seq<char>) -> bool {
    exists|i: int| 0 <= i < h.len() && (#[trigger] h[i]).0 == name
}

/// Every produced header set contains `x-amz-date`, `x-amz-content-sha256`,
/// `authorization` and `host`; it contains `x-amz-security-token` if and
/// only if the configured session token is non-empty.
pub proof fn lemma_header_set_contents(s: SettingsView, url: Seq<char>, body: Seq<char>, t: UtcTime)
    ensures
        ({
            let h = spec_headers(s, url, body, t);
            &&& has_header(h, "x-amz-date"@)
            &&& has_header(h, "x-amz-content-sha256"@)
            &&& has_header(h, "authorization"@)
            &&& has_header(h, "host"@)
            &&& (has_header(h, "x-amz-security-token"@) <==> s.session_token.len() > 0)
            &&& h.len() == (if s.session_token.len() > 0 {
                5int
            } else {
                4int
            })
        }),
{
    reveal_strlit("x-amz-date");
    reveal_strlit("x-amz-content-sha256");
    reveal_strlit("authorization");
    reveal_strlit("host");
    reveal_strlit("x-amz-security-token");
    let h = spec_headers(s, url, body, t);
    assert(h[0].0 == "x-amz-date"@);
    assert(h[1].0 == "x-amz-content-sha256"@);
    assert(h[2].0 == "authorization"@);
    assert(h[h.len() - 1].0 == "host"@);
    if s.session_token.len() > 0 {
        assert(h[3].0 == "x-amz-security-token"@);
    } else {
        assert(h.len() == 4);
        assert forall|i: int| 0 <= i < h.len() implies (#[trigger] h[i]).0
            != "x-amz-security-token"@ by {
            assert("x-amz-date"@.len() == 10);
            assert("authorization"@.len() == 13);
            assert("host"@.len() == 4);
            assert("x-amz-security-token"@.len() == 20);
            assert("x-amz-content-sha256"@[6] != "x-amz-security-token"@[6]);
        }
    }
}

/// Every generated URL is the fixed `https://<bucket>.s3.<region>.amazonaws.com/`
/// head, then the verbatim key prefix, then the object key.
pub proof fn lemma_url_shape(bucket: Seq<char>, region: Seq<char>, key_prefix: Seq<char>, key: Seq<char>)
    ensures
        ({
            let head = "https://"@ + spec_host(bucket, region) + "/"@;
            let u = spec_url(bucket, region, key_prefix, key);
            &&& u.len() == head.len() as int + key_prefix.len() as int + key.len()
            &&& u.take(head.len() as int) == head
            &&& u.subrange(head.len() as int, head.len() as int + key_prefix.len() as int) == key_prefix
            &&& u.skip(head.len() as int + key_prefix.len() as int) == key
        }),
{
    let head = "https://"@ + spec_host(bucket, region) + "/"@;
    let u = spec_url(bucket, region, key_prefix, key);
    assert(u.take(head.len() as int) =~= head);
    assert(u.subrange(head.len() as int, head.len() as int + key_prefix.len() as int) =~= key_prefix);
    assert(u.skip(head.len() as int + key_prefix.len() as int) =~= key);
}

/// `find_slash` finds the slash at `m` when no earlier position holds one.
proof fn lemma_find_slash_at(u: Seq<char>, i: int, m: int)
    requires
        0 <= i <= m < u.len(),
        forall|j: int| i <= j < m ==> u[j] != '/',
        u[m] == '/',
    ensures
        find_slash(u, i) == Some(m),
    decreases m - i,
{
    if i < m {
        lemma_find_slash_at(u, i + 1, m);
    }
}

/// For a generated URL whose bucket and region hold no `/`, the canonical
/// URI path that gets signed is exactly `/<key_prefix><key>`.
pub proof fn lemma_generated_url_path(
    bucket: Seq<char>,
    region: Seq<char>,
    key_prefix: Seq<char>,
    key: Seq<char>,
)
    requires
        forall|j: int| 0 <= j < bucket.len() ==> bucket[j] != '/',
        forall|j: int| 0 <= j < region.len() ==> region[j] != '/',
    ensures
        spec_url_path(spec_url(bucket, region, key_prefix, key)) == "/"@ + key_prefix + key,
{
    reveal_strlit("https://");
    reveal_strlit("/");
    reveal_strlit(".s3.");
    reveal_strlit(".amazonaws.com");
    let host = spec_host(bucket, region);
    let u = spec_url(bucket, region, key_prefix, key);
    assert forall|j: int| 0 <= j < host.len() implies host[j] != '/' by {
        if j < bucket.len() {
            assert(host[j] == bucket[j]);
        } else if j < bucket.len() + 4 {
            assert(host[j] == ".s3."@[j - bucket.len()]);
        } else if j < bucket.len() + 4 + region.len() {
            assert(host[j] == region[j - bucket.len() - 4]);
        } else {
            assert(host[j] == ".amazonaws.com"@[j - bucket.len() - 4 - region.len()]);
        }
    }
    assert forall|j: int| 8 <= j < 8 + host.len() as int implies u[j] != '/' by {
        assert(u[j] == host[j - 8]);
    }
    assert(u[8 + host.len() as int] == '/');
    lemma_find_slash_at(u, 8, 8 + host.len() as int);
    assert(u.skip(8 + host.len() as int) =~= "/"@ + key_prefix + key);
}

/// Signing is deterministic: the same configuration, timestamp, URL and
/// body always canonicalize to the same request and produce the same
/// header set, signature included.
pub proof fn lemma_signing_idempotent(
    s: SettingsView,
    url: Seq<char>,
    body: Seq<char>,
    t: UtcTime,
    h1: Seq<(Seq<char>, Seq<char>)>,
    h2: Seq<(Seq<char>, Seq<char>)>,
    c1: Seq<char>,
    c2: Seq<char>,
)
    requires
        h1 == spec_headers(s, url, body, t),
        h2 == spec_headers(s, url, body, t),
        c1 == spec_canonical_request(
            spec_url_path(url),
            spec_host(s.bucket, s.region),
            spec_payload_hash(body),
            t.spec_amz_date(),
            s.session_token,
        ),
        c2 == spec_canonical_request(
            spec_url_path(url),
            spec_host(s.bucket, s.region),
            spec_payload_hash(body),
            t.spec_amz_date(),
            s.session_token,
        ),
    ensures
        h1 == h2,
        c1 == c2,
{
}

/// The `authorization` header embeds, after its `Signature=` tail, exactly
/// the signature that recomputing the chain from the credential scope's
/// parts and the secret key yields.
pub proof fn lemma_signature_roundtrip(s: SettingsView, url: Seq<char>, body: Seq<char>, t: UtcTime)
    ensures
        ({
            let h = spec_headers(s, url, body, t);
            let auth = h[2].1;
            let cred_scope = spec_scope(t.spec_date_stamp(), s.region);
            let recomputed = spec_signature_of(
                spec_signing_key(s.secret_key, t.spec_date_stamp(), s.region),
                spec_string_to_sign(
                    t.spec_amz_date(),
                    cred_scope,
                    spec_canonical_request(
                        spec_url_path(url),
                        spec_host(s.bucket, s.region),
                        spec_payload_hash(body),
                        t.spec_amz_date(),
                        s.session_token,
                    ),
                ),
            );
            &&& auth == spec_authorization(s.access_key, cred_scope, recomputed, s.session_token)
            &&& auth.len() >= recomputed.len()
            &&& auth.skip(auth.len() - recomputed.len()) == recomputed
        }),
{
    let h = spec_headers(s, url, body, t);
    let auth = h[2].1;
    let cred_scope = spec_scope(t.spec_date_stamp(), s.region);
    let recomputed = spec_signature_of(
        spec_signing_key(s.secret_key, t.spec_date_stamp(), s.region),
        spec_string_to_sign(
            t.spec_amz_date(),
            cred_scope,
            spec_canonical_request(
                spec_url_path(url),
                spec_host(s.bucket, s.region),
                spec_payload_hash(body),
                t.spec_amz_date(),
                s.session_token,
            ),
        ),
    );
    assert(auth == spec_authorization(s.access_key, cred_scope, recomputed, s.session_token));
    assert(auth.skip(auth.len() - recomputed.len()) =~= recomputed);
}

} // verus!
