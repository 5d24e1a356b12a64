//! Signing configuration, object-key and URL generation, and the signed
//! header set for an object-storage PUT request.

use vstd::prelude::*;

use crate::canonical::{canonical_request, spec_canonical_request, spec_url_path, url_path};
use crate::sigv4::{
    authorization_value, compute_signature, derive_signing_key, payload_hash, scope,
    spec_authorization, spec_payload_hash, spec_scope, spec_signature_of, spec_signing_key,
    spec_string_to_sign, string_to_sign,
};
use crate::timestamp::UtcTime;

verus! {

/// Per-request signing configuration. The four required fields are always
/// present after successful construction; `session_token` and `key_prefix`
/// are empty when absent. Field contents are not validated, and the key
/// prefix enters the object URL and the signed canonical path verbatim:
/// a prefix is exact for URI-unreserved characters and `/` separators,
/// since no percent-encoding is applied anywhere.
pub struct Settings {
    pub access_key: String,
    pub secret_key: String,
    pub session_token: String,
    pub region: String,
    pub bucket: String,
    pub key_prefix: String,
}

/// The mathematical model of a `Settings` value: its six fields as
/// character sequences.
pub struct SettingsView {
    pub access_key: Seq<char>,
    pub secret_key: Seq<char>,
    pub session_token: Seq<char>,
    pub region: Seq<char>,
    pub bucket: Seq<char>,
    pub key_prefix: Seq<char>,
}

impl View for Settings {
    type V = SettingsView;

    open spec fn view(&self) -> SettingsView {
        SettingsView {
            access_key: self.access_key@,
            secret_key: self.secret_key@,
            session_token: self.session_token@,
            region: self.region@,
            bucket: self.bucket@,
            key_prefix: self.key_prefix@,
        }
    }
}

/// A required configuration field is absent.
#[derive(Clone, Copy, Debug, PartialEq, Eq, Structural)]
pub enum ConfigError {
    MissingAccessKey,
    MissingSecretKey,
    MissingRegion,
    MissingBucket,
}

impl ConfigError {
    /// The error string naming the missing field.
    pub open spec fn spec_message(self) -> Seq<char> {
        match self {
            ConfigError::MissingAccessKey => "Missing AWS Access Key"@,
            ConfigError::MissingSecretKey => "Missing AWS Secret Key"@,
            ConfigError::MissingRegion => "Missing AWS region"@,
            ConfigError::MissingBucket => "Missing S3 bucket"@,
        }
    }

    /// Renders the error string naming the missing field.
    pub fn message(&self) -> (r: String)
        ensures
            r@ == self.spec_message(),
    {
        match self {
            ConfigError::MissingAccessKey => "Missing AWS Access Key".to_owned(),
            ConfigError::MissingSecretKey => "Missing AWS Secret Key".to_owned(),
            ConfigError::MissingRegion => "Missing AWS region".to_owned(),
            ConfigError::MissingBucket => "Missing S3 bucket".to_owned(),
        }
    }
}

/// The value under `key` in an unordered key-value list. The last
/// occurrence wins, as when the list is collected into a map.
pub open spec fn dict_get(d: Seq<(Seq<char>, Seq<char>)>, key: Seq<char>) -> Option<Seq<char>>
    decreases d.len(),
{
    if d.len() == 0 {
        None
    } else if d.last().0 == key {
        Some(d.last().1)
    } else {
        dict_get(d.drop_last(), key)
    }
}

/// The value under `key`, or the empty sequence when absent.
pub open spec fn dict_get_or_empty(d: Seq<(Seq<char>, Seq<char>)>, key: Seq<char>) -> Seq<char> {
    match dict_get(d, key) {
        Some(v) => v,
        None => Seq::empty(),
    }
}

/// The first missing required field, in the fixed checking order: access
/// key, secret key, region, bucket.
pub open spec fn spec_missing(d: Seq<(Seq<char>, Seq<char>)>) -> Option<ConfigError> {
    if dict_get(d, "aws_access_key"@) is None {
        Some(ConfigError::MissingAccessKey)
    } else if dict_get(d, "aws_secret_key"@) is None {
        Some(ConfigError::MissingSecretKey)
    } else if dict_get(d, "aws_region"@) is None {
        Some(ConfigError::MissingRegion)
    } else if dict_get(d, "s3_bucket"@) is None {
        Some(ConfigError::MissingBucket)
    } else {
        None
    }
}

/// The configuration a key-value list resolves to once every required
/// field is present.
pub open spec fn spec_resolved(d: Seq<(Seq<char>, Seq<char>)>) -> SettingsView {
    SettingsView {
        access_key: dict_get_or_empty(d, "aws_access_key"@),
        secret_key: dict_get_or_empty(d, "aws_secret_key"@),
        session_token: dict_get_or_empty(d, "aws_session_token"@),
        region: dict_get_or_empty(d, "aws_region"@),
        bucket: dict_get_or_empty(d, "s3_bucket"@),
        key_prefix: dict_get_or_empty(d, "s3_key_prefix"@),
    }
}

/// Looks `key` up in the key-value list; the last occurrence wins.
fn dict_lookup(dict: &Vec<(String, String)>, key: &String) -> (r: Option<String>)
    ensures
        match r {
            Some(v) => dict_get(dict.deep_view(), key@) == Some(v@),
            None => dict_get(dict.deep_view(), key@) is None,
        },
{
    let ghost d = dict.deep_view();
    let mut i: usize = dict.len();
    assert(d.take(i as int) =~= d);
    while i > 0
        invariant
            i <= dict.len(),
            d == dict.deep_view(),
            d.len() == dict.len(),
            dict_get(d, key@) == dict_get(d.take(i as int), key@),
        decreases i,
    {
        i = i - 1;
        let entry = &dict[i];
        proof {
            assert(d.take(i + 1).len() == i + 1);
            assert(d.take(i + 1).last() == d[i as int]);
            assert(d.take(i + 1).drop_last() =~= d.take(i as int));
            assert(d[i as int] == (entry.0@, entry.1@));
            if d.take(i + 1).last().0 == key@ {
                assert(dict_get(d.take(i + 1), key@) == Some(d.take(i + 1).last().1));
            } else {
                assert(dict_get(d.take(i + 1), key@) == dict_get(
                    d.take(i + 1).drop_last(),
                    key@,
                ));
            }
        }
        if entry.0 == *key {
            return Some(entry.1.clone());
        }
    }
    proof {
        assert(d.take(0) =~= Seq::<(Seq<char>, Seq<char>)>::empty());
    }
    None
}

impl Settings {
    /// Resolves the signing configuration from an unordered key-value list.
    /// Fails with the error naming the first missing required field, in the
    /// fixed order: access key, secret key, region, bucket. The optional
    /// session token and key prefix default to the empty string.
    pub fn new(settings_dict: Vec<(String, String)>) -> (r: Result<Self, ConfigError>)
        ensures
            ({
                let d = settings_dict.deep_view();
                match r {
                    Ok(s) => spec_missing(d) is None && s@ == spec_resolved(d),
                    Err(e) => spec_missing(d) == Some(e),
                }
            }),
    {
        let access_key = match dict_lookup(&settings_dict, &"aws_access_key".to_owned()) {
            Some(v) => v,
            None => {
                return Err(ConfigError::MissingAccessKey);
            },
        };
        let secret_key = match dict_lookup(&settings_dict, &"aws_secret_key".to_owned()) {
            Some(v) => v,
            None => {
                return Err(ConfigError::MissingSecretKey);
            },
        };
        let session_token = match dict_lookup(&settings_dict, &"aws_session_token".to_owned()) {
            Some(v) => v,
            None => String::new(),
        };
        let region = match dict_lookup(&settings_dict, &"aws_region".to_owned()) {
            Some(v) => v,
            None => {
                return Err(ConfigError::MissingRegion);
            },
        };
        let bucket = match dict_lookup(&settings_dict, &"s3_bucket".to_owned()) {
            Some(v) => v,
            None => {
                return Err(ConfigError::MissingBucket);
            },
        };
        let key_prefix = match dict_lookup(&settings_dict, &"s3_key_prefix".to_owned()) {
            Some(v) => v,
            None => String::new(),
        };
        Ok(Settings { access_key, secret_key, session_token, region, bucket, key_prefix })
    }

    /// Renders the object key for an instant and a unique identifier: the
    /// instant's stamp, the identifier, and the fixed `.json` suffix.
    pub fn object_key_at(t: &UtcTime, unique: &str) -> (r: String)
        requires
            t.wf(),
        ensures
            r@ == spec_object_key(*t, unique@),
    {
        let mut out = t.key_stamp();
        out.append("-");
        out.append(unique);
        out.append(".json");
        assert(out@ =~= spec_object_key(*t, unique@));
        out
    }

    /// Generates a fresh object key: the current UTC instant's stamp and a
    /// fresh 128-bit unique identifier, with the fixed `.json` suffix.
    pub fn generate_random_s3_key() -> (r: String)
        ensures
            exists|t: UtcTime, u: Seq<char>|
                t.wf() && u.len() == 36 && r@ == #[trigger] spec_object_key(t, u),
    {
        let t = UtcTime::now();
        let unique = fresh_uuid_string();
        Self::object_key_at(&t, unique.as_str())
    }

    /// Renders the full object URL for a given object key: the
    /// bucket-and-region host, the verbatim key prefix, then the key.
    pub fn url_for_key(&self, key: &str) -> (r: String)
        ensures
            r@ == spec_url(self.bucket@, self.region@, self.key_prefix@, key@),
    {
        let mut out = String::new();
        out.append("https://");
        let host = self.generate_s3_host();
        out.append(host.as_str());
        out.append("/");
        out.append(self.key_prefix.as_str());
        out.append(key);
        assert(out@ =~= spec_url(self.bucket@, self.region@, self.key_prefix@, key@));
        out
    }

    /// Generates the full object URL for a fresh object key.
    pub fn generate_s3_url(&self) -> (r: String)
        ensures
            exists|t: UtcTime, u: Seq<char>|
                t.wf() && u.len() == 36 && r@ == spec_url(
                    self.bucket@,
                    self.region@,
                    self.key_prefix@,
                    #[trigger] spec_object_key(t, u),
                ),
    {
        let key = Self::generate_random_s3_key();
        let r = self.url_for_key(key.as_str());
        proof {
            let (t, u): (UtcTime, Seq<char>) = choose|t: UtcTime, u: Seq<char>|
                t.wf() && u.len() == 36 && key@ == #[trigger] spec_object_key(t, u);
            assert(r@ == spec_url(
                self.bucket@,
                self.region@,
                self.key_prefix@,
                spec_object_key(t, u),
            ));
        }
        r
    }

    /// Renders the virtual-hosted bucket host name.
    pub fn generate_s3_host(&self) -> (r: String)
        ensures
            r@ == spec_host(self.bucket@, self.region@),
    {
        let mut out = String::new();
        out.append(self.bucket.as_str());
        out.append(".s3.");
        out.append(self.region.as_str());
        out.append(".amazonaws.com");
        assert(out@ =~= spec_host(self.bucket@, self.region@));
        out
    }

    /// Produces the signed header set for a PUT of `file_content` to
    /// `s3_url`, dated with the current UTC instant.
    pub fn generate_s3_headers(&self, s3_url: String, file_content: String) -> (r: Vec<
        (String, String),
    >)
        ensures
            exists|t: UtcTime|
                t.wf() && r.deep_view() == #[trigger] spec_headers(self@, s3_url@, file_content@, t),
    {
        let t = UtcTime::now();
        let r = self.generate_s3_headers_at(s3_url.as_str(), file_content.as_str(), &t);
        r
    }

    /// Produces the signed header set for a PUT of `file_content` to
    /// `s3_url`, dated with the given UTC instant: `x-amz-date`,
    /// `x-amz-content-sha256`, `authorization`, the session token when one
    /// is configured, and `host`.
    pub fn generate_s3_headers_at(&self, s3_url: &str, file_content: &str, t: &UtcTime) -> (r: Vec<
        (String, String),
    >)
        requires
            t.wf(),
        ensures
            r.deep_view() == spec_headers(self@, s3_url@, file_content@, *t),
    {
        let host = self.generate_s3_host();
        let path = url_path(s3_url);
        let content_hash = payload_hash(file_content);
        let amz_date = t.amz_date();
        let date_stamp = t.date_stamp();
        let cred_scope = scope(date_stamp.as_str(), self.region.as_str());
        let creq = canonical_request(
            path.as_str(),
            host.as_str(),
            content_hash.as_str(),
            amz_date.as_str(),
            self.session_token.as_str(),
        );
        let sts = string_to_sign(amz_date.as_str(), cred_scope.as_str(), creq.as_str());
        let signing_key = derive_signing_key(
            self.secret_key.as_str(),
            date_stamp.as_str(),
            self.region.as_str(),
        );
        let signature = compute_signature(signing_key.as_slice(), sts.as_str());
        let auth = authorization_value(
            self.access_key.as_str(),
            cred_scope.as_str(),
            signature.as_str(),
            self.session_token.as_str(),
        );
        let mut headers: Vec<(String, String)> = Vec::new();
        headers.push(("x-amz-date".to_owned(), amz_date));
        headers.push(("x-amz-content-sha256".to_owned(), content_hash));
        headers.push(("authorization".to_owned(), auth));
        if !self.session_token.as_str().is_empty() {
            headers.push(("x-amz-security-token".to_owned(), self.session_token.clone()));
        }
        headers.push(("host".to_owned(), host));
        assert(headers.deep_view() =~= spec_headers(self@, s3_url@, file_content@, *t));
        headers
    }
}

/// The host embedding bucket and region: `<bucket>.s3.<region>.amazonaws.com`.
pub open spec fn spec_host(bucket: Seq<char>, region: Seq<char>) -> Seq<char> {
    bucket + ".s3."@ + region + ".amazonaws.com"@
}

/// A generated object key: `<stamp>-<unique>.json`.
pub open spec fn spec_object_key(t: UtcTime, unique: Seq<char>) -> Seq<char> {
    t.spec_key_stamp() + "-"@ + unique + ".json"@
}

/// A generated object URL: `https://<host>/<prefix><key>`.
pub open spec fn spec_url(
    bucket: Seq<char>,
    region: Seq<char>,
    key_prefix: Seq<char>,
    key: Seq<char>,
) -> Seq<char> {
    "https://"@ + spec_host(bucket, region) + "/"@ + key_prefix + key
}

/// The signed header set for a PUT of `body` to `url` under configuration
/// `s` at instant `t`, in emission order.
pub open spec fn spec_headers(
    s: SettingsView,
    url: Seq<char>,
    body: Seq<char>,
    t: UtcTime,
) -> Seq<(Seq<char>, Seq<char>)> {
    let content_hash = spec_payload_hash(body);
    let amz_date = t.spec_amz_date();
    let cred_scope = spec_scope(t.spec_date_stamp(), s.region);
    let creq = spec_canonical_request(
        spec_url_path(url),
        spec_host(s.bucket, s.region),
        content_hash,
        amz_date,
        s.session_token,
    );
    let signature = spec_signature_of(
        spec_signing_key(s.secret_key, t.spec_date_stamp(), s.region),
        spec_string_to_sign(amz_date, cred_scope, creq),
    );
    let auth = spec_authorization(s.access_key, cred_scope, signature, s.session_token);
    seq![("x-amz-date"@, amz_date), ("x-amz-content-sha256"@, content_hash), ("authorization"@, auth)]
        + (if s.session_token.len() > 0 {
        seq![("x-amz-security-token"@, s.session_token)]
    } else {
        Seq::empty()
    }) + seq![("host"@, spec_host(s.bucket, s.region))]
}

/// Relies on uuid's `Uuid::new_v4` and its canonical hyphenated rendering:
/// 36 characters. Aborts, independently of any input, if the operating
/// system's randomness source fails.
#[verifier::external_body]
pub(crate) fn fresh_uuid_string() -> (r: String)
    ensures
        r@.len() == 36,
{
    uuid::Uuid::new_v4().to_string()
}

} // verus!
