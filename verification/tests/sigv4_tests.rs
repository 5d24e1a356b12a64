use s3_signer::canonical::{canonical_request, url_path};
use s3_signer::hex::hex_encode;
use s3_signer::s3_payload::Settings;
use s3_signer::sigv4::{
    authorization_value, compute_signature, derive_signing_key, payload_hash, scope,
    string_to_sign,
};
use s3_signer::timestamp::UtcTime;

fn fixed_time() -> UtcTime {
    UtcTime {
        year: 2024,
        month: 1,
        day: 2,
        hour: 3,
        minute: 4,
        second: 5,
    }
}

fn test_settings() -> Settings {
    Settings {
        access_key: "TEST".to_string(),
        secret_key: "TEST".to_string(),
        session_token: String::new(),
        region: "eu-west-1".to_string(),
        bucket: "test-bucket".to_string(),
        key_prefix: String::new(),
    }
}

#[test]
fn hex_encoding_exact() {
    assert_eq!(hex_encode(&[]), "");
    assert_eq!(hex_encode(&[0x00]), "00");
    assert_eq!(hex_encode(&[0x0f]), "0f");
    assert_eq!(hex_encode(&[0xde, 0xad, 0xbe, 0xef]), "deadbeef");
    assert_eq!(hex_encode(&[0x12, 0x34, 0xab]), "1234ab");
}

#[test]
fn timestamp_formats_exact() {
    let t = fixed_time();
    assert_eq!(t.date_stamp(), "20240102");
    assert_eq!(t.amz_date(), "20240102T030405Z");
    assert_eq!(t.key_stamp(), "2024-01-02-03-04-05");
}

#[test]
fn payload_hash_known_vectors() {
    // SHA-256 of the empty input.
    assert_eq!(
        payload_hash(""),
        "e3b0c44298fc1c149afbf4c8996fb92427ae41e4649b934ca495991b7852b855"
    );
    // SHA-256 of "abc".
    assert_eq!(
        payload_hash("abc"),
        "ba7816bf8f01cfea414140de5dae2223b00361a396177a9cb410ff61f20015ad"
    );
}

#[test]
fn hmac_known_vector() {
    // HMAC-SHA256 with key "key" over a classic test message.
    assert_eq!(
        compute_signature(b"key", "The quick brown fox jumps over the lazy dog"),
        "f7bc83f430538424b13298e6aa6fb143ef4d59a14946175997479dbc2d1a3cd8"
    );
}

#[test]
fn url_path_extraction() {
    assert_eq!(
        url_path("https://test-bucket.s3.eu-west-1.amazonaws.com/a/b.json"),
        "/a/b.json"
    );
    assert_eq!(url_path("https://host.example.com"), "/");
    assert_eq!(url_path("https://host.example.com/"), "/");
}

#[test]
fn canonical_request_exact() {
    let creq = canonical_request(
        "/file.json",
        "test-bucket.s3.eu-west-1.amazonaws.com",
        "aaaa",
        "20240102T030405Z",
        "",
    );
    let expected = "PUT\n\
                    /file.json\n\
                    \n\
                    host:test-bucket.s3.eu-west-1.amazonaws.com\n\
                    x-amz-content-sha256:aaaa\n\
                    x-amz-date:20240102T030405Z\n\
                    \n\
                    host;x-amz-content-sha256;x-amz-date\n\
                    aaaa";
    assert_eq!(creq, expected);
}

#[test]
fn canonical_request_signs_session_token() {
    let creq = canonical_request(
        "/file.json",
        "test-bucket.s3.eu-west-1.amazonaws.com",
        "aaaa",
        "20240102T030405Z",
        "TOKEN",
    );
    let expected = "PUT\n\
                    /file.json\n\
                    \n\
                    host:test-bucket.s3.eu-west-1.amazonaws.com\n\
                    x-amz-content-sha256:aaaa\n\
                    x-amz-date:20240102T030405Z\n\
                    x-amz-security-token:TOKEN\n\
                    \n\
                    host;x-amz-content-sha256;x-amz-date;x-amz-security-token\n\
                    aaaa";
    assert_eq!(creq, expected);
}

#[test]
fn scope_and_authorization_exact() {
    let cred_scope = scope("20240102", "eu-west-1");
    assert_eq!(cred_scope, "20240102/eu-west-1/s3/aws4_request");
    let auth = authorization_value("TEST", &cred_scope, "ff00", "");
    assert_eq!(
        auth,
        "AWS4-HMAC-SHA256 Credential=TEST/20240102/eu-west-1/s3/aws4_request, \
         SignedHeaders=host;x-amz-content-sha256;x-amz-date, Signature=ff00"
    );
    let auth_with_token = authorization_value("TEST", &cred_scope, "ff00", "TOKEN");
    assert_eq!(
        auth_with_token,
        "AWS4-HMAC-SHA256 Credential=TEST/20240102/eu-west-1/s3/aws4_request, \
         SignedHeaders=host;x-amz-content-sha256;x-amz-date;x-amz-security-token, \
         Signature=ff00"
    );
}

#[test]
fn object_key_and_url_shape() {
    let t = fixed_time();
    let key = Settings::object_key_at(&t, "0123456789abcdef0123456789abcdef0123");
    assert_eq!(
        key,
        "2024-01-02-03-04-05-0123456789abcdef0123456789abcdef0123.json"
    );
    let settings = test_settings();
    let url = settings.url_for_key(&key);
    assert_eq!(
        url,
        "https://test-bucket.s3.eu-west-1.amazonaws.com/2024-01-02-03-04-05-0123456789abcdef0123456789abcdef0123.json"
    );
}

#[test]
fn generated_key_is_fresh_and_well_formed() {
    let first = Settings::generate_random_s3_key();
    let second = Settings::generate_random_s3_key();
    assert!(first.ends_with(".json"));
    // stamp (19) + "-" + identifier (36) + ".json" (5)
    assert_eq!(first.len(), 61);
    assert_ne!(first, second);
}

#[test]
fn generated_url_carries_prefix() {
    let mut settings = test_settings();
    settings.key_prefix = "sub-folder/".to_string();
    let url = settings.generate_s3_url();
    assert!(url.starts_with("https://test-bucket.s3.eu-west-1.amazonaws.com/sub-folder/"));
    assert!(url.ends_with(".json"));
}

#[test]
fn signing_is_deterministic() {
    let t = fixed_time();
    let settings = test_settings();
    let url = "https://test-bucket.s3.eu-west-1.amazonaws.com/file.json";
    let body = "{\"id\":\"abc\"}";
    let first = settings.generate_s3_headers_at(url, body, &t);
    let second = settings.generate_s3_headers_at(url, body, &t);
    assert_eq!(first, second);
}

#[test]
fn header_values_match_recomputation() {
    // Recompute the signature independently from the scope parts embedded
    // in the authorization header and compare it with the emitted one.
    let t = fixed_time();
    let settings = test_settings();
    let url = "https://test-bucket.s3.eu-west-1.amazonaws.com/file.json";
    let body = "{\"id\":\"abc\"}";
    let headers = settings.generate_s3_headers_at(url, body, &t);

    let auth = &headers
        .iter()
        .find(|(key, _value)| key == "authorization")
        .unwrap()
        .1;
    assert!(auth.starts_with(
        "AWS4-HMAC-SHA256 Credential=TEST/20240102/eu-west-1/s3/aws4_request, \
         SignedHeaders=host;x-amz-content-sha256;x-amz-date, Signature="
    ));

    let content_hash = payload_hash(body);
    let amz_date = t.amz_date();
    let creq = canonical_request(
        "/file.json",
        "test-bucket.s3.eu-west-1.amazonaws.com",
        &content_hash,
        &amz_date,
        "",
    );
    let cred_scope = scope("20240102", "eu-west-1");
    let sts = string_to_sign(&amz_date, &cred_scope, &creq);
    let key = derive_signing_key("TEST", "20240102", "eu-west-1");
    let recomputed = compute_signature(&key, &sts);
    assert_eq!(recomputed.len(), 64);
    assert!(auth.ends_with(&recomputed));

    let date_header = &headers
        .iter()
        .find(|(key_name, _value)| key_name == "x-amz-date")
        .unwrap()
        .1;
    assert_eq!(date_header, &amz_date);
    let hash_header = &headers
        .iter()
        .find(|(key_name, _value)| key_name == "x-amz-content-sha256")
        .unwrap()
        .1;
    assert_eq!(hash_header, &content_hash);
    let host_header = &headers
        .iter()
        .find(|(key_name, _value)| key_name == "host")
        .unwrap()
        .1;
    assert_eq!(host_header, "test-bucket.s3.eu-west-1.amazonaws.com");
}
