use s3_signer::s3_payload::{ConfigError, Settings};
use s3_signer::{send_to_s3, HttpMethod};

fn valid_settings() -> Vec<(String, String)> {
    vec![
        ("aws_access_key".to_string(), "TEST".to_string()),
        ("aws_secret_key".to_string(), "TEST".to_string()),
        ("aws_region".to_string(), "eu-west-1".to_string()),
        ("s3_bucket".to_string(), "test-bucket".to_string()),
    ]
}

fn has_header(headers: &[(String, String)], name: &str) -> bool {
    headers.iter().any(|(key, _value)| key == name)
}

fn check_signed_request(body: &str) {
    let result = send_to_s3(valid_settings(), body.to_string());
    assert!(result.is_ok());
    let request = result.unwrap();
    assert_eq!(request.method, HttpMethod::Put);
    assert!(!request.body.is_empty());
    assert_eq!(request.body, body);
    assert!(!request.forward_client_headers);
    assert!(request
        .url
        .starts_with("https://test-bucket.s3.eu-west-1.amazonaws.com/"));
    assert!(request.url.ends_with(".json"));
    assert_eq!(request.headers.len(), 4);
    assert!(has_header(&request.headers, "authorization"));
    assert!(has_header(&request.headers, "x-amz-content-sha256"));
    assert!(has_header(&request.headers, "x-amz-date"));
    assert!(has_header(&request.headers, "host"));
    assert!(!has_header(&request.headers, "x-amz-security-token"));
}

#[test]
fn page_works_fine() {
    check_signed_request("{\"event\":\"page\",\"id\":\"abc\"}");
}

#[test]
fn track_works_fine() {
    check_signed_request("{\"event\":\"track\",\"name\":\"custom-event\",\"id\":\"abc\"}");
}

#[test]
fn user_works_fine() {
    check_signed_request("{\"event\":\"user\",\"id\":\"abc\"}");
}

#[test]
fn page_with_session_token() {
    let mut settings = valid_settings();
    settings.push(("aws_session_token".to_string(), "TEST".to_string()));
    let result = send_to_s3(settings, "{\"id\":\"abc\"}".to_string());
    assert!(result.is_ok());
    let request = result.unwrap();
    assert_eq!(request.method, HttpMethod::Put);
    assert!(!request.body.is_empty());
    assert!(request
        .url
        .starts_with("https://test-bucket.s3.eu-west-1.amazonaws.com/"));
    assert_eq!(request.headers.len(), 5);
    assert!(has_header(&request.headers, "authorization"));
    assert!(has_header(&request.headers, "x-amz-content-sha256"));
    assert!(has_header(&request.headers, "x-amz-date"));
    assert!(has_header(&request.headers, "host"));
    assert!(has_header(&request.headers, "x-amz-security-token"));
    let token = request
        .headers
        .iter()
        .find(|(key, _value)| key == "x-amz-security-token")
        .unwrap();
    assert_eq!(token.1, "TEST");
    // The token is signed: the authorization header's SignedHeaders list
    // names it as the fourth signed header.
    let auth = request
        .headers
        .iter()
        .find(|(key, _value)| key == "authorization")
        .unwrap();
    assert!(auth
        .1
        .contains("SignedHeaders=host;x-amz-content-sha256;x-amz-date;x-amz-security-token, "));
}

#[test]
fn page_with_s3_key_prefix() {
    let mut settings = valid_settings();
    settings.push(("s3_key_prefix".to_string(), "sub-folder/".to_string()));
    let result = send_to_s3(settings, "{\"id\":\"abc\"}".to_string());
    assert!(result.is_ok());
    let request = result.unwrap();
    assert_eq!(request.method, HttpMethod::Put);
    assert!(!request.body.is_empty());
    assert!(request
        .url
        .starts_with("https://test-bucket.s3.eu-west-1.amazonaws.com/sub-folder/"));
    assert!(request.url.contains("sub-folder/"));
}

#[test]
fn breaks_without_settings() {
    let body = "{\"id\":\"abc\"}".to_string();

    let without_access = vec![
        ("aws_secret_key".to_string(), "TEST".to_string()),
        ("aws_region".to_string(), "eu-west-1".to_string()),
        ("s3_bucket".to_string(), "test-bucket".to_string()),
    ];
    let result = send_to_s3(without_access, body.clone());
    assert!(result.is_err());
    assert!(result.err().unwrap().contains("Missing AWS Access Key"));

    let without_secret = vec![
        ("aws_access_key".to_string(), "TEST".to_string()),
        ("aws_region".to_string(), "eu-west-1".to_string()),
        ("s3_bucket".to_string(), "test-bucket".to_string()),
    ];
    let result = send_to_s3(without_secret, body.clone());
    assert!(result.is_err());
    assert!(result.err().unwrap().contains("Missing AWS Secret Key"));

    let without_region = vec![
        ("aws_access_key".to_string(), "TEST".to_string()),
        ("aws_secret_key".to_string(), "TEST".to_string()),
        ("s3_bucket".to_string(), "test-bucket".to_string()),
    ];
    let result = send_to_s3(without_region, body.clone());
    assert!(result.is_err());
    assert!(result.err().unwrap().contains("Missing AWS region"));

    let without_bucket = vec![
        ("aws_access_key".to_string(), "TEST".to_string()),
        ("aws_secret_key".to_string(), "TEST".to_string()),
        ("aws_region".to_string(), "eu-west-1".to_string()),
    ];
    let result = send_to_s3(without_bucket, body.clone());
    assert!(result.is_err());
    assert!(result.err().unwrap().contains("Missing S3 bucket"));
}

#[test]
fn missing_field_priority_order() {
    let result = send_to_s3(Vec::new(), String::new());
    assert_eq!(result.err().unwrap(), "Missing AWS Access Key");

    let only_access = vec![("aws_access_key".to_string(), "TEST".to_string())];
    let result = send_to_s3(only_access, String::new());
    assert_eq!(result.err().unwrap(), "Missing AWS Secret Key");

    let access_and_secret = vec![
        ("aws_access_key".to_string(), "TEST".to_string()),
        ("aws_secret_key".to_string(), "TEST".to_string()),
    ];
    let result = send_to_s3(access_and_secret, String::new());
    assert_eq!(result.err().unwrap(), "Missing AWS region");
}

#[test]
fn config_error_messages() {
    assert_eq!(
        ConfigError::MissingAccessKey.message(),
        "Missing AWS Access Key"
    );
    assert_eq!(
        ConfigError::MissingSecretKey.message(),
        "Missing AWS Secret Key"
    );
    assert_eq!(ConfigError::MissingRegion.message(), "Missing AWS region");
    assert_eq!(ConfigError::MissingBucket.message(), "Missing S3 bucket");
}

#[test]
fn settings_resolution_last_duplicate_wins() {
    let mut settings = valid_settings();
    settings.push(("aws_region".to_string(), "us-east-2".to_string()));
    let resolved = Settings::new(settings).unwrap();
    assert_eq!(resolved.access_key, "TEST");
    assert_eq!(resolved.secret_key, "TEST");
    assert_eq!(resolved.region, "us-east-2");
    assert_eq!(resolved.bucket, "test-bucket");
    assert_eq!(resolved.session_token, "");
    assert_eq!(resolved.key_prefix, "");
}

#[test]
fn empty_body_is_signed_not_rejected() {
    let result = send_to_s3(valid_settings(), String::new());
    assert!(result.is_ok());
    let request = result.unwrap();
    assert!(request.body.is_empty());
    assert_eq!(request.headers.len(), 4);
}
