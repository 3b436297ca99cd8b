use s3proxy::client::ClientError;
use s3proxy::config::{AppConfig, ConfigVars};
use s3proxy::content_type::Headers;
use s3proxy::handler::{respond, FetchOutcome, GatewayResponse};

fn vars() -> ConfigVars {
    ConfigVars {
        s3_endpoint: Some("https://example.com/".to_string()),
        s3_region: Some("us-east-1".to_string()),
        s3_access_key: Some("AKIDEXAMPLE".to_string()),
        s3_secret_key: Some("sk-value".to_string()),
        s3_bucket_name: Some("assets".to_string()),
        s3_path_style: None,
        server_host: None,
        server_port: None,
        log_level: None,
    }
}

#[test]
fn test_fetched_png_served_with_image_content_type() {
    let stored = vec![0x89u8, 0x50, 0x4e, 0x47, 0x0d, 0x0a];
    let outcome = FetchOutcome::Fetched {
        bytes: stored.clone(),
        status_code: 200,
        headers: Headers::new(),
    };
    let r: GatewayResponse = respond("images/logo.png", outcome);
    assert_eq!(r.status, 200);
    assert_eq!(r.content_type, "image/png");
    assert_eq!(r.body, stored);
}

#[test]
fn test_backend_header_wins_over_extension() {
    let mut headers = Headers::new();
    headers.insert("Content-Type".to_string(), "application/x-custom-pdf".to_string());
    let outcome = FetchOutcome::Fetched {
        bytes: vec![1u8, 2, 3],
        status_code: 200,
        headers,
    };
    let r = respond("reports/q1.pdf", outcome);
    assert_eq!(r.status, 200);
    assert_eq!(r.content_type, "application/x-custom-pdf");
    assert_eq!(r.body, vec![1u8, 2, 3]);
}

#[test]
fn test_any_fetch_failure_becomes_uniform_not_found() {
    let outcome = FetchOutcome::Failed {
        detail: "object missing/file.txt not found".to_string(),
    };
    let r = respond("missing/file.txt", outcome);
    assert_eq!(r.status, 404);
    assert_eq!(r.body, b"File not found".to_vec());

    let outcome = FetchOutcome::Failed {
        detail: "connection timed out".to_string(),
    };
    let r = respond("missing/file.txt", outcome);
    assert_eq!(r.status, 404);
    assert_eq!(r.body, b"File not found".to_vec());
}

#[test]
fn test_fetched_object_without_extension_served_as_binary() {
    let outcome = FetchOutcome::Fetched {
        bytes: vec![7u8, 8, 9],
        status_code: 200,
        headers: Headers::new(),
    };
    let r = respond("archive", outcome);
    assert_eq!(r.status, 200);
    assert_eq!(r.content_type, "application/octet-stream");
    assert_eq!(r.body, vec![7u8, 8, 9]);
}

#[test]
fn test_empty_path_is_a_valid_key() {
    let outcome = FetchOutcome::Fetched {
        bytes: vec![],
        status_code: 200,
        headers: Headers::new(),
    };
    let r = respond("", outcome);
    assert_eq!(r.status, 200);
    assert_eq!(r.content_type, "application/octet-stream");
    assert!(r.body.is_empty());
}

#[test]
fn test_client_construction_succeeds_without_network() {
    let config = AppConfig::from_vars(vars(), false).unwrap();
    let bucket = config.create_s3_bucket().expect("in-memory handle");
    assert_eq!(bucket.name(), "assets");
    assert!(bucket.is_path_style());
    // The trailing separator of the configured endpoint never reaches the
    // client: requests compose against the bare host.
    assert_eq!(config.s3_endpoint, "https://example.com");
    assert_eq!(bucket.host(), "example.com");
}

#[test]
fn test_client_construction_respects_addressing_style() {
    let mut v = vars();
    v.s3_path_style = Some("false".to_string());
    let config = AppConfig::from_vars(v, false).unwrap();
    let bucket = config.create_s3_bucket().expect("in-memory handle");
    assert!(!bucket.is_path_style());
}

#[test]
fn test_client_error_message_carries_detail() {
    let err = ClientError::Bucket("client setup failed".to_string());
    assert_eq!(err.message(), "client setup failed");
    let err = ClientError::Credentials("bad keys".to_string());
    assert_eq!(err.message(), "bad keys");
}
