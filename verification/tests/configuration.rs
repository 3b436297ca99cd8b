use s3proxy::config::{AppConfig, ConfigError, ConfigParam, ConfigVars};

fn full_vars() -> ConfigVars {
    ConfigVars {
        s3_endpoint: Some("https://example.com/".to_string()),
        s3_region: Some("eu-west-1".to_string()),
        s3_access_key: Some("AKIDEXAMPLE".to_string()),
        s3_secret_key: Some("sk-value".to_string()),
        s3_bucket_name: Some("assets".to_string()),
        s3_path_style: None,
        server_host: None,
        server_port: None,
        log_level: None,
    }
}

#[test]
fn test_endpoint_trailing_separator_stripped() {
    let config = AppConfig::from_vars(full_vars(), false).unwrap();
    assert_eq!(config.s3_endpoint, "https://example.com");
}

#[test]
fn test_endpoint_many_trailing_separators_stripped() {
    let mut vars = full_vars();
    vars.s3_endpoint = Some("http://minio.local:9000///".to_string());
    let config = AppConfig::from_vars(vars, false).unwrap();
    assert_eq!(config.s3_endpoint, "http://minio.local:9000");
}

#[test]
fn test_endpoint_without_trailing_separator_unchanged() {
    let mut vars = full_vars();
    vars.s3_endpoint = Some("https://example.com".to_string());
    let config = AppConfig::from_vars(vars, false).unwrap();
    assert_eq!(config.s3_endpoint, "https://example.com");
}

#[test]
fn test_defaults_applied() {
    let config = AppConfig::from_vars(full_vars(), false).unwrap();
    assert_eq!(config.s3_region, "eu-west-1");
    assert!(config.s3_path_style);
    assert_eq!(config.server_host, "0.0.0.0");
    assert_eq!(config.server_port, 8089);
    assert_eq!(config.log_level, "info");
    assert!(!config.debug_enabled);
}

#[test]
fn test_region_defaults_to_placeholder() {
    let mut vars = full_vars();
    vars.s3_region = None;
    let config = AppConfig::from_vars(vars, false).unwrap();
    assert_eq!(config.s3_region, "us-east-1");
}

#[test]
fn test_missing_bucket_name_rejected() {
    let mut vars = full_vars();
    vars.s3_bucket_name = None;
    let err = AppConfig::from_vars(vars, false).unwrap_err();
    assert_eq!(err, ConfigError::MissingConfiguration(ConfigParam::BucketName));
    assert_eq!(err.message(), "S3_BUCKET_NAME environment variable is required");
}

#[test]
fn test_missing_endpoint_reported_first() {
    let mut vars = full_vars();
    vars.s3_endpoint = None;
    vars.s3_access_key = None;
    let err = AppConfig::from_vars(vars, false).unwrap_err();
    assert_eq!(err, ConfigError::MissingConfiguration(ConfigParam::Endpoint));
    assert_eq!(err.message(), "S3_ENDPOINT environment variable is required");
}

#[test]
fn test_missing_access_and_secret_keys_rejected() {
    let mut vars = full_vars();
    vars.s3_access_key = None;
    let err = AppConfig::from_vars(vars, false).unwrap_err();
    assert_eq!(err, ConfigError::MissingConfiguration(ConfigParam::AccessKey));

    let mut vars = full_vars();
    vars.s3_secret_key = None;
    let err = AppConfig::from_vars(vars, false).unwrap_err();
    assert_eq!(err, ConfigError::MissingConfiguration(ConfigParam::SecretKey));
}

#[test]
fn test_port_parsing() {
    let mut vars = full_vars();
    vars.server_port = Some("9000".to_string());
    assert_eq!(AppConfig::from_vars(vars, false).unwrap().server_port, 9000);

    let mut vars = full_vars();
    vars.server_port = Some("+80".to_string());
    assert_eq!(AppConfig::from_vars(vars, false).unwrap().server_port, 80);

    let mut vars = full_vars();
    vars.server_port = Some("65535".to_string());
    assert_eq!(AppConfig::from_vars(vars, false).unwrap().server_port, 65535);

    let mut vars = full_vars();
    vars.server_port = Some("0065535".to_string());
    assert_eq!(AppConfig::from_vars(vars, false).unwrap().server_port, 65535);
}

#[test]
fn test_invalid_port_rejected() {
    for bad in ["65536", "abc", "", "+", "80a", "-1", " 80"] {
        let mut vars = full_vars();
        vars.server_port = Some(bad.to_string());
        let err = AppConfig::from_vars(vars, false).unwrap_err();
        assert_eq!(err, ConfigError::InvalidPort);
        assert_eq!(err.message(), "SERVER_PORT must be a valid port number");
    }
}

#[test]
fn test_path_style_flag() {
    let mut vars = full_vars();
    vars.s3_path_style = Some("false".to_string());
    assert!(!AppConfig::from_vars(vars, false).unwrap().s3_path_style);

    let mut vars = full_vars();
    vars.s3_path_style = Some("true".to_string());
    assert!(AppConfig::from_vars(vars, false).unwrap().s3_path_style);

    let mut vars = full_vars();
    vars.s3_path_style = Some("not-a-bool".to_string());
    assert!(AppConfig::from_vars(vars, false).unwrap().s3_path_style);
}

#[test]
fn test_debug_enabled_from_log_level() {
    let mut vars = full_vars();
    vars.log_level = Some("DEBUG".to_string());
    assert!(AppConfig::from_vars(vars, false).unwrap().debug_enabled);

    let mut vars = full_vars();
    vars.log_level = Some("warn,mycrate=debug".to_string());
    assert!(AppConfig::from_vars(vars, false).unwrap().debug_enabled);

    let mut vars = full_vars();
    vars.log_level = Some("info".to_string());
    assert!(!AppConfig::from_vars(vars, false).unwrap().debug_enabled);

    let config = AppConfig::from_vars(full_vars(), true).unwrap();
    assert!(config.debug_enabled);
}

#[test]
fn test_access_key_preview_is_short_prefix() {
    let config = AppConfig::from_vars(full_vars(), false).unwrap();
    assert_eq!(config.access_key_preview(), "AKID");

    let mut vars = full_vars();
    vars.s3_access_key = Some("AB".to_string());
    let config = AppConfig::from_vars(vars, false).unwrap();
    assert_eq!(config.access_key_preview(), "AB");
}
