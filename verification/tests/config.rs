use sidecar_control::config::{ConfigError, Settings};

fn s(text: &str) -> Option<String> {
    Some(text.to_string())
}

#[test]
fn defaults_with_no_environment() {
    let settings = Settings::from_parts(None, None, None, None, None).unwrap();
    assert_eq!(settings.host, "127.0.0.1");
    assert_eq!(settings.port, 1430);
    assert_eq!(settings.data_dir, ".");
    assert_eq!(settings.health_check_timeout_secs, 30);
    assert_eq!(settings.health_check_interval_ms, 200);
}

#[test]
fn explicit_values_override_defaults() {
    let settings = Settings::from_parts(
        s("0.0.0.0"),
        s("8080"),
        s("/var/lib/app"),
        s("5"),
        s("50"),
    )
    .unwrap();
    assert_eq!(settings.host, "0.0.0.0");
    assert_eq!(settings.port, 8080);
    assert_eq!(settings.data_dir, "/var/lib/app");
    assert_eq!(settings.health_check_timeout_secs, 5);
    assert_eq!(settings.health_check_interval_ms, 50);
}

#[test]
fn leading_plus_sign_is_accepted() {
    let settings = Settings::from_parts(None, s("+80"), None, None, None).unwrap();
    assert_eq!(settings.port, 80);
}

#[test]
fn non_numeric_port_is_fatal() {
    let r = Settings::from_parts(None, s("abc"), None, None, None);
    assert_eq!(r.unwrap_err(), ConfigError::InvalidPort);
}

#[test]
fn out_of_range_port_is_fatal() {
    let r = Settings::from_parts(None, s("65536"), None, None, None);
    assert_eq!(r.unwrap_err(), ConfigError::InvalidPort);
}

#[test]
fn empty_port_is_fatal() {
    let r = Settings::from_parts(None, s(""), None, None, None);
    assert_eq!(r.unwrap_err(), ConfigError::InvalidPort);
}

#[test]
fn non_numeric_timeout_is_fatal() {
    let r = Settings::from_parts(None, None, None, s("30s"), None);
    assert_eq!(r.unwrap_err(), ConfigError::InvalidTimeout);
}

#[test]
fn non_numeric_interval_is_fatal() {
    let r = Settings::from_parts(None, None, None, None, s("fast"));
    assert_eq!(r.unwrap_err(), ConfigError::InvalidInterval);
}

#[test]
fn first_bad_field_names_the_error() {
    let r = Settings::from_parts(None, s("bogus"), None, s("bogus"), None);
    assert_eq!(r.unwrap_err(), ConfigError::InvalidPort);
}

#[test]
fn backend_url_is_host_and_port() {
    let settings = Settings::from_parts(None, None, None, None, None).unwrap();
    assert_eq!(settings.backend_url(), "http://127.0.0.1:1430");
    let other = Settings::from_parts(s("localhost"), s("9000"), None, None, None).unwrap();
    assert_eq!(other.backend_url(), "http://localhost:9000");
}

#[test]
fn health_endpoint_extends_backend_url() {
    let settings = Settings::from_parts(None, None, None, None, None).unwrap();
    assert_eq!(settings.health_endpoint(), "http://127.0.0.1:1430/api/v1/health");
    let other = Settings::from_parts(s("localhost"), s("9000"), None, None, None).unwrap();
    assert_eq!(other.health_endpoint(), "http://localhost:9000/api/v1/health");
}

#[test]
fn timeout_and_interval_in_milliseconds() {
    let settings = Settings::from_parts(None, None, None, None, None).unwrap();
    assert_eq!(settings.health_check_timeout(), 30_000);
    assert_eq!(settings.health_check_interval(), 200);
}

#[test]
fn timeout_conversion_saturates() {
    let settings = Settings::from_parts(None, None, None, s(&u64::MAX.to_string()), None).unwrap();
    assert_eq!(settings.health_check_timeout(), u64::MAX);
}

#[test]
fn leading_zeros_are_plain_digits() {
    let settings = Settings::from_parts(None, s("01430"), None, None, None).unwrap();
    assert_eq!(settings.port, 1430);
}

#[test]
fn largest_u64_still_parses() {
    let settings =
        Settings::from_parts(None, None, None, s("18446744073709551615"), None).unwrap();
    assert_eq!(settings.health_check_timeout_secs, u64::MAX);
    let r = Settings::from_parts(None, None, None, s("18446744073709551616"), None);
    assert_eq!(r.unwrap_err(), ConfigError::InvalidTimeout);
}

#[test]
fn huge_numeric_values_overflow_to_errors() {
    let r = Settings::from_parts(None, None, None, s("99999999999999999999999"), None);
    assert_eq!(r.unwrap_err(), ConfigError::InvalidTimeout);
}
