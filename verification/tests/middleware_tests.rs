use speicherwald::middleware::auth::authorize;
use speicherwald::middleware::csrf::{csrf_check, validate_csrf_token, CSRF_EXPECTED_VALUE, CSRF_HEADER};
use speicherwald::middleware::ip::{extract_ip_from_headers, forwarded_for_candidate};
use speicherwald::middleware::rate_limit::{ClientIp, EndpointRateLimiter, RateLimiter};
use speicherwald::middleware::security_headers::response_header_plan;
use speicherwald::middleware::validation::{
    check_request, contains_path_traversal, is_suspicious_user_agent, max_body_size,
    sanitize_for_logging, validate_file_path, validate_file_path_windows, validate_scan_options,
    validate_uuid,
};
use speicherwald::config::SecurityConfig;

const SEC: u128 = 1_000_000_000;

#[test]
fn test_path_traversal_detection() {
    assert!(contains_path_traversal("../etc/passwd"));
    assert!(contains_path_traversal("./../../etc/passwd"));
    assert!(contains_path_traversal("/path/../etc"));
    assert!(contains_path_traversal("%2e%2e/etc"));
    assert!(contains_path_traversal("path\0with\0null"));

    assert!(!contains_path_traversal("/normal/path"));
    assert!(!contains_path_traversal("C:\\Users\\test"));
}

#[test]
fn test_suspicious_user_agents() {
    assert!(is_suspicious_user_agent("nikto/2.1.5"));
    assert!(is_suspicious_user_agent("sqlmap/1.0"));
    assert!(is_suspicious_user_agent("random scanner bot"));

    assert!(!is_suspicious_user_agent("Mozilla/5.0 (Windows NT 10.0; Win64; x64)"));
    assert!(!is_suspicious_user_agent("Googlebot/2.1"));
}

#[test]
fn test_uuid_validation() {
    assert!(validate_uuid("550e8400-e29b-41d4-a716-446655440000").is_ok());
    assert!(validate_uuid("not-a-uuid").is_err());
    assert!(validate_uuid("550e8400-e29b-41d4-a716").is_err());
}

#[test]
fn test_file_path_validation() {
    assert!(validate_file_path("/normal/path").is_ok());
    assert!(validate_file_path("C:\\Users\\test").is_ok());

    assert!(validate_file_path("../etc/passwd").is_err());
    assert!(validate_file_path("path\0with\0null").is_err());

    let long_path = "a".repeat(5000);
    assert!(validate_file_path(&long_path).is_err());
}

#[test]
fn test_scan_options_validation() {
    assert!(validate_scan_options(Some(10), Some(5)).is_ok());
    assert!(validate_scan_options(None, None).is_ok());

    assert!(validate_scan_options(Some(101), Some(5)).is_err());
    assert!(validate_scan_options(Some(10), Some(257)).is_err());
    assert!(validate_scan_options(Some(10), Some(0)).is_err());
    assert!(validate_scan_options(Some(10), Some(256)).is_ok());
}

#[test]
fn test_sanitize_for_logging() {
    assert_eq!(sanitize_for_logging("normal text"), "normal text");
    assert_eq!(sanitize_for_logging("text\nwith\nnewlines"), "text\nwith\nnewlines");

    let with_control = "text\x00with\x01control\x02chars";
    let sanitized = sanitize_for_logging(with_control);
    assert!(!sanitized.contains('\x00'));
    assert!(!sanitized.contains('\x01'));
    assert!(!sanitized.contains('\x02'));

    let long_text = "a".repeat(300);
    assert_eq!(sanitize_for_logging(&long_text).len(), 200);
}

#[test]
fn test_csrf_validation() {
    assert!(!validate_csrf_token(None));
    assert!(validate_csrf_token(Some(CSRF_EXPECTED_VALUE)));
    assert!(!validate_csrf_token(Some("wrong-value")));
}

#[test]
fn test_rate_limiter() {
    let mut limiter = RateLimiter::new(3, 1);
    let ip = ClientIp::V4(0x7f00_0001);

    assert!(limiter.check_rate_limit_at(ip, 0).is_ok());
    assert!(limiter.check_rate_limit_at(ip, 0).is_ok());
    assert!(limiter.check_rate_limit_at(ip, 0).is_ok());

    assert!(limiter.check_rate_limit_at(ip, 0).is_err());

    // Two seconds later the window has passed.
    assert!(limiter.check_rate_limit_at(ip, 2 * SEC).is_ok());
}

#[test]
fn test_different_ips() {
    let mut limiter = RateLimiter::new(1, 1);
    let ip1 = ClientIp::V4(0x7f00_0001);
    let ip2 = ClientIp::V4(0x7f00_0002);

    assert!(limiter.check_rate_limit_at(ip1, 0).is_ok());
    assert!(limiter.check_rate_limit_at(ip2, 0).is_ok());

    assert!(limiter.check_rate_limit_at(ip1, 0).is_err());
    assert!(limiter.check_rate_limit_at(ip2, 0).is_err());
}

#[test]
fn rate_limit_retry_after_counts_down() {
    let mut limiter = RateLimiter::new(1, 60);
    let ip = ClientIp::V6(1);
    assert!(limiter.check_rate_limit_at(ip, 10 * SEC).is_ok());
    let refused = limiter.check_rate_limit_at(ip, 25 * SEC).unwrap_err();
    assert_eq!(refused.retry_after_seconds, 45);
    // A refusal persists at the same instant.
    assert!(limiter.check_rate_limit_at(ip, 25 * SEC).is_err());
    // Cleaning up does not change the next decision.
    limiter.cleanup_old_entries_at(25 * SEC);
    assert!(limiter.check_rate_limit_at(ip, 25 * SEC).is_err());
    assert!(limiter.check_rate_limit_at(ip, 70 * SEC).is_ok());
}

#[test]
fn endpoint_limits_apply_per_endpoint() {
    let mut limits = EndpointRateLimiter::new().with_limits(vec![("/scans", 2, 60), ("/paths/move", 1, 60)]);
    let ip = ClientIp::V4(1);
    assert!(limits.check_endpoint_limit_at("/paths/move", ip, 0).is_ok());
    assert!(limits.check_endpoint_limit_at("/paths/move", ip, 0).is_err());
    assert!(limits.check_endpoint_limit_at("/scans", ip, 0).is_ok());
    assert!(limits.check_endpoint_limit_at("/scans", ip, 0).is_ok());
    assert!(limits.check_endpoint_limit_at("/scans", ip, 0).is_err());
    // Endpoints without a configured limit are not limited.
    for _ in 0..10 {
        assert!(limits.check_endpoint_limit_at("/drives", ip, 0).is_ok());
    }
    // A later entry for the same endpoint wins.
    let mut later = EndpointRateLimiter::new().with_limits(vec![("/scans", 1, 60), ("/scans", 3, 60)]);
    assert!(later.check_endpoint_limit_at("/scans", ip, 0).is_ok());
    assert!(later.check_endpoint_limit_at("/scans", ip, 0).is_ok());
    assert!(later.check_endpoint_limit_at("/scans", ip, 0).is_ok());
    assert!(later.check_endpoint_limit_at("/scans", ip, 0).is_err());
}

#[test]
fn csrf_applies_to_state_changing_methods_only() {
    assert_eq!(CSRF_HEADER, "X-CSRF-Token");
    assert!(csrf_check("GET", None).is_ok());
    let refused = csrf_check("POST", None).unwrap_err();
    assert_eq!(refused.status, 403);
    assert_eq!(refused.code, "CSRF_TOKEN_MISSING");
    assert!(csrf_check("DELETE", Some("speicherwald-api-request")).is_ok());
    assert!(csrf_check("PATCH", Some("nope")).is_err());
}

#[test]
fn bearer_tokens_must_match_exactly() {
    assert!(authorize(None, None));
    assert!(authorize(Some("secret"), Some("Bearer secret")));
    assert!(!authorize(Some("secret"), Some("Bearer secreT")));
    assert!(!authorize(Some("secret"), Some("Bearer secret2")));
    assert!(!authorize(Some("secret"), Some("Basic secret")));
    assert!(!authorize(Some("secret"), None));
    assert!(authorize(Some(""), None));
    assert!(authorize(Some(""), Some("Basic x")));
}

#[test]
fn client_address_prefers_forwarded_header() {
    assert_eq!(forwarded_for_candidate(" 10.0.0.1 , 10.0.0.2"), "10.0.0.1");
    assert_eq!(forwarded_for_candidate("10.0.0.9"), "10.0.0.9");
    let a = ClientIp::V4(1);
    let b = ClientIp::V4(2);
    let c = ClientIp::V4(3);
    assert_eq!(extract_ip_from_headers(Some(a), Some(b), Some(c)), a);
    assert_eq!(extract_ip_from_headers(None, Some(b), Some(c)), b);
    assert_eq!(extract_ip_from_headers(None, None, Some(c)), c);
    assert_eq!(extract_ip_from_headers(None, None, None), ClientIp::V4(0x7f00_0001));
}

#[test]
fn windows_paths_reject_reserved_characters() {
    assert!(validate_file_path_windows("C:\\file<name>.txt").is_err());
    assert!(validate_file_path_windows("\\\\?\\C:\\file<name>.txt").is_ok());
    assert!(validate_file_path_windows("C:\\a:b").is_err());
    assert!(validate_file_path_windows("C:\\Users\\test").is_ok());
}

#[test]
fn request_checks_refuse_traversal_and_large_bodies() {
    let max = max_body_size(None);
    assert_eq!(max, 10 * 1024 * 1024);
    assert_eq!(max_body_size(Some(1)), 1024 * 1024);
    assert_eq!(max_body_size(Some(usize::MAX)), 50 * 1024 * 1024);
    let r = check_request("/scans/../x", "GET", None, max).unwrap_err();
    assert_eq!(r.status, 400);
    assert_eq!(r.code, "INVALID_PATH");
    let r = check_request("/scans", "POST", Some(max + 1), max).unwrap_err();
    assert_eq!(r.status, 413);
    assert_eq!(r.message, format!("Request body exceeds maximum size of {} bytes", max));
    assert!(check_request("/scans", "GET", Some(max + 1), max).is_ok());
    assert!(check_request("/scans", "POST", Some(max), max).is_ok());
}

#[test]
fn security_headers_follow_content_type() {
    let plan = response_header_plan(None, Some("application/json; charset=utf-8"));
    assert!(plan.set.contains(&("x-frame-options".to_string(), "SAMEORIGIN".to_string())));
    assert!(plan.set.contains(&("cache-control".to_string(), "no-store".to_string())));
    assert!(!plan.remove_pragma);
    let plan = response_header_plan(None, Some("text/event-stream"));
    assert!(plan.set.contains(&("x-accel-buffering".to_string(), "no".to_string())));
    let plan = response_header_plan(None, Some("application/wasm"));
    assert!(plan.set.contains(&(
        "cache-control".to_string(),
        "public, max-age=31536000, immutable".to_string()
    )));
    assert!(plan.remove_pragma);
    let sec = SecurityConfig {
        enable_hsts: Some(true),
        hsts_max_age: None,
        hsts_include_subdomains: Some(true),
        csp: Some("   ".to_string()),
    };
    let plan = response_header_plan(Some(&sec), None);
    assert!(plan.set.contains(&(
        "strict-transport-security".to_string(),
        "max-age=31536000; includeSubDomains".to_string()
    )));
    assert!(!plan.set.iter().any(|(n, _)| n == "content-security-policy"));
    assert_eq!(plan.set.len(), 7);
}
