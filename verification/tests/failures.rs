use gopher::github::details::legacy_checks;
use gopher::github::exchange::{report, Quota, ResponsePolicy};
use gopher::github::failure::classify_failure;
use gopher::json::Json;

fn json(text: &str) -> Json {
    gopher::json::parse(text.as_bytes()).unwrap()
}

#[test]
fn distinguishes_server_network_and_authentication_failures() {
    for (stderr, expected, status) in [
        ("gh: Bad Gateway (HTTP 502)", "github_server", Some(502)),
        ("gh: Bad credentials (HTTP 401)", "authentication", Some(401)),
        ("gh: API rate limit exceeded (HTTP 403)", "rate_limit", Some(403)),
        ("lookup api.github.com: no such host", "dns", None),
        ("x509: certificate signed by unknown authority", "tls", None),
        ("read: connection reset by peer", "connection", None),
        ("context deadline exceeded", "timeout", None),
    ] {
        let failure = classify_failure(stderr);
        assert_eq!(failure.category, expected);
        assert_eq!(failure.http_status, status);
    }
}

#[test]
fn distinguishes_tls_timeouts_certificate_failures_and_other_tls_errors() {
    for (stderr, category, reason) in [
        (
            "Get https://api.github.com/private: net/http: TLS handshake timeout SECRET_TOKEN",
            "timeout",
            "tls_handshake_timeout",
        ),
        ("TLS handshake timed out", "timeout", "tls_handshake_timeout"),
        ("TLS handshake: context deadline exceeded", "timeout", "request_timeout"),
        ("dial tcp: i/o timeout", "timeout", "request_timeout"),
        (
            "tls: failed to verify certificate: x509: certificate signed by unknown authority SECRET_TOKEN",
            "tls",
            "certificate_verification_failed",
        ),
        (
            "x509: certificate has expired or is not yet valid",
            "tls",
            "certificate_verification_failed",
        ),
        ("remote error: tls: handshake failure", "tls", "tls_failure"),
        ("gh: TLS handshake timeout (HTTP 502)", "github_server", "server_error"),
    ] {
        let failure = classify_failure(stderr);
        assert_eq!(failure.category, category, "{stderr}");
        assert_eq!(failure.reason, reason, "{stderr}");
        assert!(!failure.message.contains("SECRET_TOKEN"));
        assert!(!failure.message.contains("/private"));
        if category == "timeout" || reason == "tls_failure" {
            assert!(!failure.message.contains("certificate"));
        }
    }
}

#[test]
fn arbitrary_numbers_and_secrets_are_not_interpreted_or_logged() {
    let failure = classify_failure("request 40123 failed SECRET_TOKEN");
    assert_eq!(failure.category, "unclassified");
    assert_eq!(failure.http_status, None);
    assert!(!failure.message.contains("SECRET_TOKEN"));
    assert_eq!(failure.reason, "unclassified");
}

#[test]
fn legacy_statuses_use_latest_bot_result_and_original_run_start() {
    let statuses = vec![
        json(
            r#"{"id":3,"context":"CodeRabbit","creator":{"login":"coderabbitai[bot]"},"state":"success","description":"Review completed","created_at":"2026-09-07T16:35:00Z"}"#,
        ),
        json(
            r#"{"id":2,"context":"CodeRabbit","creator":{"login":"coderabbitai[bot]"},"state":"pending","description":"Review in progress","created_at":"2026-09-07T16:30:00Z"}"#,
        ),
        json(
            r#"{"id":1,"context":"CodeRabbit","creator":{"login":"coderabbitai[bot]"},"state":"success","description":"Review skipped","created_at":"2026-09-07T16:00:00Z"}"#,
        ),
    ];
    let checks = legacy_checks(&statuses);
    assert_eq!(checks.len(), 1);
    assert_eq!(checks[0].status, "completed");
    assert_eq!(checks[0].started_at, "2026-09-07T16:30:00Z");
    assert_eq!(checks[0].summary, "Review completed");
}

#[test]
fn legacy_statuses_cannot_impersonate_an_agent_by_context_alone() {
    assert!(legacy_checks(&[json(
        r#"{"id":1,"context":"CodeRabbit","creator":{"login":"someone"},"state":"pending"}"#
    )])
    .is_empty());
}

#[test]
fn failed_requests_are_reported_with_their_class() {
    let output = b"HTTP/2.0 502 Bad Gateway\r\nX-RateLimit-Limit: 5000\r\nX-RateLimit-Remaining: 4999\r\nX-RateLimit-Reset: 17\r\n\r\n{}";
    let failed = report(ResponsePolicy::Strict, false, output, b"gh: Bad Gateway (HTTP 502)").unwrap();
    assert_eq!((failed.status, failed.succeeded), (502, false));
    let failure = failed.failure.unwrap();
    assert_eq!(failure.category, "github_server");
    assert_eq!(failure.http_status, Some(502));
    assert_eq!(failed.quota, Some(Quota { limit: 5000, remaining: 4999, used: None, reset: Some(17) }));
    // A limit, an answer from memory and a success are no failures of their own.
    let limited = report(ResponsePolicy::Strict, false, b"HTTP/2.0 429 Slow\r\n\r\n{}", b"").unwrap();
    assert!(limited.failure.is_none() && !limited.succeeded);
    let remembered = report(ResponsePolicy::Strict, false, b"HTTP/2.0 304 Not Modified\r\n\r\n", b"gh: (HTTP 304)").unwrap();
    assert!(remembered.failure.is_none() && remembered.succeeded);
    let fine = report(ResponsePolicy::Strict, true, b"HTTP/2.0 200 OK\r\n\r\n{}", b"").unwrap();
    assert!(fine.failure.is_none() && fine.succeeded && fine.quota.is_none());
    assert!(report(ResponsePolicy::Strict, true, b"HTTP/2.0 unfinished", b"").is_none());
}
