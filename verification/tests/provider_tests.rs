use insync::event::ProviderName;
use insync::providers::ProviderError;

#[test]
fn classifies_google_auth_failures() {
    let error = ProviderError::http(ProviderName::Google, 400, r#"{"error":"invalid_grant"}"#);

    assert!(matches!(
        error,
        ProviderError::Auth {
            provider: ProviderName::Google,
            status: 400,
            ..
        }
    ));
}

#[test]
fn classifies_google_rate_limits() {
    let error = ProviderError::http(ProviderName::Google, 403, r#"{"reason":"userRateLimitExceeded"}"#);

    assert!(matches!(
        error,
        ProviderError::RateLimited {
            provider: ProviderName::Google,
            status: 403,
            ..
        }
    ));
}

#[test]
fn classifies_icloud_auth_and_throttling() {
    assert!(matches!(
        ProviderError::http(ProviderName::Icloud, 401, ""),
        ProviderError::Auth {
            provider: ProviderName::Icloud,
            ..
        }
    ));
    assert!(matches!(
        ProviderError::http(ProviderName::Icloud, 503, "temporarily unavailable"),
        ProviderError::RateLimited {
            provider: ProviderName::Icloud,
            status: 503,
            ..
        }
    ));
}

#[test]
fn google_forbidden_without_reason_is_plain_http() {
    let error = ProviderError::http(ProviderName::Google, 403, "something else");
    match error {
        ProviderError::Http { provider, status, body } => {
            assert_eq!(provider, ProviderName::Google);
            assert_eq!(status, 403);
            assert_eq!(body, "something else");
        }
        other => panic!("unexpected error: {other:?}"),
    }
}

#[test]
fn auth_classification_ignores_case() {
    assert!(matches!(
        ProviderError::http(ProviderName::Google, 403, "AuthError: Insufficient Permissions"),
        ProviderError::Auth { status: 403, .. }
    ));
    assert!(matches!(
        ProviderError::http(ProviderName::Icloud, 403, "Forbidden"),
        ProviderError::Auth { .. }
    ));
    assert!(matches!(
        ProviderError::http(ProviderName::Google, 429, "slow down"),
        ProviderError::RateLimited { status: 429, .. }
    ));
}

#[test]
fn icloud_server_error_is_http() {
    let error = ProviderError::http(ProviderName::Icloud, 500, "oops");
    assert!(matches!(error, ProviderError::Http { status: 500, .. }));
    assert!(!error.is_rate_limited());
    assert!(ProviderError::http(ProviderName::Icloud, 429, "").is_rate_limited());
}

#[test]
fn network_error_keeps_message() {
    match ProviderError::network(ProviderName::Icloud, "connection reset") {
        ProviderError::Network { provider, message } => {
            assert_eq!(provider, ProviderName::Icloud);
            assert_eq!(message, "connection reset");
        }
        other => panic!("unexpected error: {other:?}"),
    }
}
