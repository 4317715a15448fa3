use dingtalk_sdk::{
    build_webhook_url, normalize_base_url, validate_standard_api_response, AccessTokenCache,
    BodySnippetConfig, Error,
};

#[test]
fn build_webhook_url_without_secret_contains_token_only() {
    let base_url = normalize_base_url("https://oapi.dingtalk.com").expect("base");
    let url = build_webhook_url(&base_url, "token-123", None).expect("url");
    assert_eq!(
        url,
        "https://oapi.dingtalk.com/robot/send?access_token=token-123"
    );
}

#[test]
fn api_error_response_is_detected() {
    let body = r#"{"errcode":310000,"errmsg":"invalid"}"#;
    let error = validate_standard_api_response(body, BodySnippetConfig::default())
        .expect_err("should fail");
    match error {
        Error::Api {
            code,
            message,
            body_snippet,
            ..
        } => {
            assert_eq!(code, 310000);
            assert_eq!(message, "invalid");
            assert_eq!(
                body_snippet.as_deref(),
                Some("{\"errcode\":310000,\"errmsg\":\"invalid\"}")
            );
        }
        other => panic!("unexpected error: {other:?}"),
    }
}

#[test]
fn api_success_response_passes() {
    let body = r#"{"errcode":0,"errmsg":"ok"}"#;
    validate_standard_api_response(body, BodySnippetConfig::default()).expect("ok");
}

#[test]
fn api_error_response_can_disable_body_snippet() {
    let body = r#"{"errcode":310000,"errmsg":"invalid"}"#;
    let config = BodySnippetConfig {
        enabled: false,
        max_bytes: 64,
    };
    let error = validate_standard_api_response(body, config).expect_err("should fail");
    match error {
        Error::Api {
            code,
            message,
            body_snippet,
            ..
        } => {
            assert_eq!(code, 310000);
            assert_eq!(message, "invalid");
            assert_eq!(body_snippet, None);
        }
        other => panic!("unexpected error: {other:?}"),
    }
}

#[test]
fn access_token_cache_honors_refresh_margin() {
    let cache = AccessTokenCache::new(60_000);
    cache.store("token".to_string(), Some(1));
    assert!(cache.get().is_none());

    let cache = AccessTokenCache::new(0);
    cache.store("token".to_string(), Some(60));
    assert_eq!(cache.get().as_deref(), Some("token"));
}

#[test]
fn api_error_missing_message_uses_fallback() {
    let body = r#"{"errcode":42}"#;
    let error = validate_standard_api_response(body, BodySnippetConfig::default())
        .expect_err("should fail");
    match error {
        Error::Api { code, message, .. } => {
            assert_eq!(code, 42);
            assert_eq!(message, "unknown dingtalk api error");
        }
        other => panic!("unexpected error: {other:?}"),
    }
}

#[test]
fn non_json_body_passes_validation() {
    validate_standard_api_response("plain text, not json", BodySnippetConfig::default())
        .expect("non-JSON bodies carry no business error");
}

#[test]
fn stored_token_without_ttl_uses_conservative_default() {
    let cache = AccessTokenCache::new(3_600_000);
    cache.store("token".to_string(), None);
    assert_eq!(cache.get().as_deref(), Some("token"));

    let cache = AccessTokenCache::new(7_200_000);
    cache.store("token".to_string(), None);
    assert!(cache.get().is_none());
}

#[test]
fn empty_cache_returns_nothing() {
    let cache = AccessTokenCache::new(0);
    assert!(cache.get().is_none());
}
