use dingtalk_sdk::{
    classify_transport_failure, Error, ErrorKind, TransportFailureCode,
};

#[test]
fn api_error_helpers_report_kind_retryability_and_request_id() {
    let retryable_error = Error::Api {
        code: 130101,
        message: "transient error".to_string(),
        request_id: Some("req-1".to_string()),
        body_snippet: None,
    };

    assert_eq!(retryable_error.kind(), ErrorKind::Api);
    assert!(retryable_error.is_retryable());
    assert_eq!(retryable_error.request_id(), Some("req-1"));

    let non_retryable_error = Error::Api {
        code: 400001,
        message: "bad request".to_string(),
        request_id: None,
        body_snippet: None,
    };
    assert!(!non_retryable_error.is_retryable());
}

#[test]
fn status_table_classifies_auth_not_found_and_conflict() {
    let auth = classify_transport_failure(
        TransportFailureCode::HttpStatus,
        Some(401),
        None,
        Some("req-9".to_string()),
        None,
    );
    assert_eq!(auth.kind(), ErrorKind::Auth);
    assert!(auth.is_auth_error());
    assert_eq!(auth.status(), Some(401));
    assert_eq!(auth.request_id(), Some("req-9"));
    assert!(!auth.is_retryable());

    let forbidden =
        classify_transport_failure(TransportFailureCode::HttpStatus, Some(403), None, None, None);
    assert_eq!(forbidden.kind(), ErrorKind::Auth);

    let missing =
        classify_transport_failure(TransportFailureCode::HttpStatus, Some(404), None, None, None);
    assert_eq!(missing.kind(), ErrorKind::NotFound);
    assert!(!missing.is_retryable());

    let conflict =
        classify_transport_failure(TransportFailureCode::HttpStatus, Some(409), None, None, None);
    assert_eq!(conflict.kind(), ErrorKind::Conflict);
    let precondition =
        classify_transport_failure(TransportFailureCode::HttpStatus, Some(412), None, None, None);
    assert_eq!(precondition.kind(), ErrorKind::Conflict);
}

#[test]
fn rate_limits_carry_retry_hint_and_are_retryable() {
    let limited = classify_transport_failure(
        TransportFailureCode::HttpStatus,
        Some(429),
        None,
        None,
        Some(1500),
    );
    assert_eq!(limited.kind(), ErrorKind::RateLimited);
    assert!(limited.is_retryable());
    assert_eq!(limited.retry_after(), Some(1500));
}

#[test]
fn transport_retryability_follows_code_and_status() {
    let server_error = classify_transport_failure(
        TransportFailureCode::HttpStatus,
        Some(500),
        Some("boom".to_string()),
        None,
        None,
    );
    assert_eq!(server_error.kind(), ErrorKind::Transport);
    assert!(server_error.is_retryable());

    let client_error =
        classify_transport_failure(TransportFailureCode::HttpStatus, Some(418), None, None, None);
    assert_eq!(client_error.kind(), ErrorKind::Transport);
    assert!(!client_error.is_retryable());

    let timeout = classify_transport_failure(TransportFailureCode::Timeout, None, None, None, None);
    assert_eq!(timeout.kind(), ErrorKind::Transport);
    assert!(timeout.is_retryable());

    let circuit =
        classify_transport_failure(TransportFailureCode::CircuitOpen, None, None, None, None);
    assert!(circuit.is_retryable());

    let other = classify_transport_failure(TransportFailureCode::Other, None, None, None, None);
    assert!(!other.is_retryable());
}

#[test]
fn local_failures_are_terminal() {
    assert!(!Error::Timestamp.is_retryable());
    assert!(!Error::Signature.is_retryable());
    let config = Error::InvalidConfig {
        message: "bad".to_string(),
    };
    assert!(!config.is_retryable());
    assert_eq!(config.kind(), ErrorKind::InvalidConfig);
    let decode = Error::Serialization {
        message: "bad json".to_string(),
    };
    assert_eq!(decode.kind(), ErrorKind::Serialization);
    assert!(!decode.is_retryable());
}
