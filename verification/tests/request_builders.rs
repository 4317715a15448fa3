use dingtalk_sdk::{
    ApprovalCreateProcessInstanceRequest, ApprovalFormComponentValue,
    ApprovalListProcessInstanceIdsRequest, ApprovalTerminateProcessInstanceRequest,
    ClientBuilder, ContactGetUserRequest, ContactListSubDepartmentsRequest,
    ContactListUsersRequest, Error,
};

fn to_value(bytes: Vec<u8>) -> serde_json::Value {
    serde_json::from_slice(&bytes).expect("request should serialize")
}

#[test]
fn approval_terminate_request_serializes_optional_remark() {
    let request = ApprovalTerminateProcessInstanceRequest::new(
        "PROC-1".to_string(),
        "user-1".to_string(),
    )
    .is_system(true)
    .remark("cancelled by sdk test".to_string());

    let value = to_value(request.to_json());
    assert_eq!(
        value.get("remark").and_then(serde_json::Value::as_str),
        Some("cancelled by sdk test")
    );
}

#[test]
fn terminate_request_builder_sets_optional_fields() {
    let request = ApprovalTerminateProcessInstanceRequest::new(
        "PROC-1".to_string(),
        "user-1".to_string(),
    )
    .is_system(true)
    .remark("cancelled by integration test".to_string());
    let value = to_value(request.to_json());

    assert_eq!(
        value
            .get("process_instance_id")
            .and_then(serde_json::Value::as_str),
        Some("PROC-1")
    );
    assert_eq!(
        value
            .get("operating_userid")
            .and_then(serde_json::Value::as_str),
        Some("user-1")
    );
    assert_eq!(
        value.get("is_system").and_then(serde_json::Value::as_bool),
        Some(true)
    );
    assert_eq!(
        value.get("remark").and_then(serde_json::Value::as_str),
        Some("cancelled by integration test")
    );
}

#[test]
fn async_enterprise_request_builders_serialize_expected_fields() {
    let request = ContactGetUserRequest::new("manager-1".to_string()).language("zh_CN".to_string());
    let request_value = to_value(request.to_json());
    assert_eq!(
        request_value
            .get("userid")
            .and_then(serde_json::Value::as_str),
        Some("manager-1")
    );
    assert_eq!(
        request_value
            .get("language")
            .and_then(serde_json::Value::as_str),
        Some("zh_CN")
    );

    let terminate = ApprovalTerminateProcessInstanceRequest::new(
        "PROC-1".to_string(),
        "manager-1".to_string(),
    )
    .is_system(true)
    .remark("cancel from async test".to_string());
    let terminate_value = to_value(terminate.to_json());
    assert_eq!(
        terminate_value
            .get("is_system")
            .and_then(serde_json::Value::as_bool),
        Some(true)
    );
    assert_eq!(
        terminate_value
            .get("remark")
            .and_then(serde_json::Value::as_str),
        Some("cancel from async test")
    );
}

#[test]
fn blocking_enterprise_request_builder_serializes_expected_fields() {
    let request = ContactListSubDepartmentsRequest::new(11).language("zh_CN".to_string());
    let value = to_value(request.to_json());

    assert_eq!(
        value.get("dept_id").and_then(serde_json::Value::as_i64),
        Some(11)
    );
    assert_eq!(
        value.get("language").and_then(serde_json::Value::as_str),
        Some("zh_CN")
    );
}

#[test]
fn list_users_request_serializes_all_fields() {
    let request = ContactListUsersRequest::new(-3, 0, 50)
        .language("en_US".to_string())
        .order_field("modify_desc".to_string())
        .contain_access_limit(false);
    let value = to_value(request.to_json());
    assert_eq!(
        value.get("dept_id").and_then(serde_json::Value::as_i64),
        Some(-3)
    );
    assert_eq!(
        value.get("cursor").and_then(serde_json::Value::as_i64),
        Some(0)
    );
    assert_eq!(
        value.get("size").and_then(serde_json::Value::as_i64),
        Some(50)
    );
    assert_eq!(
        value
            .get("order_field")
            .and_then(serde_json::Value::as_str),
        Some("modify_desc")
    );
    assert_eq!(
        value
            .get("contain_access_limit")
            .and_then(serde_json::Value::as_bool),
        Some(false)
    );
}

#[test]
fn approval_create_request_serializes_form_fields() {
    let request = ApprovalCreateProcessInstanceRequest::new(
        "PROC-CODE".to_string(),
        "originator".to_string(),
        7,
        vec![
            ApprovalFormComponentValue::new("reason".to_string(), "travel".to_string()),
            ApprovalFormComponentValue::new("days".to_string(), "3".to_string()),
        ],
    )
    .approvers("a,b".to_string());
    let value = to_value(request.to_json());
    assert_eq!(
        value
            .get("process_code")
            .and_then(serde_json::Value::as_str),
        Some("PROC-CODE")
    );
    assert_eq!(
        value.get("approvers").and_then(serde_json::Value::as_str),
        Some("a,b")
    );
    let fields = value
        .get("form_component_values")
        .and_then(serde_json::Value::as_array)
        .expect("form fields");
    assert_eq!(fields.len(), 2);
    assert_eq!(
        fields[0].get("name").and_then(serde_json::Value::as_str),
        Some("reason")
    );
    assert_eq!(
        fields[1].get("value").and_then(serde_json::Value::as_str),
        Some("3")
    );
    assert!(value.get("cc_list").is_none());
}

#[test]
fn approval_list_ids_request_serializes_window() {
    let request = ApprovalListProcessInstanceIdsRequest::new(1_000, 2_000, 0, 20)
        .process_code("PROC".to_string());
    let value = to_value(request.to_json());
    assert_eq!(
        value.get("start_time").and_then(serde_json::Value::as_i64),
        Some(1_000)
    );
    assert_eq!(
        value.get("end_time").and_then(serde_json::Value::as_i64),
        Some(2_000)
    );
    assert_eq!(
        value
            .get("process_code")
            .and_then(serde_json::Value::as_str),
        Some("PROC")
    );
    assert!(value.get("userid_list").is_none());
}

#[test]
fn async_client_builder_rejects_query_in_base_url() {
    let result = ClientBuilder::new().webhook_base_url("https://oapi.dingtalk.com?debug=true");
    assert!(matches!(result, Err(Error::InvalidConfig { .. })));
}

#[test]
fn blocking_client_builder_rejects_query_in_base_url() {
    let result = ClientBuilder::new().enterprise_base_url("https://api.dingtalk.com?debug=true");
    assert!(matches!(result, Err(Error::InvalidConfig { .. })));
}

#[test]
fn builder_accepts_and_canonicalizes_base_urls() {
    let builder = ClientBuilder::new()
        .webhook_base_url("https://oapi.dingtalk.com/")
        .expect("webhook base url should be accepted")
        .enterprise_base_url("https://api.dingtalk.com")
        .expect("enterprise base url should be accepted")
        .client_name("dingtalk-sdk-tests/blocking".to_string())
        .request_timeout(30_000)
        .with_retry(2, 128)
        .default_header("x-sdk-test".to_string(), "blocking".to_string())
        .cache_access_token(true)
        .token_refresh_margin(60_000);
    assert_eq!(builder.webhook_base_url.path(), "/");
    assert_eq!(builder.client_name, "dingtalk-sdk-tests/blocking");
    assert_eq!(builder.request_timeout_millis, 30_000);
    let retry = builder.retry_config.expect("retry configured");
    assert_eq!(retry.max_retries, 2);
    assert_eq!(retry.base_backoff_millis, 128);
    assert_eq!(builder.default_headers.len(), 1);
}
