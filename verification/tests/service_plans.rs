use dingtalk_sdk::{
    normalize_base_url, ActionCardButton, BlockingEnterpriseService, BlockingWebhookService,
    BodySnippetConfig, ContactDeleteUserRequest, Error, ErrorKind, FeedCardLink, HttpMethod,
};

fn webhook_service(secret: Option<&str>) -> BlockingWebhookService {
    BlockingWebhookService::new(
        normalize_base_url("https://oapi.dingtalk.com").expect("base"),
        BodySnippetConfig::default(),
        "token-123".to_string(),
        secret.map(str::to_string),
    )
}

fn enterprise_service() -> BlockingEnterpriseService {
    BlockingEnterpriseService::new(
        normalize_base_url("https://oapi.dingtalk.com").expect("webhook base"),
        normalize_base_url("https://api.dingtalk.com").expect("enterprise base"),
        BodySnippetConfig::default(),
        true,
        120_000,
        "app-key".to_string(),
        "app-secret".to_string(),
        "robot-code".to_string(),
    )
}

fn body_value(request: &dingtalk_sdk::PreparedRequest) -> serde_json::Value {
    let body = request.body.as_ref().expect("body");
    serde_json::from_slice(body).expect("body should be JSON")
}

#[test]
fn webhook_url_without_secret_contains_token_only() {
    let service = webhook_service(None);
    let request = service
        .send_text_message("hello", None, None, None)
        .expect("plan");
    assert_eq!(request.method, HttpMethod::Post);
    assert_eq!(
        request.url,
        "https://oapi.dingtalk.com/robot/send?access_token=token-123"
    );

    let parsed = url::Url::parse(&request.url).expect("built URL parses");
    let pairs: Vec<(String, String)> = parsed
        .query_pairs()
        .map(|(k, v)| (k.into_owned(), v.into_owned()))
        .collect();
    assert_eq!(pairs, vec![("access_token".to_string(), "token-123".to_string())]);
}

#[test]
fn webhook_url_with_secret_adds_timestamp_and_sign_and_round_trips() {
    let service = webhook_service(Some("secret"));
    let request = service
        .send_text_message("hello", None, None, None)
        .expect("plan");

    let parsed = url::Url::parse(&request.url).expect("built URL parses");
    let names: Vec<String> = parsed
        .query_pairs()
        .map(|(k, _)| k.into_owned())
        .collect();
    assert_eq!(names, vec!["access_token", "timestamp", "sign"]);

    let token = parsed
        .query_pairs()
        .find(|(k, _)| k == "access_token")
        .map(|(_, v)| v.into_owned());
    assert_eq!(token.as_deref(), Some("token-123"));

    let timestamp = parsed
        .query_pairs()
        .find(|(k, _)| k == "timestamp")
        .map(|(_, v)| v.into_owned())
        .expect("timestamp present");
    assert!(timestamp.bytes().all(|b| b.is_ascii_digit()));
}

#[test]
fn webhook_text_message_body_matches_wire_format() {
    let service = webhook_service(None);
    let request = service
        .send_text_message(
            "hello",
            Some(vec!["13800000000".to_string()]),
            None,
            Some(false),
        )
        .expect("plan");
    let value = body_value(&request);
    assert_eq!(
        value.get("msgtype").and_then(serde_json::Value::as_str),
        Some("text")
    );
    assert_eq!(
        value
            .get("text")
            .and_then(|t| t.get("content"))
            .and_then(serde_json::Value::as_str),
        Some("hello")
    );
    let at = value.get("at").expect("mention list present");
    assert_eq!(
        at.get("isAtAll").and_then(serde_json::Value::as_bool),
        Some(false)
    );
    assert_eq!(
        at.get("atMobiles")
            .and_then(serde_json::Value::as_array)
            .map(|a| a.len()),
        Some(1)
    );
}

#[test]
fn webhook_public_types_use_expected_serde_renames() {
    let service = webhook_service(None);

    let button = ActionCardButton::new("Open".to_string(), "https://example.com/open".to_string());
    let request = service
        .send_action_card_message_multi("t", "x", vec![button], None)
        .expect("plan");
    let value = body_value(&request);
    let buttons = value
        .get("actionCard")
        .and_then(|c| c.get("btns"))
        .and_then(serde_json::Value::as_array)
        .expect("buttons");
    assert_eq!(
        buttons[0]
            .get("actionURL")
            .and_then(serde_json::Value::as_str),
        Some("https://example.com/open")
    );

    let link = FeedCardLink::new(
        "Docs".to_string(),
        "https://example.com/docs".to_string(),
        "https://example.com/pic.png".to_string(),
    );
    let request = service.send_feed_card_message(vec![link]).expect("plan");
    let value = body_value(&request);
    let links = value
        .get("feedCard")
        .and_then(|c| c.get("links"))
        .and_then(serde_json::Value::as_array)
        .expect("links");
    assert_eq!(
        links[0]
            .get("messageURL")
            .and_then(serde_json::Value::as_str),
        Some("https://example.com/docs")
    );
    assert_eq!(
        links[0].get("picURL").and_then(serde_json::Value::as_str),
        Some("https://example.com/pic.png")
    );
}

#[test]
fn markdown_and_single_action_card_render_expected_fields() {
    let service = webhook_service(None);
    let request = service
        .send_markdown_message("title", "**bold**", None, None, None)
        .expect("plan");
    let value = body_value(&request);
    assert_eq!(
        value.get("msgtype").and_then(serde_json::Value::as_str),
        Some("markdown")
    );
    assert!(value.get("at").is_none());

    let request = service
        .send_action_card_message_single("t", "x", "Go", "https://example.com/go", Some("0"))
        .expect("plan");
    let value = body_value(&request);
    let card = value.get("actionCard").expect("card");
    assert_eq!(
        card.get("singleURL").and_then(serde_json::Value::as_str),
        Some("https://example.com/go")
    );
    assert_eq!(
        card.get("btnOrientation")
            .and_then(serde_json::Value::as_str),
        Some("0")
    );
    assert!(card.get("btns").is_none());
}

#[test]
fn token_request_carries_credentials_in_query() {
    let service = enterprise_service();
    let request = service.access_token_request().expect("plan");
    assert_eq!(request.method, HttpMethod::Get);
    assert!(request.body.is_none());
    assert_eq!(
        request.url,
        "https://oapi.dingtalk.com/gettoken?appkey=app-key&appsecret=app-secret"
    );
}

#[test]
fn token_response_is_validated_and_cached() {
    let service = enterprise_service();
    let token = service
        .accept_token_response(
            r#"{"errcode":0,"errmsg":"ok","access_token":"token-123","expires_in":7200}"#,
        )
        .expect("token accepted");
    assert_eq!(token, "token-123");
    assert_eq!(service.cached_access_token().as_deref(), Some("token-123"));

    let error = service
        .accept_token_response(r#"{"errcode":40089,"errmsg":"invalid credentials"}"#)
        .expect_err("business error");
    match error {
        Error::Api { code, message, .. } => {
            assert_eq!(code, 40089);
            assert_eq!(message, "invalid credentials");
        }
        other => panic!("unexpected error: {other:?}"),
    }

    let missing = service
        .accept_token_response(r#"{"errcode":0,"errmsg":"ok"}"#)
        .expect_err("token missing");
    match missing {
        Error::Api { code, message, .. } => {
            assert_eq!(code, -1);
            assert_eq!(message, "No access token returned");
        }
        other => panic!("unexpected error: {other:?}"),
    }

    let garbled = service
        .accept_token_response("not json")
        .expect_err("undecodable");
    assert_eq!(garbled.kind(), ErrorKind::Serialization);
}

#[test]
fn group_message_plan_embeds_msg_param_as_string() {
    let service = enterprise_service();
    let request = service
        .send_group_message("token-123", "conv-1", "title", "text")
        .expect("plan");
    assert_eq!(
        request.url,
        "https://api.dingtalk.com/v1.0/robot/groupMessages/send"
    );
    assert_eq!(request.headers.len(), 1);
    assert_eq!(request.headers[0].0, "x-acs-dingtalk-access-token");
    assert_eq!(request.headers[0].1, "token-123");

    let value = body_value(&request);
    assert_eq!(
        value.get("msgKey").and_then(serde_json::Value::as_str),
        Some("sampleMarkdown")
    );
    assert_eq!(
        value.get("robotCode").and_then(serde_json::Value::as_str),
        Some("robot-code")
    );
    let msg_param = value
        .get("msgParam")
        .and_then(serde_json::Value::as_str)
        .expect("msgParam is an embedded JSON string");
    let inner: serde_json::Value = serde_json::from_str(msg_param).expect("embedded JSON");
    assert_eq!(
        inner.get("title").and_then(serde_json::Value::as_str),
        Some("title")
    );
}

#[test]
fn oto_message_plan_lists_the_user() {
    let service = enterprise_service();
    let request = service
        .send_oto_message("token-123", "user-7", "title", "text")
        .expect("plan");
    assert_eq!(
        request.url,
        "https://api.dingtalk.com/v1.0/robot/oToMessages/batchSend"
    );
    let value = body_value(&request);
    let users = value
        .get("userIds")
        .and_then(serde_json::Value::as_array)
        .expect("userIds");
    assert_eq!(users.len(), 1);
    assert_eq!(users[0].as_str(), Some("user-7"));
}

#[test]
fn topapi_plans_carry_token_in_query() {
    let service = enterprise_service();
    let request = service
        .contact_delete_user(
            "token-123",
            ContactDeleteUserRequest::new("user-1".to_string()),
        )
        .expect("plan");
    assert_eq!(
        request.url,
        "https://oapi.dingtalk.com/topapi/v2/user/delete?access_token=token-123"
    );
    let value = body_value(&request);
    assert_eq!(
        value.get("userid").and_then(serde_json::Value::as_str),
        Some("user-1")
    );
}

#[test]
fn topapi_response_envelope_is_judged() {
    let service = enterprise_service();
    service
        .accept_topapi_response(r#"{"errcode":0,"errmsg":"ok","result":{}}"#)
        .expect("success envelope");

    let error = service
        .accept_topapi_response(r#"{"errcode":60121,"errmsg":"user not found","request_id":"r1"}"#)
        .expect_err("business error");
    match error {
        Error::Api {
            code, request_id, ..
        } => {
            assert_eq!(code, 60121);
            assert_eq!(request_id.as_deref(), Some("r1"));
        }
        other => panic!("unexpected error: {other:?}"),
    }
}

#[test]
fn approval_create_response_yields_instance_id() {
    let service = enterprise_service();
    let id = service
        .accept_approval_create_response(
            r#"{"errcode":0,"errmsg":"ok","process_instance_id":"PROC-9"}"#,
        )
        .expect("instance id");
    assert_eq!(id, "PROC-9");

    let missing = service
        .accept_approval_create_response(r#"{"errcode":0,"errmsg":"ok"}"#)
        .expect_err("missing id");
    match missing {
        Error::Api { code, message, .. } => {
            assert_eq!(code, -1);
            assert_eq!(message, "Missing process_instance_id in response");
        }
        other => panic!("unexpected error: {other:?}"),
    }
}

#[test]
fn reply_message_picks_target_by_conversation_type() {
    let service = enterprise_service();

    let private = service
        .reply_message("token-123", Some("1"), Some("staff-1"), None, "t", "x")
        .expect("private reply");
    assert!(private.url.ends_with("/v1.0/robot/oToMessages/batchSend"));

    let group = service
        .reply_message("token-123", Some("2"), None, Some("conv-1"), "t", "x")
        .expect("group reply");
    assert!(group.url.ends_with("/v1.0/robot/groupMessages/send"));

    let missing_sender = service
        .reply_message("token-123", Some("1"), None, None, "t", "x")
        .expect_err("sender required");
    assert!(matches!(missing_sender, Error::InvalidConfig { .. }));

    let missing_conversation = service
        .reply_message("token-123", None, Some("staff-1"), None, "t", "x")
        .expect_err("conversation required");
    assert!(matches!(missing_conversation, Error::InvalidConfig { .. }));
}
