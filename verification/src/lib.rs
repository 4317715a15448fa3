//! Verified core of a DingTalk-style messaging SDK.
//!
//! The crate covers the authenticated transport substrate shared by every
//! API call: the access-token cache with proactive refresh, the webhook
//! request-signing pipeline, URL normalization and endpoint building, the
//! redaction of sensitive text in retained body snippets, the exact wire
//! rendering of message and request payloads, and the classification of
//! transport and business failures into a stable error taxonomy.
//!
//! The services prepare each HTTP request — address, query, headers and
//! body, pinned byte for byte — and judge each response body; performing
//! the exchange is left to an HTTP collaborator outside this crate.

mod auth;
mod client;
mod encode;
mod enterprise_types;
mod error;
mod json;
mod redact;
mod retry;
mod services;
mod signature;
mod text;
mod transport;
mod url_norm;
mod webhook_types;

pub use auth::AppCredentials;
pub use client::{spec_builder_defaults, ClientBuilder};
pub use encode::{
    form_safe, lemma_dec_bytes_ascii, lemma_form_enc_ascii, lemma_form_enc_concat,
    lemma_form_enc_no_separators, lemma_form_enc_roundtrip, lemma_path_segment_enc_ascii,
    lemma_unreserved_enc_ascii, path_segment_safe, spec_dec_bytes, spec_dec_bytes_i64,
    spec_form_decode, spec_form_enc, spec_hex_upper, spec_hex_val, spec_path_segment_enc,
    spec_percent_escape, spec_unreserved_enc, unreserved_safe,
};
pub use enterprise_types::{
    spec_approval_create_request_json, spec_approval_list_ids_request_json,
    spec_approval_terminate_request_json, spec_delete_department_request_json,
    spec_delete_user_request_json, spec_department_request_json, spec_form_component_json,
    spec_get_user_by_mobile_request_json, spec_get_user_by_unionid_request_json,
    spec_get_user_request_json, spec_list_users_request_json,
    ApprovalCreateProcessInstanceRequest, ApprovalFormComponentValue,
    ApprovalListProcessInstanceIdsRequest, ApprovalListProcessInstanceIdsResult,
    ApprovalTerminateProcessInstanceRequest, ContactDeleteDepartmentRequest,
    ContactDeleteUserRequest, ContactGetDepartmentRequest, ContactGetUserByMobileRequest,
    ContactGetUserByUnionIdRequest, ContactGetUserRequest, ContactListSubDepartmentIdsRequest,
    ContactListSubDepartmentsRequest, ContactListUsersRequest,
};
pub use error::{
    classify_transport_failure, spec_classify_transport_failure, spec_http_error_matches,
    spec_transport_error_matches, spec_transport_retryable, transport_retryable, Error,
    ErrorKind, HttpError, Result, TransportError, TransportFailureCode,
};
pub use json::{
    spec_hex_lower, spec_json_esc_byte, spec_json_escape, spec_json_quoted_bytes, spec_json_str,
};
pub use redact::{
    lemma_boundary_floor, lemma_truncate_never_splits, redact_text, spec_boundary_floor,
    spec_find_from, spec_find_key, spec_lower_byte, spec_match_at, spec_redact_key,
    spec_redact_keys, spec_redact_text, spec_redaction_marker, spec_sensitive_keys,
    spec_truncate_marker, spec_truncate_snippet, truncate_snippet,
};
pub use retry::RetryConfig;
pub use services::{
    approval_create_envelope_of, spec_accept_approval_create_response,
    spec_accept_token_response, spec_accept_topapi_response, spec_enterprise_send_ok,
    spec_gettoken_url, spec_group_message_json, spec_msg_param_json, spec_oto_message_json,
    spec_topapi_send_ok, spec_url_with_access_token, spec_webhook_send_err,
    spec_webhook_send_ok, token_envelope_of, topapi_envelope_of, BlockingEnterpriseService,
    BlockingWebhookService, HttpMethod, PreparedRequest,
};
pub use signature::{
    base64_std_of, create_signature, current_timestamp_millis, encode_signature_tag,
    format_u64, hmac_sha256_of, spec_dec_chars, spec_encoded_tag, spec_signature_of,
};
pub use text::{all_ascii_bytes, lemma_all_ascii_concat, lemma_ascii_valid_utf8};
pub use transport::{
    api_error, body_snippet_for_error, build_webhook_url, cache_lookup,
    lemma_fresh_store_is_returned, lemma_short_ttl_store_is_stale, normalize_token_ttl,
    spec_body_snippet_for_error, spec_cache_fresh, spec_cache_lookup,
    spec_normalize_token_ttl, spec_store_expiry, spec_validate_standard_api_response,
    spec_webhook_query_signed, spec_webhook_query_unsigned, spec_webhook_send_endpoint,
    standard_envelope_of, store_expiry, validate_standard_api_response, AccessTokenCache,
    BodySnippetConfig, CachedToken, TokenCachePred,
};
pub use url_norm::{
    endpoint_url, normalize_base_url, spec_endpoint_bytes, spec_normalize_base_url,
    spec_normalize_path, spec_segments_bytes, spec_trim_trailing_slash, url_parts_of, BaseUrl,
};
pub use webhook_types::{
    build_at, spec_action_card_members, spec_action_card_message_json, spec_at_json,
    spec_at_members, spec_at_of, spec_at_tail, spec_button_json, spec_feed_card_message_json,
    spec_feed_link_json, spec_link_members, spec_link_message_json,
    spec_markdown_message_json, spec_str_array_value, spec_text_message_json,
    spec_webhook_message_json, ActionCardButton, At, FeedCardLink, WebhookMessage,
};
