//! The webhook and enterprise robot services.
//!
//! The services hold the validated configuration and do everything around
//! an HTTP exchange that can be decided locally: they build each request —
//! address, query, headers and JSON body, all pinned byte for byte — and
//! they judge each response body.  Performing the exchange is the HTTP
//! collaborator's job; a caller carries a prepared request to it and hands
//! the response body back to the matching acceptance function.

use vstd::prelude::*;
use vstd::utf8::{encode_utf8, encode_utf8_valid_utf8, valid_utf8, valid_utf8_concat};

use crate::auth::AppCredentials;
use crate::enterprise_types::{
    ApprovalCreateProcessInstanceRequest, ApprovalListProcessInstanceIdsRequest,
    ApprovalTerminateProcessInstanceRequest, ContactDeleteDepartmentRequest,
    ContactDeleteUserRequest,
};
use crate::encode::{lemma_form_enc_ascii, push_form_enc, spec_form_enc};
use crate::error::{Error, Result};
use crate::json::{
    json_member, json_str_value, push_json_object, push_json_quoted_bytes, spec_json_member,
    spec_json_object, spec_json_quoted_bytes, spec_json_str,
};
use crate::text::{lemma_ascii_valid_utf8, push_str_bytes, string_from_utf8};
use crate::transport::{
    build_webhook_url, AccessTokenCache, BodySnippetConfig, spec_cache_fresh,
    spec_webhook_query_signed, spec_webhook_query_unsigned, spec_webhook_send_endpoint,
};
use crate::url_norm::{endpoint_url, spec_endpoint_bytes, spec_segments_bytes, BaseUrl};
use crate::webhook_types::{
    build_at, spec_action_card_message_json, spec_at_of, spec_feed_card_message_json,
    spec_link_message_json, spec_markdown_message_json, spec_text_message_json,
    spec_webhook_message_json, ActionCardButton, FeedCardLink, WebhookMessage,
};

verus! {

/// The HTTP method of a prepared request.
#[derive(Debug, Clone, Copy, PartialEq, Eq, Structural)]
pub enum HttpMethod {
    /// An HTTP GET.
    Get,
    /// An HTTP POST.
    Post,
}

/// One fully prepared HTTP request: everything the HTTP collaborator needs
/// to perform the exchange.
#[derive(Debug, Clone)]
pub struct PreparedRequest {
    /// The HTTP method.
    pub method: HttpMethod,
    /// The complete request address, query included.
    pub url: String,
    /// Headers beyond the client's defaults.
    pub headers: Vec<(String, String)>,
    /// The JSON body, when the request carries one.
    pub body: Option<Vec<u8>>,
}

/// The address of an endpoint with an `access_token` query parameter.
pub open spec fn spec_url_with_access_token(
    base: BaseUrl,
    segs: Seq<Seq<char>>,
    token: Seq<char>,
) -> Seq<u8> {
    spec_endpoint_bytes(
        encode_utf8(base.spec_prefix()),
        encode_utf8(base.spec_path()),
        spec_segments_bytes(segs),
    ) + encode_utf8(("?access_token=")@) + spec_form_enc(encode_utf8(token))
}

/// Builds an endpoint address carrying an `access_token` query parameter.
fn url_with_access_token(base: &BaseUrl, segments: &[&str], token: &str) -> (r: Result<String>)
    ensures
        r matches Ok(u) && encode_utf8(u@) == spec_url_with_access_token(
            *base,
            segments.deep_view(),
            token@,
        ),
{
    broadcast use valid_utf8_concat;

    let endpoint = match endpoint_url(base, segments) {
        Ok(u) => u,
        Err(e) => {
            return Err(e);
        },
    };
    let mut out: Vec<u8> = Vec::new();
    push_str_bytes(&mut out, endpoint.as_str());
    push_str_bytes(&mut out, "?access_token=");
    push_form_enc(&mut out, token.as_bytes());
    proof {
        let a = encode_utf8(endpoint@);
        let b = encode_utf8(("?access_token=")@);
        let c = spec_form_enc(encode_utf8(token@));
        encode_utf8_valid_utf8(endpoint@);
        encode_utf8_valid_utf8(("?access_token=")@);
        lemma_form_enc_ascii(encode_utf8(token@));
        lemma_ascii_valid_utf8(c);
        assert(valid_utf8(a + b));
        assert(valid_utf8((a + b) + c));
        assert(out@ =~= (a + b) + c);
        assert(out@ =~= spec_url_with_access_token(*base, segments.deep_view(), token@));
    }
    Ok(string_from_utf8(out))
}

/// The address of the token-issuance endpoint with the credentials as
/// query parameters.
pub open spec fn spec_gettoken_url(
    base: BaseUrl,
    appkey: Seq<char>,
    appsecret: Seq<char>,
) -> Seq<u8> {
    spec_endpoint_bytes(
        encode_utf8(base.spec_prefix()),
        encode_utf8(base.spec_path()),
        spec_segments_bytes(seq![("gettoken")@]),
    ) + encode_utf8(("?appkey=")@) + spec_form_enc(encode_utf8(appkey)) + encode_utf8(
        ("&appsecret=")@,
    ) + spec_form_enc(encode_utf8(appsecret))
}

/// Builds the token-issuance address for the given credentials.
fn gettoken_url(base: &BaseUrl, appkey: &str, appsecret: &str) -> (r: Result<String>)
    ensures
        r matches Ok(u) && encode_utf8(u@) == spec_gettoken_url(*base, appkey@, appsecret@),
{
    broadcast use valid_utf8_concat;

    let mut segments: Vec<&str> = Vec::new();
    segments.push("gettoken");
    let segs = segments.as_slice();
    let endpoint = match endpoint_url(base, segs) {
        Ok(u) => u,
        Err(e) => {
            return Err(e);
        },
    };
    proof {
        assert(segs.deep_view() =~= seq![("gettoken")@]);
    }
    let mut out: Vec<u8> = Vec::new();
    push_str_bytes(&mut out, endpoint.as_str());
    push_str_bytes(&mut out, "?appkey=");
    push_form_enc(&mut out, appkey.as_bytes());
    push_str_bytes(&mut out, "&appsecret=");
    push_form_enc(&mut out, appsecret.as_bytes());
    proof {
        let a = encode_utf8(endpoint@);
        let b = encode_utf8(("?appkey=")@);
        let c = spec_form_enc(encode_utf8(appkey@));
        let d = encode_utf8(("&appsecret=")@);
        let e = spec_form_enc(encode_utf8(appsecret@));
        encode_utf8_valid_utf8(endpoint@);
        encode_utf8_valid_utf8(("?appkey=")@);
        encode_utf8_valid_utf8(("&appsecret=")@);
        lemma_form_enc_ascii(encode_utf8(appkey@));
        lemma_ascii_valid_utf8(c);
        lemma_form_enc_ascii(encode_utf8(appsecret@));
        lemma_ascii_valid_utf8(e);
        assert(valid_utf8(a + b));
        assert(valid_utf8((a + b) + c));
        assert(valid_utf8(((a + b) + c) + d));
        assert(valid_utf8((((a + b) + c) + d) + e));
        assert(out@ =~= (((a + b) + c) + d) + e);
        assert(out@ =~= spec_gettoken_url(*base, appkey@, appsecret@));
    }
    Ok(string_from_utf8(out))
}

/// Blocking webhook robot service: builds the signed or unsigned send
/// requests for one robot token.
#[derive(Clone)]
pub struct BlockingWebhookService {
    webhook_base_url: BaseUrl,
    body_snippet: BodySnippetConfig,
    token: String,
    secret: Option<String>,
}

/// What a prepared webhook send owes: a POST to the webhook send endpoint
/// whose query carries the token (and, exactly when a secret is
/// configured, a timestamp and the signature over it), with the rendered
/// message as body and no extra headers.
pub open spec fn spec_webhook_send_ok(
    svc: BlockingWebhookService,
    body: Seq<u8>,
    p: PreparedRequest,
) -> bool {
    &&& p.method == HttpMethod::Post
    &&& p.headers@.len() == 0
    &&& (p.body matches Some(b) && b@ == body)
    &&& (svc.spec_secret() is None ==> encode_utf8(p.url@) == spec_webhook_send_endpoint(
        svc.spec_base(),
    ) + spec_webhook_query_unsigned(svc.spec_token()))
    &&& (svc.spec_secret() matches Some(s) ==> exists|n: nat|
        encode_utf8(p.url@) == spec_webhook_send_endpoint(svc.spec_base())
            + spec_webhook_query_signed(svc.spec_token(), n, s))
}

/// What a failed webhook send build owes: it fails only when a secret is
/// configured, and only because the timestamp or signature could not be
/// produced.
pub open spec fn spec_webhook_send_err(svc: BlockingWebhookService, e: Error) -> bool {
    &&& svc.spec_secret() is Some
    &&& (e == Error::Timestamp || e == Error::Signature)
}

impl BlockingWebhookService {
    /// The configured base address.
    pub closed spec fn spec_base(&self) -> BaseUrl {
        self.webhook_base_url
    }

    /// The robot token.
    pub closed spec fn spec_token(&self) -> Seq<char> {
        self.token@
    }

    /// The shared secret, when signing is configured.
    pub closed spec fn spec_secret(&self) -> Option<Seq<char>> {
        match self.secret {
            Some(s) => Some(s@),
            None => None,
        }
    }

    /// The snippet configuration applied to error bodies.
    pub closed spec fn spec_body_snippet(&self) -> BodySnippetConfig {
        self.body_snippet
    }

    /// Creates a webhook service for one robot token.
    pub fn new(
        webhook_base_url: BaseUrl,
        body_snippet: BodySnippetConfig,
        token: String,
        secret: Option<String>,
    ) -> (r: Self)
        ensures
            r.spec_base() == webhook_base_url,
            r.spec_body_snippet() == body_snippet,
            r.spec_token() == token@,
            r.spec_secret() == secret.deep_view(),
    {
        Self { webhook_base_url, body_snippet, token, secret }
    }

    /// Returns the snippet configuration, for judging response bodies.
    pub fn body_snippet_config(&self) -> (r: BodySnippetConfig)
        ensures
            r == self.spec_body_snippet(),
    {
        self.body_snippet
    }

    /// Prepares the send request for a webhook message.
    #[verifier::rlimit(60)]
    pub fn send_message(&self, message: &WebhookMessage) -> (r: Result<PreparedRequest>)
        ensures
            r matches Ok(p) ==> spec_webhook_send_ok(
                *self,
                spec_webhook_message_json(*message),
                p,
            ),
            r matches Err(e) ==> spec_webhook_send_err(*self, e),
    {
        let secret = match &self.secret {
            Some(s) => Some(s.as_str()),
            None => None,
        };
        let url = match build_webhook_url(&self.webhook_base_url, self.token.as_str(), secret) {
            Ok(u) => u,
            Err(e) => {
                return Err(e);
            },
        };
        proof {
            if self.spec_secret() is None {
                assert(secret is None);
                assert(encode_utf8(url@) == spec_webhook_send_endpoint(self.spec_base())
                    + spec_webhook_query_unsigned(self.spec_token()));
            } else {
                assert(secret matches Some(s) && s@ == self.spec_secret()->0);
                let n = choose|n: nat|
                    encode_utf8(url@) == spec_webhook_send_endpoint(self.spec_base())
                        + spec_webhook_query_signed(self.spec_token(), n, secret->0@);
                assert(encode_utf8(url@) == spec_webhook_send_endpoint(self.spec_base())
                    + spec_webhook_query_signed(
                    self.spec_token(),
                    n,
                    self.spec_secret()->0,
                ));
            }
        }
        Ok(
            PreparedRequest {
                method: HttpMethod::Post,
                url,
                headers: Vec::new(),
                body: Some(message.to_json()),
            },
        )
    }

    /// Prepares a text webhook message.
    pub fn send_text_message(
        &self,
        content: &str,
        at_mobiles: Option<Vec<String>>,
        at_user_ids: Option<Vec<String>>,
        is_at_all: Option<bool>,
    ) -> (r: Result<PreparedRequest>)
        ensures
            r matches Ok(p) ==> spec_webhook_send_ok(
                *self,
                spec_text_message_json(
                    content@,
                    spec_at_of(at_mobiles, at_user_ids, is_at_all),
                ),
                p,
            ),
            r matches Err(e) ==> spec_webhook_send_err(*self, e),
    {
        let message = WebhookMessage::Text {
            content: content.to_owned(),
            at: build_at(at_mobiles, at_user_ids, is_at_all),
        };
        self.send_message(&message)
    }

    /// Prepares a link webhook message.
    pub fn send_link_message(
        &self,
        title: &str,
        text: &str,
        message_url: &str,
        pic_url: Option<&str>,
    ) -> (r: Result<PreparedRequest>)
        ensures
            r matches Ok(p) ==> spec_webhook_send_ok(
                *self,
                spec_link_message_json(title@, text@, message_url@, pic_url.deep_view()),
                p,
            ),
            r matches Err(e) ==> spec_webhook_send_err(*self, e),
    {
        let message = WebhookMessage::Link {
            title: title.to_owned(),
            text: text.to_owned(),
            message_url: message_url.to_owned(),
            pic_url: match pic_url {
                Some(p) => Some(p.to_owned()),
                None => None,
            },
        };
        self.send_message(&message)
    }

    /// Prepares a markdown webhook message.
    pub fn send_markdown_message(
        &self,
        title: &str,
        text: &str,
        at_mobiles: Option<Vec<String>>,
        at_user_ids: Option<Vec<String>>,
        is_at_all: Option<bool>,
    ) -> (r: Result<PreparedRequest>)
        ensures
            r matches Ok(p) ==> spec_webhook_send_ok(
                *self,
                spec_markdown_message_json(
                    title@,
                    text@,
                    spec_at_of(at_mobiles, at_user_ids, is_at_all),
                ),
                p,
            ),
            r matches Err(e) ==> spec_webhook_send_err(*self, e),
    {
        let message = WebhookMessage::Markdown {
            title: title.to_owned(),
            text: text.to_owned(),
            at: build_at(at_mobiles, at_user_ids, is_at_all),
        };
        self.send_message(&message)
    }

    /// Prepares a single-button action-card webhook message.
    pub fn send_action_card_message_single(
        &self,
        title: &str,
        text: &str,
        single_title: &str,
        single_url: &str,
        btn_orientation: Option<&str>,
    ) -> (r: Result<PreparedRequest>)
        ensures
            r matches Ok(p) ==> spec_webhook_send_ok(
                *self,
                spec_action_card_message_json(
                    title@,
                    text@,
                    btn_orientation.deep_view(),
                    Some(single_title@),
                    Some(single_url@),
                    None,
                ),
                p,
            ),
            r matches Err(e) ==> spec_webhook_send_err(*self, e),
    {
        let message = WebhookMessage::ActionCard {
            title: title.to_owned(),
            text: text.to_owned(),
            btn_orientation: match btn_orientation {
                Some(s) => Some(s.to_owned()),
                None => None,
            },
            single_title: Some(single_title.to_owned()),
            single_url: Some(single_url.to_owned()),
            btns: None,
        };
        self.send_message(&message)
    }

    /// Prepares a multi-button action-card webhook message.
    pub fn send_action_card_message_multi(
        &self,
        title: &str,
        text: &str,
        btns: Vec<ActionCardButton>,
        btn_orientation: Option<&str>,
    ) -> (r: Result<PreparedRequest>)
        ensures
            r matches Ok(p) ==> spec_webhook_send_ok(
                *self,
                spec_action_card_message_json(
                    title@,
                    text@,
                    btn_orientation.deep_view(),
                    None,
                    None,
                    Some(btns),
                ),
                p,
            ),
            r matches Err(e) ==> spec_webhook_send_err(*self, e),
    {
        let message = WebhookMessage::ActionCard {
            title: title.to_owned(),
            text: text.to_owned(),
            btn_orientation: match btn_orientation {
                Some(s) => Some(s.to_owned()),
                None => None,
            },
            single_title: None,
            single_url: None,
            btns: Some(btns),
        };
        self.send_message(&message)
    }

    /// Prepares a feed-card webhook message.
    pub fn send_feed_card_message(&self, links: Vec<FeedCardLink>) -> (r: Result<
        PreparedRequest,
    >)
        ensures
            r matches Ok(p) ==> spec_webhook_send_ok(
                *self,
                spec_feed_card_message_json(links),
                p,
            ),
            r matches Err(e) ==> spec_webhook_send_err(*self, e),
    {
        let message = WebhookMessage::FeedCard { links };
        self.send_message(&message)
    }
}


/// The token-issuance envelope of a JSON body: `errcode`, `errmsg`, and
/// the optional token and lifetime; absent when the body does not parse
/// or lacks the required fields.
pub uninterp spec fn token_envelope_of(body: Seq<char>) -> Option<
    (i64, Seq<char>, Option<Seq<char>>, Option<i64>),
>;

/// Relies on serde_json: reads the token-issuance envelope from a JSON
/// body — `errcode`, `errmsg`, and the optional `access_token` and
/// `expires_in` fields.
#[verifier::external_body]
fn parse_token_envelope(body: &str) -> (r: Option<(i64, String, Option<String>, Option<i64>)>)
    ensures
        r.deep_view() == token_envelope_of(body@),
{
    let v: serde_json::Value = match serde_json::from_str(body) {
        Ok(v) => v,
        Err(_) => return None,
    };
    let errcode = v.get("errcode").and_then(serde_json::Value::as_i64)?;
    let errmsg = v.get("errmsg").and_then(serde_json::Value::as_str)?.to_owned();
    let access_token = v.get("access_token").and_then(serde_json::Value::as_str).map(
        str::to_owned,
    );
    let expires_in = v.get("expires_in").and_then(serde_json::Value::as_i64);
    Some((errcode, errmsg, access_token, expires_in))
}

/// The business envelope of a top-API JSON response: `errcode`, `errmsg`
/// and the optional `request_id`; absent when the body does not parse or
/// lacks the required fields.
pub uninterp spec fn topapi_envelope_of(body: Seq<char>) -> Option<
    (i64, Seq<char>, Option<Seq<char>>),
>;

/// Relies on serde_json: reads the top-API business envelope from a JSON
/// body.
#[verifier::external_body]
fn parse_topapi_envelope(body: &str) -> (r: Option<(i64, String, Option<String>)>)
    ensures
        r.deep_view() == topapi_envelope_of(body@),
{
    let v: serde_json::Value = match serde_json::from_str(body) {
        Ok(v) => v,
        Err(_) => return None,
    };
    let errcode = v.get("errcode").and_then(serde_json::Value::as_i64)?;
    let errmsg = v.get("errmsg").and_then(serde_json::Value::as_str)?.to_owned();
    let request_id = v.get("request_id").and_then(serde_json::Value::as_str).map(
        str::to_owned,
    );
    Some((errcode, errmsg, request_id))
}

/// The approval-creation envelope of a JSON response: `errcode`, `errmsg`,
/// and the optional `process_instance_id` and `request_id`; absent when
/// the body does not parse or lacks the required fields.
pub uninterp spec fn approval_create_envelope_of(body: Seq<char>) -> Option<
    (i64, Seq<char>, Option<Seq<char>>, Option<Seq<char>>),
>;

/// Relies on serde_json: reads the approval-creation envelope from a JSON
/// body.
#[verifier::external_body]
fn parse_approval_create_envelope(body: &str) -> (r: Option<
    (i64, String, Option<String>, Option<String>),
>)
    ensures
        r.deep_view() == approval_create_envelope_of(body@),
{
    let v: serde_json::Value = match serde_json::from_str(body) {
        Ok(v) => v,
        Err(_) => return None,
    };
    let errcode = v.get("errcode").and_then(serde_json::Value::as_i64)?;
    let errmsg = v.get("errmsg").and_then(serde_json::Value::as_str)?.to_owned();
    let process_instance_id = v.get("process_instance_id").and_then(
        serde_json::Value::as_str,
    ).map(str::to_owned);
    let request_id = v.get("request_id").and_then(serde_json::Value::as_str).map(
        str::to_owned,
    );
    Some((errcode, errmsg, process_instance_id, request_id))
}

/// The rendering of the enterprise message parameter: title and text.
pub open spec fn spec_msg_param_json(title: Seq<char>, text: Seq<char>) -> Seq<u8> {
    spec_json_object(
        seq![
            spec_json_member(("title")@, spec_json_str(title)),
            spec_json_member(("text")@, spec_json_str(text)),
        ],
    )
}

/// The rendering of a group message: the message parameter embedded as a
/// JSON string, the fixed message key, the robot code and the
/// conversation.
pub open spec fn spec_group_message_json(
    title: Seq<char>,
    text: Seq<char>,
    robot_code: Seq<char>,
    open_conversation_id: Seq<char>,
) -> Seq<u8> {
    spec_json_object(
        seq![
            spec_json_member(
                ("msgParam")@,
                spec_json_quoted_bytes(spec_msg_param_json(title, text)),
            ),
            spec_json_member(("msgKey")@, spec_json_str(("sampleMarkdown")@)),
            spec_json_member(("robotCode")@, spec_json_str(robot_code)),
            spec_json_member(("openConversationId")@, spec_json_str(open_conversation_id)),
        ],
    )
}

/// The rendering of a one-to-one message to a single user.
pub open spec fn spec_oto_message_json(
    title: Seq<char>,
    text: Seq<char>,
    robot_code: Seq<char>,
    user_id: Seq<char>,
) -> Seq<u8> {
    spec_json_object(
        seq![
            spec_json_member(
                ("msgParam")@,
                spec_json_quoted_bytes(spec_msg_param_json(title, text)),
            ),
            spec_json_member(("msgKey")@, spec_json_str(("sampleMarkdown")@)),
            spec_json_member(("robotCode")@, spec_json_str(robot_code)),
            spec_json_member(
                ("userIds")@,
                seq![0x5bu8] + spec_json_str(user_id) + seq![0x5du8],
            ),
        ],
    )
}

/// Renders the embedded message parameter value.
fn msg_param_value(title: &str, text: &str) -> (r: Vec<u8>)
    ensures
        r@ == spec_json_quoted_bytes(spec_msg_param_json(title@, text@)),
{
    let mut inner: Vec<Vec<u8>> = Vec::new();
    inner.push(json_member("title", json_str_value(title)));
    inner.push(json_member("text", json_str_value(text)));
    proof {
        assert(inner.deep_view() =~~= seq![
            spec_json_member(("title")@, spec_json_str(title@)),
            spec_json_member(("text")@, spec_json_str(text@)),
        ]);
    }
    let mut obj: Vec<u8> = Vec::new();
    push_json_object(&mut obj, &inner);
    proof {
        assert(obj@ =~= spec_json_object(inner.deep_view()));
    }
    let mut out: Vec<u8> = Vec::new();
    push_json_quoted_bytes(&mut out, obj.as_slice());
    proof {
        assert(out@ =~= spec_json_quoted_bytes(spec_msg_param_json(title@, text@)));
    }
    out
}

/// Renders a group message body.
fn group_message_json(
    title: &str,
    text: &str,
    robot_code: &str,
    open_conversation_id: &str,
) -> (r: Vec<u8>)
    ensures
        r@ == spec_group_message_json(title@, text@, robot_code@, open_conversation_id@),
{
    let mut members: Vec<Vec<u8>> = Vec::new();
    members.push(json_member("msgParam", msg_param_value(title, text)));
    members.push(json_member("msgKey", json_str_value("sampleMarkdown")));
    members.push(json_member("robotCode", json_str_value(robot_code)));
    members.push(json_member("openConversationId", json_str_value(open_conversation_id)));
    proof {
        assert(members.deep_view() =~~= seq![
            spec_json_member(
                ("msgParam")@,
                spec_json_quoted_bytes(spec_msg_param_json(title@, text@)),
            ),
            spec_json_member(("msgKey")@, spec_json_str(("sampleMarkdown")@)),
            spec_json_member(("robotCode")@, spec_json_str(robot_code@)),
            spec_json_member(("openConversationId")@, spec_json_str(open_conversation_id@)),
        ]);
    }
    let mut out: Vec<u8> = Vec::new();
    push_json_object(&mut out, &members);
    proof {
        assert(out@ =~= spec_json_object(members.deep_view()));
    }
    out
}

/// Renders a one-to-one message body.
fn oto_message_json(title: &str, text: &str, robot_code: &str, user_id: &str) -> (r: Vec<u8>)
    ensures
        r@ == spec_oto_message_json(title@, text@, robot_code@, user_id@),
{
    let mut ids: Vec<u8> = Vec::new();
    ids.push(0x5b);
    crate::json::push_json_str(&mut ids, user_id);
    ids.push(0x5d);
    proof {
        assert(ids@ =~= seq![0x5bu8] + spec_json_str(user_id@) + seq![0x5du8]);
    }
    let mut members: Vec<Vec<u8>> = Vec::new();
    members.push(json_member("msgParam", msg_param_value(title, text)));
    members.push(json_member("msgKey", json_str_value("sampleMarkdown")));
    members.push(json_member("robotCode", json_str_value(robot_code)));
    members.push(json_member("userIds", ids));
    proof {
        assert(members.deep_view() =~~= seq![
            spec_json_member(
                ("msgParam")@,
                spec_json_quoted_bytes(spec_msg_param_json(title@, text@)),
            ),
            spec_json_member(("msgKey")@, spec_json_str(("sampleMarkdown")@)),
            spec_json_member(("robotCode")@, spec_json_str(robot_code@)),
            spec_json_member(
                ("userIds")@,
                seq![0x5bu8] + spec_json_str(user_id@) + seq![0x5du8],
            ),
        ]);
    }
    let mut out: Vec<u8> = Vec::new();
    push_json_object(&mut out, &members);
    proof {
        assert(out@ =~= spec_json_object(members.deep_view()));
    }
    out
}

/// Tests whether a string is exactly the digit one.
fn str_is_one(s: &str) -> (r: bool)
    ensures
        r == (s@ == ("1")@),
{
    let b = s.as_bytes();
    let r = b.len() == 1 && b[0] == 0x31;
    proof {
        reveal_strlit("1");
        assert(("1")@ =~= seq!['1']);
        assert(vstd::utf8::is_ascii_chars(("1")@));
        vstd::utf8::is_ascii_chars_encode_utf8(("1")@);
        assert(encode_utf8(("1")@) =~= seq![0x31u8]);
        if r {
            assert(encode_utf8(s@) =~= seq![0x31u8]);
            vstd::utf8::encode_utf8_decode_utf8(s@);
            vstd::utf8::encode_utf8_decode_utf8(("1")@);
            assert(s@ == ("1")@);
        } else {
            if s@ == ("1")@ {
                assert(encode_utf8(s@) =~= seq![0x31u8]);
                assert(false);
            }
        }
    }
    r
}


/// Blocking enterprise robot service: issues and caches the bearer token,
/// builds contact, approval and message requests, and judges the business
/// envelopes of their responses.
#[derive(Clone)]
pub struct BlockingEnterpriseService {
    webhook_base_url: BaseUrl,
    enterprise_base_url: BaseUrl,
    body_snippet: BodySnippetConfig,
    credentials: AppCredentials,
    robot_code: String,
    access_token_cache: Option<AccessTokenCache>,
}

/// What a prepared top-API call owes: a POST to the webhook-style base
/// with the token in the query, the rendered payload as body and no extra
/// headers.
pub open spec fn spec_topapi_send_ok(
    svc: BlockingEnterpriseService,
    segs: Seq<Seq<char>>,
    body: Seq<u8>,
    token: Seq<char>,
    p: PreparedRequest,
) -> bool {
    &&& p.method == HttpMethod::Post
    &&& p.headers@.len() == 0
    &&& (p.body matches Some(b) && b@ == body)
    &&& encode_utf8(p.url@) == spec_url_with_access_token(svc.spec_webhook_base(), segs, token)
}

/// What a prepared enterprise-style call owes: a POST to the enterprise
/// base carrying the token in the vendor's token header, with the
/// rendered payload as body.
pub open spec fn spec_enterprise_send_ok(
    svc: BlockingEnterpriseService,
    segs: Seq<Seq<char>>,
    body: Seq<u8>,
    token: Seq<char>,
    p: PreparedRequest,
) -> bool {
    &&& p.method == HttpMethod::Post
    &&& p.headers@.len() == 1
    &&& p.headers@[0].0@ == ("x-acs-dingtalk-access-token")@
    &&& p.headers@[0].1@ == token
    &&& (p.body matches Some(b) && b@ == body)
    &&& encode_utf8(p.url@) == spec_endpoint_bytes(
        encode_utf8(svc.spec_enterprise_base().spec_prefix()),
        encode_utf8(svc.spec_enterprise_base().spec_path()),
        spec_segments_bytes(segs),
    )
}

/// The outcome accepting a token response owes: a serialization error when
/// the body cannot be decoded; the vendor's business error when `errcode`
/// is non-zero; a business error with the fixed sentinel code when the
/// token is missing; the token otherwise.
pub open spec fn spec_accept_token_response(body: Seq<char>, r: Result<String>) -> bool {
    match token_envelope_of(body) {
        None => r matches Err(e) && e matches Error::Serialization { .. },
        Some((code, msg, tok, exp)) => {
            if code != 0 {
                r matches Err(e) && e matches Error::Api {
                    code: c,
                    message,
                    request_id,
                    body_snippet,
                } && c == code && message@ == msg && request_id is None && body_snippet is None
            } else {
                match tok {
                    None => r matches Err(e) && e matches Error::Api {
                        code: c,
                        message,
                        request_id,
                        body_snippet,
                    } && c == -1 && message@ == ("No access token returned")@ && request_id
                        is None && body_snippet is None,
                    Some(t) => r matches Ok(s) && s@ == t,
                }
            }
        },
    }
}

/// The outcome accepting a top-API response owes: a serialization error
/// when the body cannot be decoded; the vendor's business error, carrying
/// its correlation id, when `errcode` is non-zero; success otherwise.
pub open spec fn spec_accept_topapi_response(body: Seq<char>, r: Result<()>) -> bool {
    match topapi_envelope_of(body) {
        None => r matches Err(e) && e matches Error::Serialization { .. },
        Some((code, msg, request_id)) => {
            if code != 0 {
                r matches Err(e) && e matches Error::Api {
                    code: c,
                    message,
                    request_id: rid,
                    body_snippet,
                } && c == code && message@ == msg && rid.deep_view() == request_id
                    && body_snippet is None
            } else {
                r is Ok
            }
        },
    }
}

/// The outcome accepting an approval-creation response owes: a
/// serialization error when the body cannot be decoded; the vendor's
/// business error when `errcode` is non-zero; a business error with the
/// fixed sentinel code when the instance id is missing; the id otherwise.
pub open spec fn spec_accept_approval_create_response(
    body: Seq<char>,
    r: Result<String>,
) -> bool {
    match approval_create_envelope_of(body) {
        None => r matches Err(e) && e matches Error::Serialization { .. },
        Some((code, msg, pid, request_id)) => {
            if code != 0 {
                r matches Err(e) && e matches Error::Api {
                    code: c,
                    message,
                    request_id: rid,
                    body_snippet,
                } && c == code && message@ == msg && rid.deep_view() == request_id
                    && body_snippet is None
            } else {
                match pid {
                    None => r matches Err(e) && e matches Error::Api {
                        code: c,
                        message,
                        request_id: rid,
                        body_snippet,
                    } && c == -1 && message@ == ("Missing process_instance_id in response")@
                        && rid is None && body_snippet is None,
                    Some(p) => r matches Ok(s) && s@ == p,
                }
            }
        },
    }
}

impl BlockingEnterpriseService {
    /// The webhook-style base address (token issuance and top-API calls).
    pub closed spec fn spec_webhook_base(&self) -> BaseUrl {
        self.webhook_base_url
    }

    /// The enterprise-style base address (robot message calls).
    pub closed spec fn spec_enterprise_base(&self) -> BaseUrl {
        self.enterprise_base_url
    }

    /// The snippet configuration applied to error bodies.
    pub closed spec fn spec_body_snippet(&self) -> BodySnippetConfig {
        self.body_snippet
    }

    /// The application key.
    pub closed spec fn spec_appkey(&self) -> Seq<char> {
        self.credentials.spec_appkey()
    }

    /// The application secret.
    pub closed spec fn spec_appsecret(&self) -> Seq<char> {
        self.credentials.spec_appsecret()
    }

    /// The robot code messages are sent under.
    pub closed spec fn spec_robot_code(&self) -> Seq<char> {
        self.robot_code@
    }

    /// Whether the token cache is in use.
    pub closed spec fn spec_cache_enabled(&self) -> bool {
        self.access_token_cache is Some
    }

    /// The token cache, when one is in use.
    pub closed spec fn spec_cache(&self) -> Option<AccessTokenCache> {
        self.access_token_cache
    }

    /// Creates an enterprise service.  The token cache is instantiated
    /// only when enabled; disabling it means every call performs a full
    /// token-issuance round trip.
    pub fn new(
        webhook_base_url: BaseUrl,
        enterprise_base_url: BaseUrl,
        body_snippet: BodySnippetConfig,
        cache_access_token: bool,
        token_refresh_margin_millis: u64,
        appkey: String,
        appsecret: String,
        robot_code: String,
    ) -> (r: Self)
        ensures
            r.spec_webhook_base() == webhook_base_url,
            r.spec_enterprise_base() == enterprise_base_url,
            r.spec_body_snippet() == body_snippet,
            r.spec_appkey() == appkey@,
            r.spec_appsecret() == appsecret@,
            r.spec_robot_code() == robot_code@,
            r.spec_cache_enabled() == cache_access_token,
    {
        let access_token_cache = if cache_access_token {
            Some(AccessTokenCache::new(token_refresh_margin_millis))
        } else {
            None
        };
        Self {
            webhook_base_url,
            enterprise_base_url,
            body_snippet,
            credentials: AppCredentials::new(appkey, appsecret),
            robot_code,
            access_token_cache,
        }
    }

    /// Returns the snippet configuration, for judging response bodies.
    pub fn body_snippet_config(&self) -> (r: BodySnippetConfig)
        ensures
            r == self.spec_body_snippet(),
    {
        self.body_snippet
    }

    /// Returns the cached access token when the cache is enabled, holds
    /// one, and the entry is still fresh under the refresh margin.
    pub fn cached_access_token(&self) -> (r: Option<String>)
        ensures
            !self.spec_cache_enabled() ==> r is None,
            r matches Some(t) ==> self.spec_cache_enabled() && exists|
                e: crate::transport::CachedToken,
                now: u64,
            |
                spec_cache_fresh(e, now, self.spec_cache()->0.spec_refresh_margin()) && t@
                    == e.token@,
    {
        match &self.access_token_cache {
            Some(cache) => cache.get(),
            None => None,
        }
    }

    /// Prepares the token-issuance request: a GET of the `gettoken`
    /// endpoint carrying the credentials as query parameters.
    pub fn access_token_request(&self) -> (r: Result<PreparedRequest>)
        ensures
            r matches Ok(p) && p.method == HttpMethod::Get && p.headers@.len() == 0 && p.body
                is None && encode_utf8(p.url@) == spec_gettoken_url(
                self.spec_webhook_base(),
                self.spec_appkey(),
                self.spec_appsecret(),
            ),
    {
        let url = match gettoken_url(
            &self.webhook_base_url,
            self.credentials.appkey(),
            self.credentials.appsecret(),
        ) {
            Ok(u) => u,
            Err(e) => {
                return Err(e);
            },
        };
        Ok(PreparedRequest { method: HttpMethod::Get, url, headers: Vec::new(), body: None })
    }

    /// Judges a token-issuance response: a non-zero `errcode` or a missing
    /// token is a business error; otherwise the token is stored in the
    /// cache (when enabled) and returned.
    pub fn accept_token_response(&self, body: &str) -> (r: Result<String>)
        ensures
            spec_accept_token_response(body@, r),
    {
        match parse_token_envelope(body) {
            None => Err(
                Error::Serialization {
                    message: String::from_str("token response could not be decoded"),
                },
            ),
            Some((errcode, errmsg, access_token, expires_in)) => {
                if errcode != 0 {
                    Err(crate::transport::api_error(errcode, errmsg, None, None))
                } else {
                    match access_token {
                        None => Err(
                            crate::transport::api_error(
                                -1,
                                String::from_str("No access token returned"),
                                None,
                                None,
                            ),
                        ),
                        Some(token) => {
                            if let Some(cache) = &self.access_token_cache {
                                cache.store(token.clone(), expires_in);
                            }
                            Ok(token)
                        },
                    }
                }
            },
        }
    }

    /// Prepares a top-API call: a POST under the webhook-style base with
    /// the access token in the query.
    fn topapi_request(
        &self,
        segments: &[&str],
        access_token: &str,
        body: Vec<u8>,
    ) -> (r: Result<PreparedRequest>)
        ensures
            r matches Ok(p) && spec_topapi_send_ok(
                *self,
                segments.deep_view(),
                body@,
                access_token@,
                p,
            ),
    {
        let url = match url_with_access_token(&self.webhook_base_url, segments, access_token) {
            Ok(u) => u,
            Err(e) => {
                return Err(e);
            },
        };
        Ok(
            PreparedRequest {
                method: HttpMethod::Post,
                url,
                headers: Vec::new(),
                body: Some(body),
            },
        )
    }

    /// Prepares an enterprise-style call: a POST under the enterprise base
    /// with the access token in the vendor's token header.
    fn enterprise_request(
        &self,
        segments: &[&str],
        access_token: &str,
        body: Vec<u8>,
    ) -> (r: Result<PreparedRequest>)
        ensures
            r matches Ok(p) && spec_enterprise_send_ok(
                *self,
                segments.deep_view(),
                body@,
                access_token@,
                p,
            ),
    {
        let url = match endpoint_url(&self.enterprise_base_url, segments) {
            Ok(u) => u,
            Err(e) => {
                return Err(e);
            },
        };
        let mut headers: Vec<(String, String)> = Vec::new();
        headers.push(
            (String::from_str("x-acs-dingtalk-access-token"), access_token.to_owned()),
        );
        Ok(PreparedRequest { method: HttpMethod::Post, url, headers, body: Some(body) })
    }

    /// Judges a top-API response body by its business envelope.
    pub fn accept_topapi_response(&self, body: &str) -> (r: Result<()>)
        ensures
            spec_accept_topapi_response(body@, r),
    {
        match parse_topapi_envelope(body) {
            None => Err(
                Error::Serialization {
                    message: String::from_str("top-API response could not be decoded"),
                },
            ),
            Some((errcode, errmsg, request_id)) => {
                if errcode != 0 {
                    Err(crate::transport::api_error(errcode, errmsg, request_id, None))
                } else {
                    Ok(())
                }
            },
        }
    }

    /// Prepares a group message to a conversation.
    pub fn send_group_message(
        &self,
        access_token: &str,
        open_conversation_id: &str,
        title: &str,
        text: &str,
    ) -> (r: Result<PreparedRequest>)
        ensures
            r matches Ok(p) && spec_enterprise_send_ok(
                *self,
                seq![("v1.0")@, ("robot")@, ("groupMessages")@, ("send")@],
                spec_group_message_json(
                    title@,
                    text@,
                    self.spec_robot_code(),
                    open_conversation_id@,
                ),
                access_token@,
                p,
            ),
    {
        let body = group_message_json(
            title,
            text,
            self.robot_code.as_str(),
            open_conversation_id,
        );
        let mut segments: Vec<&str> = Vec::new();
        segments.push("v1.0");
        segments.push("robot");
        segments.push("groupMessages");
        segments.push("send");
        let segs = segments.as_slice();
        proof {
            assert(segs.deep_view() =~= seq![
                ("v1.0")@,
                ("robot")@,
                ("groupMessages")@,
                ("send")@,
            ]);
        }
        self.enterprise_request(segs, access_token, body)
    }

    /// Prepares a one-to-one message to a user.
    pub fn send_oto_message(
        &self,
        access_token: &str,
        user_id: &str,
        title: &str,
        text: &str,
    ) -> (r: Result<PreparedRequest>)
        ensures
            r matches Ok(p) && spec_enterprise_send_ok(
                *self,
                seq![("v1.0")@, ("robot")@, ("oToMessages")@, ("batchSend")@],
                spec_oto_message_json(title@, text@, self.spec_robot_code(), user_id@),
                access_token@,
                p,
            ),
    {
        let body = oto_message_json(title, text, self.robot_code.as_str(), user_id);
        let mut segments: Vec<&str> = Vec::new();
        segments.push("v1.0");
        segments.push("robot");
        segments.push("oToMessages");
        segments.push("batchSend");
        let segs = segments.as_slice();
        proof {
            assert(segs.deep_view() =~= seq![
                ("v1.0")@,
                ("robot")@,
                ("oToMessages")@,
                ("batchSend")@,
            ]);
        }
        self.enterprise_request(segs, access_token, body)
    }

    /// Prepares the deletion of a user.
    pub fn contact_delete_user(
        &self,
        access_token: &str,
        request: ContactDeleteUserRequest,
    ) -> (r: Result<PreparedRequest>)
        ensures
            r matches Ok(p) && spec_topapi_send_ok(
                *self,
                seq![("topapi")@, ("v2")@, ("user")@, ("delete")@],
                crate::enterprise_types::spec_delete_user_request_json(request),
                access_token@,
                p,
            ),
    {
        let body = request.to_json();
        let mut segments: Vec<&str> = Vec::new();
        segments.push("topapi");
        segments.push("v2");
        segments.push("user");
        segments.push("delete");
        let segs = segments.as_slice();
        proof {
            assert(segs.deep_view() =~= seq![("topapi")@, ("v2")@, ("user")@, ("delete")@]);
        }
        self.topapi_request(segs, access_token, body)
    }

    /// Prepares the deletion of a department.
    pub fn contact_delete_department(
        &self,
        access_token: &str,
        request: ContactDeleteDepartmentRequest,
    ) -> (r: Result<PreparedRequest>)
        ensures
            r matches Ok(p) && spec_topapi_send_ok(
                *self,
                seq![("topapi")@, ("v2")@, ("department")@, ("delete")@],
                crate::enterprise_types::spec_delete_department_request_json(request),
                access_token@,
                p,
            ),
    {
        let body = request.to_json();
        let mut segments: Vec<&str> = Vec::new();
        segments.push("topapi");
        segments.push("v2");
        segments.push("department");
        segments.push("delete");
        let segs = segments.as_slice();
        proof {
            assert(segs.deep_view() =~= seq![
                ("topapi")@,
                ("v2")@,
                ("department")@,
                ("delete")@,
            ]);
        }
        self.topapi_request(segs, access_token, body)
    }

    /// Prepares the creation of an approval process instance.
    pub fn approval_create_process_instance(
        &self,
        access_token: &str,
        request: ApprovalCreateProcessInstanceRequest,
    ) -> (r: Result<PreparedRequest>)
        ensures
            r matches Ok(p) && spec_topapi_send_ok(
                *self,
                seq![("topapi")@, ("processinstance")@, ("create")@],
                crate::enterprise_types::spec_approval_create_request_json(request),
                access_token@,
                p,
            ),
    {
        let body = request.to_json();
        let mut segments: Vec<&str> = Vec::new();
        segments.push("topapi");
        segments.push("processinstance");
        segments.push("create");
        let segs = segments.as_slice();
        proof {
            assert(segs.deep_view() =~= seq![("topapi")@, ("processinstance")@, ("create")@]);
        }
        self.topapi_request(segs, access_token, body)
    }

    /// Prepares the lookup of an approval process instance's details.
    pub fn approval_get_process_instance(
        &self,
        access_token: &str,
        process_instance_id: &str,
    ) -> (r: Result<PreparedRequest>)
        ensures
            r matches Ok(p) && spec_topapi_send_ok(
                *self,
                seq![("topapi")@, ("processinstance")@, ("get")@],
                spec_json_object(
                    seq![
                        spec_json_member(
                            ("process_instance_id")@,
                            spec_json_str(process_instance_id@),
                        ),
                    ],
                ),
                access_token@,
                p,
            ),
    {
        let mut members: Vec<Vec<u8>> = Vec::new();
        members.push(json_member("process_instance_id", json_str_value(process_instance_id)));
        proof {
            assert(members.deep_view() =~~= seq![
                spec_json_member(
                    ("process_instance_id")@,
                    spec_json_str(process_instance_id@),
                ),
            ]);
        }
        let mut body: Vec<u8> = Vec::new();
        push_json_object(&mut body, &members);
        proof {
            assert(body@ =~= spec_json_object(members.deep_view()));
        }
        let mut segments: Vec<&str> = Vec::new();
        segments.push("topapi");
        segments.push("processinstance");
        segments.push("get");
        let segs = segments.as_slice();
        proof {
            assert(segs.deep_view() =~= seq![("topapi")@, ("processinstance")@, ("get")@]);
        }
        self.topapi_request(segs, access_token, body)
    }

    /// Judges an approval-creation response and extracts the instance id.
    pub fn accept_approval_create_response(&self, body: &str) -> (r: Result<String>)
        ensures
            spec_accept_approval_create_response(body@, r),
    {
        match parse_approval_create_envelope(body) {
            None => Err(
                Error::Serialization {
                    message: String::from_str(
                        "approval creation response could not be decoded",
                    ),
                },
            ),
            Some((errcode, errmsg, process_instance_id, request_id)) => {
                if errcode != 0 {
                    Err(crate::transport::api_error(errcode, errmsg, request_id, None))
                } else {
                    match process_instance_id {
                        None => Err(
                            crate::transport::api_error(
                                -1,
                                String::from_str("Missing process_instance_id in response"),
                                None,
                                None,
                            ),
                        ),
                        Some(pid) => Ok(pid),
                    }
                }
            },
        }
    }

    /// Prepares the listing of approval process instance ids.
    pub fn approval_list_process_instance_ids(
        &self,
        access_token: &str,
        request: ApprovalListProcessInstanceIdsRequest,
    ) -> (r: Result<PreparedRequest>)
        ensures
            r matches Ok(p) && spec_topapi_send_ok(
                *self,
                seq![("topapi")@, ("processinstance")@, ("listids")@],
                crate::enterprise_types::spec_approval_list_ids_request_json(request),
                access_token@,
                p,
            ),
    {
        let body = request.to_json();
        let mut segments: Vec<&str> = Vec::new();
        segments.push("topapi");
        segments.push("processinstance");
        segments.push("listids");
        let segs = segments.as_slice();
        proof {
            assert(segs.deep_view() =~= seq![
                ("topapi")@,
                ("processinstance")@,
                ("listids")@,
            ]);
        }
        self.topapi_request(segs, access_token, body)
    }

    /// Prepares the termination of an approval process instance; the
    /// endpoint takes the payload wrapped under a `request` key.
    pub fn approval_terminate_process_instance(
        &self,
        access_token: &str,
        request: ApprovalTerminateProcessInstanceRequest,
    ) -> (r: Result<PreparedRequest>)
        ensures
            r matches Ok(p) && spec_topapi_send_ok(
                *self,
                seq![("topapi")@, ("process")@, ("instance")@, ("terminate")@],
                spec_json_object(
                    seq![
                        spec_json_member(
                            ("request")@,
                            crate::enterprise_types::spec_approval_terminate_request_json(
                                request,
                            ),
                        ),
                    ],
                ),
                access_token@,
                p,
            ),
    {
        let inner = request.to_json();
        let mut members: Vec<Vec<u8>> = Vec::new();
        members.push(json_member("request", inner));
        proof {
            assert(members.deep_view() =~~= seq![
                spec_json_member(
                    ("request")@,
                    crate::enterprise_types::spec_approval_terminate_request_json(request),
                ),
            ]);
        }
        let mut body: Vec<u8> = Vec::new();
        push_json_object(&mut body, &members);
        proof {
            assert(body@ =~= spec_json_object(members.deep_view()));
        }
        let mut segments: Vec<&str> = Vec::new();
        segments.push("topapi");
        segments.push("process");
        segments.push("instance");
        segments.push("terminate");
        let segs = segments.as_slice();
        proof {
            assert(segs.deep_view() =~= seq![
                ("topapi")@,
                ("process")@,
                ("instance")@,
                ("terminate")@,
            ]);
        }
        self.topapi_request(segs, access_token, body)
    }

    /// Decides how to reply to an incoming callback and prepares the
    /// message: a private conversation is answered one-to-one to the
    /// sender, any other conversation as a group message; a missing
    /// sender or conversation id is a configuration error.
    pub fn reply_message(
        &self,
        access_token: &str,
        conversation_type: Option<&str>,
        sender_staff_id: Option<&str>,
        conversation_id: Option<&str>,
        title: &str,
        text: &str,
    ) -> (r: Result<PreparedRequest>)
        ensures
            ({
                let private = conversation_type.deep_view() matches Some(t) && t == ("1")@;
                if private {
                    match sender_staff_id.deep_view() {
                        None => r matches Err(e) && e matches Error::InvalidConfig { .. },
                        Some(u) => (r matches Ok(p) && spec_enterprise_send_ok(
                            *self,
                            seq![("v1.0")@, ("robot")@, ("oToMessages")@, ("batchSend")@],
                            spec_oto_message_json(title@, text@, self.spec_robot_code(), u),
                            access_token@,
                            p,
                        )),
                    }
                } else {
                    match conversation_id.deep_view() {
                        None => r matches Err(e) && e matches Error::InvalidConfig { .. },
                        Some(c) => (r matches Ok(p) && spec_enterprise_send_ok(
                            *self,
                            seq![("v1.0")@, ("robot")@, ("groupMessages")@, ("send")@],
                            spec_group_message_json(
                                title@,
                                text@,
                                self.spec_robot_code(),
                                c,
                            ),
                            access_token@,
                            p,
                        )),
                    }
                }
            }),
    {
        let private = match conversation_type {
            Some(t) => str_is_one(t),
            None => false,
        };
        if private {
            match sender_staff_id {
                None => Err(
                    Error::InvalidConfig {
                        message: String::from_str("Missing senderStaffId"),
                    },
                ),
                Some(user_id) => self.send_oto_message(access_token, user_id, title, text),
            }
        } else {
            match conversation_id {
                None => Err(
                    Error::InvalidConfig {
                        message: String::from_str("Missing conversationId"),
                    },
                ),
                Some(cid) => self.send_group_message(access_token, cid, title, text),
            }
        }
    }
}

} // verus!
