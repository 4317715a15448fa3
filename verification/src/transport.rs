//! The authenticated transport substrate: the access-token cache, webhook
//! URL building, and the validation of business-envelope responses.
//!
//! The cache holds one bearer token with an expiry instant, behind a
//! reader/writer lock shared by reference counting across cloned handles;
//! freshness and expiry arithmetic are pure, verified functions of the
//! entry and the clock reading.  Response bodies are reduced by a JSON
//! parser to the envelope fields the rules read; everything decided on
//! those fields is verified.

use vstd::prelude::*;
use vstd::rwlock::{RwLock, RwLockPredicate};
use vstd::utf8::{encode_utf8, encode_utf8_valid_utf8, valid_utf8, valid_utf8_concat};

use std::sync::Arc;

use crate::encode::{
    lemma_dec_bytes_ascii, lemma_form_enc_ascii, push_form_enc, spec_dec_bytes, spec_form_enc,
};
use crate::error::{Error, Result};
use crate::redact::{redact_text, spec_redact_text, spec_truncate_snippet, truncate_snippet};
use crate::signature::{
    clock_now_millis, create_signature, current_timestamp_millis, spec_dec_chars,
    spec_signature_of,
};
use crate::text::{lemma_ascii_valid_utf8, push_str_bytes, string_from_utf8};
use crate::url_norm::{endpoint_url, spec_endpoint_bytes, spec_segments_bytes, BaseUrl};

verus! {

/// Configuration for attaching a redacted body snippet to API errors.
#[derive(Debug, Clone, Copy)]
pub struct BodySnippetConfig {
    /// Whether body snippet capture is enabled.
    pub enabled: bool,
    /// Maximum number of bytes to keep.
    pub max_bytes: usize,
}

impl Default for BodySnippetConfig {
    /// Snippet capture is on by default, with a 4096-byte budget.
    fn default() -> (r: Self)
        ensures
            r.enabled == true,
            r.max_bytes == 4096,
    {
        Self { enabled: true, max_bytes: 4096 }
    }
}

/// Builds a business error value carrying the vendor's code and message,
/// the correlation id, and the retained snippet.
pub fn api_error(
    code: i64,
    message: String,
    request_id: Option<String>,
    body_snippet: Option<String>,
) -> (e: Error)
    ensures
        e == (Error::Api { code, message, request_id, body_snippet }),
{
    Error::Api { code, message, request_id, body_snippet }
}

/// The snippet owed for an error body: nothing when capture is disabled,
/// else the body truncated to the byte budget and redacted.
pub open spec fn spec_body_snippet_for_error(
    body: Seq<char>,
    config: BodySnippetConfig,
    r: Option<Seq<char>>,
) -> bool {
    if config.enabled {
        r matches Some(s) && encode_utf8(s) == spec_redact_text(
            spec_truncate_snippet(encode_utf8(body), config.max_bytes as nat),
        )
    } else {
        r is None
    }
}

/// Produces the redacted, length-bounded snippet retained in an error, or
/// nothing when capture is disabled.
pub fn body_snippet_for_error(body: &str, config: BodySnippetConfig) -> (r: Option<String>)
    ensures
        spec_body_snippet_for_error(body@, config, r.deep_view()),
{
    if !config.enabled {
        return None;
    }
    let snippet = truncate_snippet(body, config.max_bytes);
    Some(redact_text(snippet.as_str()))
}

/// The envelope fields of a JSON body: `errcode` and `errmsg`, each absent
/// when the body is not JSON or lacks the field.
pub uninterp spec fn standard_envelope_of(body: Seq<char>) -> (Option<i64>, Option<Seq<char>>);

/// Relies on serde_json: reads the business-envelope fields `errcode` and
/// `errmsg` from a JSON body, each absent when the body does not parse or
/// lacks the field.
#[verifier::external_body]
fn parse_standard_envelope(body: &str) -> (r: (Option<i64>, Option<String>))
    ensures
        r.deep_view() == standard_envelope_of(body@),
{
    match serde_json::from_str::<serde_json::Value>(body) {
        Err(_) => (None, None),
        Ok(v) => {
            let errcode = v.get("errcode").and_then(serde_json::Value::as_i64);
            let errmsg = v.get("errmsg").and_then(serde_json::Value::as_str).map(
                str::to_owned,
            );
            (errcode, errmsg)
        },
    }
}

/// The outcome `validate_standard_api_response` owes: a business error
/// exactly when the body carries a non-zero `errcode`, with that code, the
/// body's message (or a fixed fallback), no correlation id, and the snippet
/// the configuration calls for; success otherwise.
pub open spec fn spec_validate_standard_api_response(
    body: Seq<char>,
    config: BodySnippetConfig,
    r: Result<()>,
) -> bool {
    let (code, msg) = standard_envelope_of(body);
    match code {
        Some(c) => {
            if c != 0 {
                r matches Err(e) && e matches Error::Api {
                    code,
                    message,
                    request_id,
                    body_snippet,
                } && code == c && (match msg {
                    Some(m) => message@ == m,
                    None => message@ == ("unknown dingtalk api error")@,
                }) && request_id is None && spec_body_snippet_for_error(
                    body,
                    config,
                    body_snippet.deep_view(),
                )
            } else {
                r is Ok
            }
        },
        None => r is Ok,
    }
}

/// Checks a decoded body for the business envelope: a non-zero `errcode`
/// becomes an API error carrying the vendor message and a redacted,
/// length-bounded snippet when capture is enabled; anything else passes.
pub fn validate_standard_api_response(body: &str, config: BodySnippetConfig) -> (r: Result<()>)
    ensures
        spec_validate_standard_api_response(body@, config, r),
{
    let (errcode, errmsg) = parse_standard_envelope(body);
    if let Some(code) = errcode {
        if code != 0 {
            let message = match errmsg {
                Some(m) => m,
                None => String::from_str("unknown dingtalk api error"),
            };
            let snippet = body_snippet_for_error(body, config);
            return Err(api_error(code, message, None, snippet));
        }
    }
    Ok(())
}

/// A cached bearer token with its expiry instant in epoch milliseconds.
pub struct CachedToken {
    /// The bearer token.
    pub token: String,
    /// The instant the token expires, in milliseconds since the epoch.
    pub expires_at_millis: u64,
}

/// The lock predicate of the token cache: any entry may be stored.
pub struct TokenCachePred;

impl RwLockPredicate<Option<CachedToken>> for TokenCachePred {
    open spec fn inv(self, v: Option<CachedToken>) -> bool {
        true
    }
}

/// The effective token lifetime in seconds: a positive server-reported
/// value clamped to the 30-second floor, and the conservative 7200-second
/// default when the server omits it or reports a non-positive value.
pub open spec fn spec_normalize_token_ttl(expires_in_seconds: Option<i64>) -> u64 {
    match expires_in_seconds {
        Some(v) => {
            if v > 0 {
                if v < 30 {
                    30u64
                } else {
                    v as u64
                }
            } else {
                7200u64
            }
        },
        None => 7200u64,
    }
}

/// Clamps a server-reported token lifetime to the minimum floor, falling
/// back to the conservative default when none or a non-positive one was
/// reported.
pub fn normalize_token_ttl(expires_in_seconds: Option<i64>) -> (r: u64)
    ensures
        r == spec_normalize_token_ttl(expires_in_seconds),
{
    match expires_in_seconds {
        Some(v) => {
            if v > 0 {
                if v < 30 {
                    30
                } else {
                    v as u64
                }
            } else {
                7200
            }
        },
        None => 7200,
    }
}

/// The expiry instant a stored token gets: the store instant plus the
/// effective lifetime, or the store instant itself where that sum cannot
/// be represented.
pub open spec fn spec_store_expiry(now_millis: u64, ttl_seconds: u64) -> u64 {
    if ttl_seconds * 1000 + now_millis <= u64::MAX {
        (now_millis + ttl_seconds * 1000) as u64
    } else {
        now_millis
    }
}

/// Computes the expiry instant for a token stored now with the given
/// effective lifetime.
pub fn store_expiry(now_millis: u64, ttl_seconds: u64) -> (r: u64)
    ensures
        r == spec_store_expiry(now_millis, ttl_seconds),
{
    match ttl_seconds.checked_mul(1000) {
        Some(ttl_millis) => match now_millis.checked_add(ttl_millis) {
            Some(expiry) => expiry,
            None => now_millis,
        },
        None => now_millis,
    }
}

/// Whether a cache entry is still fresh at `now` under the refresh margin:
/// the entry must outlive the current instant by more than the margin.
pub open spec fn spec_cache_fresh(entry: CachedToken, now_millis: u64, margin_millis: u64) -> bool {
    now_millis + margin_millis < entry.expires_at_millis
}

/// What a cache lookup owes: the stored token exactly when the entry is
/// present and still fresh under the margin, nothing otherwise.
pub open spec fn spec_cache_lookup(
    entry: Option<CachedToken>,
    now_millis: u64,
    margin_millis: u64,
    r: Option<Seq<char>>,
) -> bool {
    match entry {
        Some(e) => {
            if spec_cache_fresh(e, now_millis, margin_millis) {
                r matches Some(t) && t == e.token@
            } else {
                r is None
            }
        },
        None => r is None,
    }
}

/// Reads a cache entry at an instant: the stored token only if it outlives
/// the instant by more than the refresh margin.
pub fn cache_lookup(entry: &Option<CachedToken>, now_millis: u64, margin_millis: u64) -> (r:
    Option<String>)
    ensures
        spec_cache_lookup(*entry, now_millis, margin_millis, r.deep_view()),
{
    match entry {
        Some(e) => {
            match now_millis.checked_add(margin_millis) {
                Some(refresh_at) => {
                    if refresh_at < e.expires_at_millis {
                        Some(e.token.clone())
                    } else {
                        None
                    }
                },
                None => None,
            }
        },
        None => None,
    }
}

/// Shared, mutable cache of one bearer token with a refresh margin, safe
/// for concurrent readers and writers across cloned handles.  Entries are
/// replaced wholesale under a writer lock; reads share a reader lock; no
/// lock is held across any outside call.
#[derive(Clone)]
pub struct AccessTokenCache {
    inner: Arc<RwLock<Option<CachedToken>, TokenCachePred>>,
    refresh_margin_millis: u64,
}

impl AccessTokenCache {
    /// The refresh margin this cache applies, in milliseconds.
    pub closed spec fn spec_refresh_margin(&self) -> u64 {
        self.refresh_margin_millis
    }

    /// Creates an empty cache with the given refresh margin in
    /// milliseconds.
    pub fn new(refresh_margin_millis: u64) -> (r: Self)
        ensures
            r.spec_refresh_margin() == refresh_margin_millis,
    {
        AccessTokenCache {
            inner: Arc::new(RwLock::new(None, Ghost(TokenCachePred))),
            refresh_margin_millis,
        }
    }

    /// Returns the cached token if one is stored and still fresh: it must
    /// outlive the current instant by more than the refresh margin.  The
    /// clock is read once; the entry is read under a shared reader lock.
    pub fn get(&self) -> (r: Option<String>)
        ensures
            r matches Some(t) ==> exists|e: CachedToken, now: u64|
                spec_cache_fresh(e, now, self.spec_refresh_margin()) && t@ == e.token@,
    {
        let now = match clock_now_millis() {
            Some(now) => now,
            None => {
                return None;
            },
        };
        let handle = self.inner.acquire_read();
        let entry = handle.borrow();
        let r = cache_lookup(entry, now, self.refresh_margin_millis);
        proof {
            if r is Some {
                let e = entry->0;
                assert(spec_cache_fresh(e, now, self.spec_refresh_margin()) && r->0@ == e.token@);
            }
        }
        handle.release_read();
        r
    }

    /// Stores a token with the expiry the server reported (clamped to the
    /// floor, or the conservative default when absent), replacing any
    /// previous entry in one atomic swap under the writer lock.
    pub fn store(&self, token: String, expires_in_seconds: Option<i64>) {
        let ttl_seconds = normalize_token_ttl(expires_in_seconds);
        let now = match clock_now_millis() {
            Some(now) => now,
            None => 0,
        };
        let expires_at_millis = store_expiry(now, ttl_seconds);
        let (_, write_handle) = self.inner.acquire_write();
        write_handle.release_write(Some(CachedToken { token, expires_at_millis }));
    }
}

/// The query bytes of an unsigned webhook URL: only the access token,
/// form-urlencoded.
pub open spec fn spec_webhook_query_unsigned(token: Seq<char>) -> Seq<u8> {
    encode_utf8(("?access_token=")@) + spec_form_enc(encode_utf8(token))
}

/// The query bytes of a signed webhook URL: the access token, the
/// millisecond timestamp, and the percent-encoded signature over that
/// timestamp and the secret.
pub open spec fn spec_webhook_query_signed(token: Seq<char>, n: nat, secret: Seq<char>) -> Seq<
    u8,
> {
    spec_webhook_query_unsigned(token) + encode_utf8(("&timestamp=")@) + spec_dec_bytes(n)
        + encode_utf8(("&sign=")@) + spec_signature_of(spec_dec_chars(n), secret)
}

/// The serialization of the webhook send endpoint for a base address.
pub open spec fn spec_webhook_send_endpoint(base: BaseUrl) -> Seq<u8> {
    spec_endpoint_bytes(
        encode_utf8(base.spec_prefix()),
        encode_utf8(base.spec_path()),
        spec_segments_bytes(seq![("robot")@, ("send")@]),
    )
}

/// Builds the webhook send URL for a robot token.  Without a secret the
/// query carries only `access_token`; with one, a fresh millisecond
/// timestamp and the signature over it are appended.  Fails only with a
/// Timestamp or Signature error, and only when a secret is configured.
pub fn build_webhook_url(base_url: &BaseUrl, token: &str, secret: Option<&str>) -> (r: Result<
    String,
>)
    ensures
        secret is None ==> (r matches Ok(u) && encode_utf8(u@) == spec_webhook_send_endpoint(
            *base_url,
        ) + spec_webhook_query_unsigned(token@)),
        secret matches Some(s) ==> (match r {
            Ok(u) => exists|n: nat|
                encode_utf8(u@) == spec_webhook_send_endpoint(*base_url)
                    + spec_webhook_query_signed(token@, n, s@),
            Err(e) => e == Error::Timestamp || e == Error::Signature,
        }),
{
    broadcast use valid_utf8_concat;

    let mut segments: Vec<&str> = Vec::new();
    segments.push("robot");
    segments.push("send");
    let segs = segments.as_slice();
    let endpoint = match endpoint_url(base_url, segs) {
        Ok(u) => u,
        Err(e) => {
            return Err(e);
        },
    };
    proof {
        assert(segs.deep_view() =~= seq![("robot")@, ("send")@]);
        assert(encode_utf8(endpoint@) == spec_webhook_send_endpoint(*base_url));
    }
    let mut out: Vec<u8> = Vec::new();
    push_str_bytes(&mut out, endpoint.as_str());
    push_str_bytes(&mut out, "?access_token=");
    push_form_enc(&mut out, token.as_bytes());
    proof {
        let a = encode_utf8(endpoint@);
        let b = encode_utf8(("?access_token=")@);
        let c = spec_form_enc(encode_utf8(token@));
        encode_utf8_valid_utf8(endpoint@);
        encode_utf8_valid_utf8(("?access_token=")@);
        lemma_form_enc_ascii(encode_utf8(token@));
        lemma_ascii_valid_utf8(c);
        assert(valid_utf8(a + b));
        assert(valid_utf8((a + b) + c));
        assert(out@ =~= (a + b) + c);
        assert(valid_utf8(out@));
        assert(out@ =~= spec_webhook_send_endpoint(*base_url) + spec_webhook_query_unsigned(
            token@,
        ));
    }
    match secret {
        None => Ok(string_from_utf8(out)),
        Some(secret) => {
            let timestamp = match current_timestamp_millis() {
                Ok(t) => t,
                Err(e) => {
                    return Err(e);
                },
            };
            let sign = match create_signature(timestamp.as_str(), secret) {
                Ok(s) => s,
                Err(e) => {
                    return Err(e);
                },
            };
            let ghost n: nat = choose|n: nat| timestamp@ == spec_dec_chars(n);
            push_str_bytes(&mut out, "&timestamp=");
            push_str_bytes(&mut out, timestamp.as_str());
            push_str_bytes(&mut out, "&sign=");
            push_str_bytes(&mut out, sign.as_str());
            proof {
                let u = spec_webhook_send_endpoint(*base_url) + spec_webhook_query_unsigned(
                    token@,
                );
                let t1 = encode_utf8(("&timestamp=")@);
                let ts = encode_utf8(timestamp@);
                let s1 = encode_utf8(("&sign=")@);
                let sg = encode_utf8(sign@);
                encode_utf8_valid_utf8(("&timestamp=")@);
                encode_utf8_valid_utf8(timestamp@);
                encode_utf8_valid_utf8(("&sign=")@);
                encode_utf8_valid_utf8(sign@);
                assert(encode_utf8(timestamp@) == spec_dec_bytes(n)) by {
                    lemma_dec_bytes_ascii(n);
                    lemma_ascii_valid_utf8(spec_dec_bytes(n));
                    vstd::utf8::decode_utf8_encode_utf8(spec_dec_bytes(n));
                }
                assert(valid_utf8(u + t1));
                assert(valid_utf8((u + t1) + ts));
                assert(valid_utf8(((u + t1) + ts) + s1));
                assert(valid_utf8((((u + t1) + ts) + s1) + sg));
                assert(out@ =~= (((u + t1) + ts) + s1) + sg);
                assert(valid_utf8(out@));
                assert(out@ =~= spec_webhook_send_endpoint(*base_url)
                    + spec_webhook_query_signed(token@, n, secret@));
            }
            Ok(string_from_utf8(out))
        },
    }
}


/// A token stored with any positive reported lifetime below the minimum
/// floor is already considered imminently stale by a lookup whose refresh
/// margin is at least the floor: the lookup returns nothing.
pub proof fn lemma_short_ttl_store_is_stale(
    entry: CachedToken,
    now_millis: u64,
    margin_millis: u64,
    expires_in_seconds: i64,
)
    requires
        0 < expires_in_seconds < 30,
        margin_millis >= 30000,
        entry.expires_at_millis == spec_store_expiry(
            now_millis,
            spec_normalize_token_ttl(Some(expires_in_seconds)),
        ),
    ensures
        !spec_cache_fresh(entry, now_millis, margin_millis),
        spec_cache_lookup(Some(entry), now_millis, margin_millis, None),
{
    assert(spec_normalize_token_ttl(Some(expires_in_seconds)) == 30u64);
}

/// A token stored with a sixty-second lifetime is returned by an
/// immediate lookup under a zero refresh margin.  The store instant must
/// leave room for the lifetime; at the very end of the representable
/// clock the stored expiry saturates and the entry counts as stale.
pub proof fn lemma_fresh_store_is_returned(entry: CachedToken, now_millis: u64)
    requires
        now_millis + 60000 <= u64::MAX,
        entry.expires_at_millis == spec_store_expiry(
            now_millis,
            spec_normalize_token_ttl(Some(60)),
        ),
    ensures
        spec_cache_fresh(entry, now_millis, 0),
        spec_cache_lookup(Some(entry), now_millis, 0, Some(entry.token@)),
{
    assert(spec_normalize_token_ttl(Some(60)) == 60u64);
}

} // verus!
