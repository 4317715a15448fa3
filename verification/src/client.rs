//! Client configuration: the builder every service is created from.
//!
//! The builder collects timeouts, base addresses, retry policy, default
//! headers and the token-cache and body-snippet settings.  Base addresses
//! are validated and canonicalized as they are set; everything else is a
//! plain value handed on to the HTTP collaborator when a client is built
//! around this configuration.

use vstd::prelude::*;

use crate::error::Result;
use crate::retry::RetryConfig;
use crate::transport::BodySnippetConfig;
use crate::url_norm::{base_url_from_parts, normalize_base_url, spec_normalize_base_url, BaseUrl};

verus! {

/// Builder for a client configuration.
#[derive(Debug, Clone)]
pub struct ClientBuilder {
    /// Client name (user-agent like identifier).
    pub client_name: String,
    /// Per-request timeout in milliseconds.
    pub request_timeout_millis: u64,
    /// Total request deadline in milliseconds, if any.
    pub total_timeout_millis: Option<u64>,
    /// TCP connect timeout in milliseconds.
    pub connect_timeout_millis: u64,
    /// Whether the system proxy is bypassed.
    pub no_system_proxy: bool,
    /// Base address of the webhook-style API.
    pub webhook_base_url: BaseUrl,
    /// Base address of the enterprise-style API.
    pub enterprise_base_url: BaseUrl,
    /// Retry policy handed to the HTTP collaborator, if any.
    pub retry_config: Option<RetryConfig>,
    /// Whether non-idempotent requests may be retried.
    pub retry_non_idempotent: bool,
    /// Headers attached to every request.
    pub default_headers: Vec<(String, String)>,
    /// Whether the enterprise access-token cache is used.
    pub cache_access_token: bool,
    /// Refresh margin for cached access-token expiry, in milliseconds.
    pub token_refresh_margin_millis: u64,
    /// Body snippet capture for API errors.
    pub body_snippet: BodySnippetConfig,
}

/// The default configuration values.
pub open spec fn spec_builder_defaults(b: ClientBuilder) -> bool {
    &&& b.client_name@ == ("dingtalk_sdk/0.1.0")@
    &&& b.request_timeout_millis == 10000
    &&& b.total_timeout_millis is None
    &&& b.connect_timeout_millis == 5000
    &&& b.no_system_proxy == false
    &&& b.webhook_base_url.spec_prefix() == ("https://oapi.dingtalk.com")@
    &&& b.webhook_base_url.spec_path() == ("/")@
    &&& b.enterprise_base_url.spec_prefix() == ("https://api.dingtalk.com")@
    &&& b.enterprise_base_url.spec_path() == ("/")@
    &&& b.retry_config is None
    &&& b.retry_non_idempotent == false
    &&& b.default_headers@ =~= Seq::<(String, String)>::empty()
    &&& b.cache_access_token == true
    &&& b.token_refresh_margin_millis == 120000
    &&& b.body_snippet.enabled == true
    &&& b.body_snippet.max_bytes == 4096
}

impl Default for ClientBuilder {
    /// The defaults: ten-second request and five-second connect timeouts,
    /// no total deadline, the vendor's two public base addresses, no retry
    /// policy, the token cache on with a two-minute refresh margin, and
    /// snippet capture on with a 4096-byte budget.
    fn default() -> (r: Self)
        ensures
            spec_builder_defaults(r),
    {
        ClientBuilder::new()
    }
}

impl ClientBuilder {
    /// Creates a builder with defaults.
    pub fn new() -> (r: Self)
        ensures
            spec_builder_defaults(r),
    {
        Self {
            client_name: String::from_str("dingtalk_sdk/0.1.0"),
            request_timeout_millis: 10000,
            total_timeout_millis: None,
            connect_timeout_millis: 5000,
            no_system_proxy: false,
            webhook_base_url: base_url_from_parts(
                String::from_str("https://oapi.dingtalk.com"),
                String::from_str("/"),
            ),
            enterprise_base_url: base_url_from_parts(
                String::from_str("https://api.dingtalk.com"),
                String::from_str("/"),
            ),
            retry_config: None,
            retry_non_idempotent: false,
            default_headers: Vec::new(),
            cache_access_token: true,
            token_refresh_margin_millis: 120000,
            body_snippet: BodySnippetConfig { enabled: true, max_bytes: 4096 },
        }
    }

    /// Sets the client name (user-agent like identifier).
    pub fn client_name(self, value: String) -> (r: Self)
        ensures
            r == (ClientBuilder { client_name: value, ..self }),
    {
        Self { client_name: value, ..self }
    }

    /// Sets the per-request timeout in milliseconds.
    pub fn request_timeout(self, millis: u64) -> (r: Self)
        ensures
            r == (ClientBuilder { request_timeout_millis: millis, ..self }),
    {
        Self { request_timeout_millis: millis, ..self }
    }

    /// Sets the total request deadline in milliseconds.
    pub fn total_timeout(self, millis: u64) -> (r: Self)
        ensures
            r == (ClientBuilder { total_timeout_millis: Some(millis), ..self }),
    {
        Self { total_timeout_millis: Some(millis), ..self }
    }

    /// Sets the TCP connect timeout in milliseconds.
    pub fn connect_timeout(self, millis: u64) -> (r: Self)
        ensures
            r == (ClientBuilder { connect_timeout_millis: millis, ..self }),
    {
        Self { connect_timeout_millis: millis, ..self }
    }

    /// Enables or disables bypassing the system proxy.
    pub fn no_system_proxy(self, enabled: bool) -> (r: Self)
        ensures
            r == (ClientBuilder { no_system_proxy: enabled, ..self }),
    {
        Self { no_system_proxy: enabled, ..self }
    }

    /// Overrides the webhook API base address, validating it first.
    pub fn webhook_base_url(self, value: &str) -> (r: Result<Self>)
        ensures
            r matches Ok(b) ==> (spec_normalize_base_url(value@, Ok(b.webhook_base_url)) && b
                == (ClientBuilder { webhook_base_url: b.webhook_base_url, ..self })),
            r matches Err(e) ==> spec_normalize_base_url(value@, Err(e)),
    {
        match normalize_base_url(value) {
            Ok(base) => Ok(Self { webhook_base_url: base, ..self }),
            Err(e) => Err(e),
        }
    }

    /// Overrides the enterprise API base address, validating it first.
    pub fn enterprise_base_url(self, value: &str) -> (r: Result<Self>)
        ensures
            r matches Ok(b) ==> (spec_normalize_base_url(value@, Ok(b.enterprise_base_url))
                && b == (ClientBuilder { enterprise_base_url: b.enterprise_base_url, ..self })),
            r matches Err(e) ==> spec_normalize_base_url(value@, Err(e)),
    {
        match normalize_base_url(value) {
            Ok(base) => Ok(Self { enterprise_base_url: base, ..self }),
            Err(e) => Err(e),
        }
    }

    /// Sets the retry configuration.
    pub fn retry(self, value: RetryConfig) -> (r: Self)
        ensures
            r == (ClientBuilder { retry_config: Some(value), ..self }),
    {
        Self { retry_config: Some(value), ..self }
    }

    /// Configures standard retries from explicit values.
    pub fn with_retry(self, max_retries: usize, base_backoff_millis: u64) -> (r: Self)
        ensures
            r == (ClientBuilder {
                retry_config: Some(RetryConfig { max_retries, base_backoff_millis }),
                ..self
            }),
    {
        Self { retry_config: Some(RetryConfig::new(max_retries, base_backoff_millis)), ..self }
    }

    /// Enables retry for non-idempotent requests.
    pub fn retry_non_idempotent(self, enabled: bool) -> (r: Self)
        ensures
            r == (ClientBuilder { retry_non_idempotent: enabled, ..self }),
    {
        Self { retry_non_idempotent: enabled, ..self }
    }

    /// Adds a default header to all requests.
    pub fn default_header(self, name: String, value: String) -> (r: Self)
        ensures
            r.default_headers@ == self.default_headers@.push((name, value)),
            r == (ClientBuilder { default_headers: r.default_headers, ..self }),
    {
        let mut headers = self.default_headers;
        headers.push((name, value));
        Self { default_headers: headers, ..self }
    }

    /// Enables or disables the enterprise access-token cache.
    pub fn cache_access_token(self, enabled: bool) -> (r: Self)
        ensures
            r == (ClientBuilder { cache_access_token: enabled, ..self }),
    {
        Self { cache_access_token: enabled, ..self }
    }

    /// Sets the refresh margin for cached access-token expiry.
    pub fn token_refresh_margin(self, millis: u64) -> (r: Self)
        ensures
            r == (ClientBuilder { token_refresh_margin_millis: millis, ..self }),
    {
        Self { token_refresh_margin_millis: millis, ..self }
    }

    /// Configures body snippet capture for API errors.
    pub fn body_snippet(self, value: BodySnippetConfig) -> (r: Self)
        ensures
            r == (ClientBuilder { body_snippet: value, ..self }),
    {
        Self { body_snippet: value, ..self }
    }
}

} // verus!
