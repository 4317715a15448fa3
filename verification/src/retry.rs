//! Retry policy configuration handed to the HTTP collaborator.

use vstd::prelude::*;

verus! {

/// Retry policy configuration for SDK HTTP requests.
///
/// `max_retries` means retry attempts after the first request, so
/// `max_retries = 2` allows up to 3 total attempts.
#[derive(Debug, Clone, Copy, PartialEq, Eq, Structural)]
pub struct RetryConfig {
    /// Maximum retry attempts after the initial request.
    pub max_retries: usize,
    /// Base exponential backoff duration, in milliseconds.
    pub base_backoff_millis: u64,
}

impl RetryConfig {
    /// Creates a retry configuration with explicit values.
    pub fn new(max_retries: usize, base_backoff_millis: u64) -> (r: Self)
        ensures
            r.max_retries == max_retries,
            r.base_backoff_millis == base_backoff_millis,
    {
        Self { max_retries, base_backoff_millis }
    }

    /// Returns a conservative default policy.
    pub fn standard() -> (r: Self)
        ensures
            r.max_retries == 2,
            r.base_backoff_millis == 200,
    {
        Self { max_retries: 2, base_backoff_millis: 200 }
    }

    /// Sets max retry attempts.
    pub fn max_retries(self, value: usize) -> (r: Self)
        ensures
            r.max_retries == value,
            r.base_backoff_millis == self.base_backoff_millis,
    {
        Self { max_retries: value, ..self }
    }

    /// Sets base backoff duration in milliseconds.
    pub fn base_backoff(self, value: u64) -> (r: Self)
        ensures
            r.max_retries == self.max_retries,
            r.base_backoff_millis == value,
    {
        Self { base_backoff_millis: value, ..self }
    }
}

} // verus!
