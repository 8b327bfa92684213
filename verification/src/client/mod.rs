//! Client configuration and the decisions a DLsite request goes through:
//! rate limiting, status handling and retries.

pub mod circle;
pub mod fetch;
pub mod product;
pub mod product_api;
pub mod search;

use vstd::prelude::*;
use std::time::Duration;
use crate::error::DlsiteError;
use crate::interface::query::Language;
use crate::interface::site::Site;
use crate::retry::{retryable_kind, RetryConfig};
use crate::text::owned;

verus! {

/// The `Duration` of `secs` seconds.
pub uninterp spec fn duration_of_secs(secs: u64) -> Duration;

/// `Duration::from_secs`.
#[verifier::external_body]
fn duration_from_secs(secs: u64) -> (d: Duration)
    ensures
        d == duration_of_secs(secs),
{
    Duration::from_secs(secs)
}

/// The User-Agent the client sends.
pub open spec fn user_agent() -> Seq<char> {
    "dlsite-rs/0.2.0"@
}

/// Everything a built client is configured with.
pub struct ClientSettings {
    /// Prefix of every request path.
    pub base_url: String,
    /// Maximum number of idle connections per host.
    pub pool_max_idle_per_host: usize,
    /// Request timeout.
    pub timeout: Duration,
    /// User-Agent header.
    pub user_agent: String,
    /// Number of responses the cache holds.
    pub cache_capacity: usize,
    /// How long a cached response stays valid.
    pub cache_ttl: Duration,
    /// Retry policy.
    pub retry_config: RetryConfig,
    /// Locale of locale-aware calls.
    pub default_locale: Language,
}

/// Builder for the DLsite client with customizable configuration.
pub struct DlsiteClientBuilder {
    base_url: String,
    pool_max_idle_per_host: usize,
    timeout: Duration,
    cache_capacity: usize,
    cache_ttl: Duration,
    retry_config: RetryConfig,
    default_locale: Language,
}

impl DlsiteClientBuilder {
    /// The base URL the client will use.
    pub closed spec fn spec_base_url(&self) -> Seq<char> {
        self.base_url@
    }

    /// The configured idle connection limit.
    pub closed spec fn spec_pool_max_idle_per_host(&self) -> usize {
        self.pool_max_idle_per_host
    }

    /// The configured timeout.
    pub closed spec fn spec_timeout(&self) -> Duration {
        self.timeout
    }

    /// The configured cache capacity.
    pub closed spec fn spec_cache_capacity(&self) -> usize {
        self.cache_capacity
    }

    /// The configured cache time-to-live.
    pub closed spec fn spec_cache_ttl(&self) -> Duration {
        self.cache_ttl
    }

    /// The configured retry policy.
    pub closed spec fn spec_retry_config(&self) -> RetryConfig {
        self.retry_config
    }

    /// The configured default locale.
    pub closed spec fn spec_default_locale(&self) -> Language {
        self.default_locale
    }

    /// Create a new builder with default settings: 10 idle connections per
    /// host, a 30 s timeout, a cache of 100 responses kept for an hour, the
    /// default retry policy and Japanese as locale.
    pub fn new(base_url: &str) -> (r: Self)
        ensures
            r.spec_base_url() == base_url@,
            r.spec_pool_max_idle_per_host() == 10,
            r.spec_timeout() == duration_of_secs(30),
            r.spec_cache_capacity() == 100,
            r.spec_cache_ttl() == duration_of_secs(3600),
            r.spec_retry_config() == RetryConfig::default_spec(),
            r.spec_default_locale() == Language::Jp,
    {
        Self {
            base_url: owned(base_url),
            pool_max_idle_per_host: 10,
            timeout: duration_from_secs(30),
            cache_capacity: 100,
            cache_ttl: duration_from_secs(3600),
            retry_config: RetryConfig::default(),
            default_locale: Language::Jp,
        }
    }

    /// Set the default locale for locale-aware API calls.
    pub fn locale(self, locale: Language) -> (r: Self)
        ensures
            r.spec_default_locale() == locale,
            r.spec_base_url() == self.spec_base_url(),
            r.spec_pool_max_idle_per_host() == self.spec_pool_max_idle_per_host(),
            r.spec_timeout() == self.spec_timeout(),
            r.spec_cache_capacity() == self.spec_cache_capacity(),
            r.spec_cache_ttl() == self.spec_cache_ttl(),
            r.spec_retry_config() == self.spec_retry_config(),
    {
        Self { default_locale: locale, ..self }
    }

    /// Set the maximum number of idle connections per host.
    pub fn pool_max_idle_per_host(self, max: usize) -> (r: Self)
        ensures
            r.spec_pool_max_idle_per_host() == max,
            r.spec_base_url() == self.spec_base_url(),
            r.spec_timeout() == self.spec_timeout(),
            r.spec_cache_capacity() == self.spec_cache_capacity(),
            r.spec_cache_ttl() == self.spec_cache_ttl(),
            r.spec_retry_config() == self.spec_retry_config(),
            r.spec_default_locale() == self.spec_default_locale(),
    {
        Self { pool_max_idle_per_host: max, ..self }
    }

    /// Set the request timeout.
    pub fn timeout(self, timeout: Duration) -> (r: Self)
        ensures
            r.spec_timeout() == timeout,
            r.spec_base_url() == self.spec_base_url(),
            r.spec_pool_max_idle_per_host() == self.spec_pool_max_idle_per_host(),
            r.spec_cache_capacity() == self.spec_cache_capacity(),
            r.spec_cache_ttl() == self.spec_cache_ttl(),
            r.spec_retry_config() == self.spec_retry_config(),
            r.spec_default_locale() == self.spec_default_locale(),
    {
        Self { timeout, ..self }
    }

    /// Set the cache capacity and time-to-live.
    pub fn cache(self, capacity: usize, ttl: Duration) -> (r: Self)
        ensures
            r.spec_cache_capacity() == capacity,
            r.spec_cache_ttl() == ttl,
            r.spec_base_url() == self.spec_base_url(),
            r.spec_pool_max_idle_per_host() == self.spec_pool_max_idle_per_host(),
            r.spec_timeout() == self.spec_timeout(),
            r.spec_retry_config() == self.spec_retry_config(),
            r.spec_default_locale() == self.spec_default_locale(),
    {
        Self { cache_capacity: capacity, cache_ttl: ttl, ..self }
    }

    /// Set the retry configuration.
    pub fn retry_config(self, config: RetryConfig) -> (r: Self)
        ensures
            r.spec_retry_config() == config,
            r.spec_base_url() == self.spec_base_url(),
            r.spec_pool_max_idle_per_host() == self.spec_pool_max_idle_per_host(),
            r.spec_timeout() == self.spec_timeout(),
            r.spec_cache_capacity() == self.spec_cache_capacity(),
            r.spec_cache_ttl() == self.spec_cache_ttl(),
            r.spec_default_locale() == self.spec_default_locale(),
    {
        Self { retry_config: config, ..self }
    }

    /// Set the target DLsite site; overrides the base URL given to [`Self::new`].
    pub fn site(self, site: Site) -> (r: Self)
        ensures
            r.spec_base_url() == site.spec_base_url(),
            r.spec_pool_max_idle_per_host() == self.spec_pool_max_idle_per_host(),
            r.spec_timeout() == self.spec_timeout(),
            r.spec_cache_capacity() == self.spec_cache_capacity(),
            r.spec_cache_ttl() == self.spec_cache_ttl(),
            r.spec_retry_config() == self.spec_retry_config(),
            r.spec_default_locale() == self.spec_default_locale(),
    {
        Self { base_url: site.base_url(), ..self }
    }

    /// The settings a client built from this builder has, the User-Agent
    /// `dlsite-rs/0.2.0` included.
    pub fn settings(self) -> (s: ClientSettings)
        ensures
            s.base_url@ == self.spec_base_url(),
            s.pool_max_idle_per_host == self.spec_pool_max_idle_per_host(),
            s.timeout == self.spec_timeout(),
            s.user_agent@ == user_agent(),
            s.cache_capacity == self.spec_cache_capacity(),
            s.cache_ttl == self.spec_cache_ttl(),
            s.retry_config == self.spec_retry_config(),
            s.default_locale == self.spec_default_locale(),
    {
        ClientSettings {
            base_url: self.base_url,
            pool_max_idle_per_host: self.pool_max_idle_per_host,
            timeout: self.timeout,
            user_agent: owned("dlsite-rs/0.2.0"),
            cache_capacity: self.cache_capacity,
            cache_ttl: self.cache_ttl,
            retry_config: self.retry_config,
            default_locale: self.default_locale,
        }
    }
}

} // verus!
