//! Configuration and the shared runtime state: the request counter, the
//! fault-injection decision and the credential check.

use vstd::prelude::*;

use crate::random::{draw, entropy_seed, seeded_draw};
use crate::text::str_equal;

verus! {

/// Scale of the random error probability: parts per million.
pub const ERROR_RATE_SCALE: u32 = 1_000_000;

/// Listening port and artificial base latency.
#[derive(Clone, Copy, Debug)]
pub struct ServerConfig {
    pub port: u16,
    pub latency_ms: u64,
}

impl Default for ServerConfig {
    fn default() -> (r: Self)
        ensures
            r.port == 8787,
            r.latency_ms == 0,
    {
        ServerConfig { port: 8787, latency_ms: 0 }
    }
}

/// Rate-limit settings; `fail_after_requests` (when above zero) is the count
/// from which every request is refused.
#[derive(Clone, Copy, Debug)]
pub struct RateLimitConfig {
    pub enabled: bool,
    pub requests_per_minute: u32,
    pub fail_after_requests: u64,
}

impl Default for RateLimitConfig {
    fn default() -> (r: Self)
        ensures
            !r.enabled,
            r.requests_per_minute == 60,
            r.fail_after_requests == 0,
    {
        RateLimitConfig { enabled: false, requests_per_minute: 60, fail_after_requests: 0 }
    }
}

/// A fault forced on every request.
#[derive(Clone, Copy, Debug, PartialEq, Eq, Structural)]
pub enum ForceError {
    Disabled,
    Unauthorized,
    RateLimit,
    ServerError,
    Timeout,
}

impl Default for ForceError {
    fn default() -> (r: Self)
        ensures
            r == ForceError::Disabled,
    {
        ForceError::Disabled
    }
}

/// Error injection: the probability of a random fault, in parts per million
/// (`ERROR_RATE_SCALE` or more means always), and an optional forced fault.
#[derive(Clone, Copy, Debug)]
pub struct ErrorConfig {
    pub error_rate_ppm: u32,
    pub force_error: ForceError,
}

impl Default for ErrorConfig {
    fn default() -> (r: Self)
        ensures
            r.error_rate_ppm == 0,
            r.force_error == ForceError::Disabled,
    {
        ErrorConfig { error_rate_ppm: 0, force_error: ForceError::Disabled }
    }
}

/// Credential settings.
#[derive(Clone, Debug)]
pub struct AuthConfig {
    pub require_auth: bool,
    pub valid_keys: Vec<String>,
}

impl Default for AuthConfig {
    fn default() -> (r: Self)
        ensures
            !r.require_auth,
            r.valid_keys@.len() == 0,
    {
        AuthConfig { require_auth: false, valid_keys: Vec::new() }
    }
}

/// Which provider emulations are mounted.
#[derive(Clone, Copy, Debug)]
pub struct ProviderConfig {
    pub cerebras: bool,
    pub gemini: bool,
    pub claude: bool,
    pub openai: bool,
}

impl Default for ProviderConfig {
    fn default() -> (r: Self)
        ensures
            r.cerebras && r.gemini && r.claude && r.openai,
    {
        ProviderConfig { cerebras: true, gemini: true, claude: true, openai: true }
    }
}

/// Content determinism: when `deterministic`, the shared generator starts
/// from `seed`.
#[derive(Clone, Copy, Debug)]
pub struct ContentConfig {
    pub deterministic: bool,
    pub seed: u64,
}

impl Default for ContentConfig {
    fn default() -> (r: Self)
        ensures
            !r.deterministic,
            r.seed == 42,
    {
        ContentConfig { deterministic: false, seed: 42 }
    }
}

/// The whole configuration, fixed for the life of the process.
#[derive(Clone, Debug)]
pub struct Config {
    pub server: ServerConfig,
    pub rate_limit: RateLimitConfig,
    pub errors: ErrorConfig,
    pub auth: AuthConfig,
    pub providers: ProviderConfig,
    pub content: ContentConfig,
}

impl Default for Config {
    fn default() -> (r: Self)
        ensures
            r.server.port == 8787,
            r.server.latency_ms == 0,
            !r.rate_limit.enabled,
            r.rate_limit.requests_per_minute == 60,
            r.rate_limit.fail_after_requests == 0,
            r.errors.error_rate_ppm == 0,
            r.errors.force_error == ForceError::Disabled,
            !r.auth.require_auth,
            r.auth.valid_keys@.len() == 0,
            r.providers.cerebras && r.providers.gemini && r.providers.claude && r.providers.openai,
            !r.content.deterministic,
            r.content.seed == 42,
    {
        Config {
            server: ServerConfig::default(),
            rate_limit: RateLimitConfig::default(),
            errors: ErrorConfig::default(),
            auth: AuthConfig::default(),
            providers: ProviderConfig::default(),
            content: ContentConfig::default(),
        }
    }
}

/// The simulated fault kinds.
#[derive(Clone, Copy, Debug, PartialEq, Eq, Structural)]
pub enum ErrorType {
    Unauthorized,
    RateLimit,
    ServerError,
    Timeout,
}

/// The fault kind that a forced setting stands for, if any.
pub open spec fn forced_fault(f: ForceError) -> Option<ErrorType> {
    match f {
        ForceError::Disabled => None,
        ForceError::Unauthorized => Some(ErrorType::Unauthorized),
        ForceError::RateLimit => Some(ErrorType::RateLimit),
        ForceError::ServerError => Some(ErrorType::ServerError),
        ForceError::Timeout => Some(ErrorType::Timeout),
    }
}

/// Whether the request count has reached a configured threshold.
pub open spec fn over_threshold(fail_after_requests: u64, count: u64) -> bool {
    fail_after_requests > 0 && count >= fail_after_requests
}

/// The fault kind chosen by a draw in `0..=2`.
pub open spec fn random_fault_kind(k: u64) -> ErrorType {
    if k == 0 {
        ErrorType::Unauthorized
    } else if k == 1 {
        ErrorType::RateLimit
    } else {
        ErrorType::ServerError
    }
}

/// The fault decision for `config` at request count `count` with generator
/// state `s`, and the generator state afterwards: a forced fault first, then
/// the threshold, then one draw against the error rate and, on a hit, a second
/// draw for the kind.
pub open spec fn spec_fault(config: Config, count: u64, s: u64) -> (Option<ErrorType>, u64) {
    if forced_fault(config.errors.force_error) is Some {
        (forced_fault(config.errors.force_error), s)
    } else if over_threshold(config.rate_limit.fail_after_requests, count) {
        (Some(ErrorType::RateLimit), s)
    } else if config.errors.error_rate_ppm > 0 {
        let (s1, d) = seeded_draw(s, 0, (ERROR_RATE_SCALE - 1) as u64);
        if d < config.errors.error_rate_ppm {
            let (s2, k) = seeded_draw(s1, 0, 2);
            (Some(random_fault_kind(k)), s2)
        } else {
            (None, s1)
        }
    } else {
        (None, s)
    }
}

/// The characters of an optional key.
pub open spec fn key_view(key: Option<&str>) -> Option<Seq<char>> {
    match key {
        Some(k) => Some(k@),
        None => None,
    }
}

/// Whether `key` passes the credential check of `auth`.
pub open spec fn key_accepted(auth: AuthConfig, key: Option<Seq<char>>) -> bool {
    !auth.require_auth || (key is Some && exists|i: int|
        0 <= i < auth.valid_keys@.len() && #[trigger] auth.valid_keys@[i]@ == key->0)
}

/// State shared by all requests: the configuration, the request counter and
/// the pseudo-random state used for fault decisions. Callers serialize access
/// to it (one lock around each use).
pub struct RuntimeState {
    pub config: Config,
    pub request_count: u64,
    pub rng_state: u64,
}

impl RuntimeState {
    /// State for `config` with a zero counter; the generator starts from the
    /// configured seed in deterministic mode, from system entropy otherwise.
    pub fn new(config: Config) -> (r: Self)
        ensures
            r.config == config,
            r.request_count == 0,
            config.content.deterministic ==> r.rng_state == config.content.seed,
    {
        let seed = if config.content.deterministic {
            config.content.seed
        } else {
            entropy_seed()
        };
        RuntimeState { config, request_count: 0, rng_state: seed }
    }

    /// Counts one request and returns the new count.
    pub fn increment_requests(&mut self) -> (r: u64)
        requires
            old(self).request_count < u64::MAX,
        ensures
            final(self).request_count == old(self).request_count + 1,
            r == final(self).request_count,
            final(self).config == old(self).config,
            final(self).rng_state == old(self).rng_state,
    {
        self.request_count = self.request_count + 1;
        self.request_count
    }

    /// The fault to inject on the current request, if any.
    pub fn should_error(&mut self) -> (r: Option<ErrorType>)
        ensures
            (r, final(self).rng_state) == spec_fault(old(self).config, old(self).request_count, old(self).rng_state),
            final(self).config == old(self).config,
            final(self).request_count == old(self).request_count,
    {
        match self.config.errors.force_error {
            ForceError::Disabled => {},
            ForceError::Unauthorized => return Some(ErrorType::Unauthorized),
            ForceError::RateLimit => return Some(ErrorType::RateLimit),
            ForceError::ServerError => return Some(ErrorType::ServerError),
            ForceError::Timeout => return Some(ErrorType::Timeout),
        }
        let limit = self.config.rate_limit.fail_after_requests;
        if limit > 0 && self.request_count >= limit {
            return Some(ErrorType::RateLimit);
        }
        let rate = self.config.errors.error_rate_ppm;
        if rate > 0 {
            let (s1, d) = draw(self.rng_state, 0, (ERROR_RATE_SCALE - 1) as u64);
            self.rng_state = s1;
            if d < rate as u64 {
                let (s2, k) = draw(self.rng_state, 0, 2);
                self.rng_state = s2;
                let kind = if k == 0 {
                    ErrorType::Unauthorized
                } else if k == 1 {
                    ErrorType::RateLimit
                } else {
                    ErrorType::ServerError
                };
                return Some(kind);
            }
        }
        None
    }

    /// Whether `key` passes the credential check: always when no credential
    /// is required, otherwise only a key equal to one of the accepted keys.
    pub fn is_valid_key(&self, key: Option<&str>) -> (r: bool)
        ensures
            r == key_accepted(self.config.auth, key_view(key)),
    {
        if !self.config.auth.require_auth {
            return true;
        }
        match key {
            Some(k) => {
                let keys = &self.config.auth.valid_keys;
                let mut i: usize = 0;
                while i < keys.len()
                    invariant
                        i <= keys@.len(),
                        keys == self.config.auth.valid_keys,
                        self.config.auth.require_auth,
                        key_view(key) == Some(k@),
                        forall|j: int| 0 <= j < i ==> #[trigger] keys@[j]@ != k@,
                    decreases keys@.len() - i,
                {
                    if str_equal(keys[i].as_str(), k) {
                        assert(self.config.auth.valid_keys@[i as int]@ == k@);
                        assert(key_view(key) == Some(k@));
                        return true;
                    }
                    i = i + 1;
                }
                false
            },
            None => false,
        }
    }

    /// The artificial latency added before dispatch, in milliseconds.
    pub fn latency_ms(&self) -> (r: u64)
        ensures
            r == self.config.server.latency_ms,
    {
        self.config.server.latency_ms
    }
}

} // verus!
