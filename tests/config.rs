use tokenipsum::config::{ErrorType, ForceError, ERROR_RATE_SCALE};
use tokenipsum::errors::status_code;
use tokenipsum::{Config, Provider, RuntimeState};

#[test]
fn test_default_config() {
    let config = Config::default();
    assert_eq!(config.server.port, 8787);
    assert!(!config.rate_limit.enabled);
    assert!(config.providers.cerebras);
}

#[test]
fn test_runtime_state() {
    let config = Config::default();
    let mut state = RuntimeState::new(config);

    assert_eq!(state.increment_requests(), 1);
    assert_eq!(state.increment_requests(), 2);
}

#[test]
fn test_force_error() {
    let mut config = Config::default();
    config.errors.force_error = ForceError::RateLimit;

    let mut state = RuntimeState::new(config);
    assert!(matches!(state.should_error(), Some(ErrorType::RateLimit)));
}

#[test]
fn counter_counts_every_request() {
    let mut state = RuntimeState::new(Config::default());
    for i in 1..=150u64 {
        assert_eq!(state.increment_requests(), i);
    }
    assert_eq!(state.request_count, 150);
}

#[test]
fn threshold_once_crossed_stays_crossed() {
    let mut config = Config::default();
    config.rate_limit.fail_after_requests = 3;
    let mut state = RuntimeState::new(config);
    state.increment_requests();
    assert_eq!(state.should_error(), None);
    state.increment_requests();
    assert_eq!(state.should_error(), None);
    for _ in 0..20 {
        state.increment_requests();
        assert_eq!(state.should_error(), Some(ErrorType::RateLimit));
    }
}

#[test]
fn forced_fault_wins_over_threshold() {
    let mut config = Config::default();
    config.rate_limit.fail_after_requests = 1;
    config.errors.force_error = ForceError::Timeout;
    let mut state = RuntimeState::new(config);
    state.increment_requests();
    assert_eq!(state.should_error(), Some(ErrorType::Timeout));
}

#[test]
fn full_error_rate_always_faults_and_zero_never() {
    let mut config = Config::default();
    config.errors.error_rate_ppm = ERROR_RATE_SCALE;
    config.content.deterministic = true;
    let mut state = RuntimeState::new(config);
    for _ in 0..50 {
        let e = state.should_error();
        assert!(matches!(
            e,
            Some(ErrorType::Unauthorized) | Some(ErrorType::RateLimit) | Some(ErrorType::ServerError)
        ));
    }
    let mut quiet = RuntimeState::new(Config::default());
    for _ in 0..50 {
        assert_eq!(quiet.should_error(), None);
    }
}

#[test]
fn deterministic_state_starts_from_the_seed() {
    let mut config = Config::default();
    config.content.deterministic = true;
    config.content.seed = 1234;
    let state = RuntimeState::new(config);
    assert_eq!(state.rng_state, 1234);
    assert_eq!(state.request_count, 0);
}

#[test]
fn keys_are_checked_only_when_required() {
    let mut config = Config::default();
    let open = RuntimeState::new(config.clone());
    assert!(open.is_valid_key(None));
    config.auth.require_auth = true;
    config.auth.valid_keys = vec!["k1".to_string(), "k2".to_string()];
    let state = RuntimeState::new(config);
    assert!(state.is_valid_key(Some("k2")));
    assert!(!state.is_valid_key(Some("k3")));
    assert!(!state.is_valid_key(None));
}

#[test]
fn latency_comes_from_the_configuration() {
    let mut config = Config::default();
    config.server.latency_ms = 250;
    assert_eq!(RuntimeState::new(config).latency_ms(), 250);
}

#[test]
fn test_unauthorized_responses() {
    for _provider in [Provider::Cerebras, Provider::Gemini, Provider::Claude, Provider::OpenAI] {
        assert_eq!(status_code(ErrorType::Unauthorized), 401);
    }
}

#[test]
fn test_rate_limit_responses() {
    assert_eq!(status_code(ErrorType::RateLimit), 429);
}

#[test]
fn fault_statuses() {
    assert_eq!(status_code(ErrorType::Unauthorized), 401);
    assert_eq!(status_code(ErrorType::ServerError), 500);
    assert_eq!(status_code(ErrorType::Timeout), 504);
    let _ = Provider::Claude;
}
