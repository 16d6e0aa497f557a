use tokenipsum::config::{ErrorType, ForceError};
use tokenipsum::errors::{provider_from_path, status_code};
use tokenipsum::pipeline::{bearer_credential, gate_request, Admission};
use tokenipsum::{Config, Provider, RuntimeState};

#[test]
fn test_provider_from_path() {
    assert!(matches!(
        provider_from_path("/v1beta/models/gemini:generateContent"),
        Provider::Gemini
    ));
    assert!(matches!(provider_from_path("/v1/messages"), Provider::Claude));
    assert!(matches!(provider_from_path("/v1/responses"), Provider::OpenAI));
    assert!(matches!(
        provider_from_path("/v1/chat/completions"),
        Provider::Cerebras
    ));
    assert!(matches!(provider_from_path("/health"), Provider::Cerebras));
}

fn auth_state() -> RuntimeState {
    let mut config = Config::default();
    config.auth.require_auth = true;
    config.auth.valid_keys = vec!["k1".to_string()];
    RuntimeState::new(config)
}

#[test]
fn accepted_bearer_key_proceeds() {
    let mut state = auth_state();
    let r = gate_request(&mut state, "/v1/chat/completions", Some("Bearer k1"));
    assert_eq!(r, Admission::Proceed { latency_ms: 0 });
    assert_eq!(state.request_count, 1);
}

#[test]
fn wrong_bearer_key_is_unauthorized() {
    let mut state = auth_state();
    let r = gate_request(&mut state, "/v1/chat/completions", Some("Bearer wrong"));
    assert_eq!(r, Admission::Reject(ErrorType::Unauthorized, Provider::Cerebras));
    assert_eq!(status_code(ErrorType::Unauthorized), 401);
}

#[test]
fn missing_key_is_unauthorized_in_provider_shape() {
    let mut state = auth_state();
    let r = gate_request(&mut state, "/v1/messages", None);
    assert_eq!(r, Admission::Reject(ErrorType::Unauthorized, Provider::Claude));
    assert_eq!(state.request_count, 1);
}

#[test]
fn forced_server_error_hits_every_path() {
    let mut config = Config::default();
    config.errors.force_error = ForceError::ServerError;
    let mut state = RuntimeState::new(config);
    for path in ["/health", "/v1/messages", "/v1/responses", "/v1beta/models/g:generateContent"] {
        match gate_request(&mut state, path, None) {
            Admission::Reject(e, p) => {
                assert_eq!(e, ErrorType::ServerError);
                assert_eq!(status_code(e), 500);
                assert_eq!(p, provider_from_path(path));
            }
            Admission::Proceed { .. } => panic!("forced fault not applied"),
        }
    }
}

#[test]
fn forced_timeout_is_gateway_timeout() {
    let mut config = Config::default();
    config.errors.force_error = ForceError::Timeout;
    let mut state = RuntimeState::new(config);
    let r = gate_request(&mut state, "/health", None);
    assert_eq!(r, Admission::Reject(ErrorType::Timeout, Provider::Cerebras));
    assert_eq!(status_code(ErrorType::Timeout), 504);
}

#[test]
fn rate_limited_from_the_threshold_on() {
    let mut config = Config::default();
    config.rate_limit.fail_after_requests = 2;
    let mut state = RuntimeState::new(config);
    assert_eq!(gate_request(&mut state, "/health", None), Admission::Proceed { latency_ms: 0 });
    for _ in 0..10 {
        let r = gate_request(&mut state, "/health", None);
        assert_eq!(r, Admission::Reject(ErrorType::RateLimit, Provider::Cerebras));
        assert_eq!(status_code(ErrorType::RateLimit), 429);
    }
}

#[test]
fn latency_is_handed_to_dispatch() {
    let mut config = Config::default();
    config.server.latency_ms = 30;
    let mut state = RuntimeState::new(config);
    assert_eq!(gate_request(&mut state, "/health", None), Admission::Proceed { latency_ms: 30 });
}

#[test]
fn bearer_credential_strips_scheme_and_space() {
    assert_eq!(bearer_credential("Bearer k1"), "k1");
    assert_eq!(bearer_credential("Bearer   k1  "), "k1");
    assert_eq!(bearer_credential("Bearer Bearer k1"), "k1");
    assert_eq!(bearer_credential("k1"), "k1");
    assert_eq!(bearer_credential("Basic abc"), "Basic abc");
}
