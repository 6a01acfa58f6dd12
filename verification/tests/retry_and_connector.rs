use security_service::connector::{
    is_supported_chain, BlockchainConnector, BlockchainSettings, ConnState, HealthCheckConfig,
    RateLimit, RateLimiterState, SecurityError,
};
use security_service::retry::{backoff_schedule, RetryConfig, RetryDecision, RetryState};

fn policy(max_attempts: u32, base: u64, max: u64) -> RetryConfig {
    RetryConfig {
        max_attempts,
        base_delay_ms: base,
        max_delay_ms: max,
    }
}

fn health() -> HealthCheckConfig {
    HealthCheckConfig {
        interval_seconds: 300,
        timeout_seconds: 30,
        required_peers: 3,
        failure_threshold: 3,
    }
}

fn limit() -> RateLimit {
    RateLimit {
        requests: 100,
        window_seconds: 60,
    }
}

#[test]
fn backoff_sleeps_double_from_the_base_and_cap_at_the_maximum() {
    // Failing on attempts one and two and succeeding on the third sleeps
    // exactly 1000 ms and then 2000 ms.
    assert_eq!(backoff_schedule(&policy(3, 1000, 5000)), vec![1000, 2000]);
    assert_eq!(
        backoff_schedule(&policy(6, 1000, 5000)),
        vec![1000, 2000, 4000, 5000, 5000]
    );
    assert_eq!(backoff_schedule(&policy(1, 1000, 5000)), Vec::<u64>::new());
    assert_eq!(backoff_schedule(&policy(0, 1000, 5000)), Vec::<u64>::new());
}

#[test]
fn retry_state_walks_the_schedule_and_then_gives_up() {
    let cfg = policy(3, 1000, 5000);
    let mut state = RetryState::start(&cfg);
    assert_eq!(state.on_failure(&cfg), RetryDecision::RetryAfter(1000));
    assert_eq!(state.on_failure(&cfg), RetryDecision::RetryAfter(2000));
    assert_eq!(state.on_failure(&cfg), RetryDecision::GiveUp);
}

#[test]
fn unsupported_chain_fails_fast_with_zero_network_calls() {
    let mut connector = BlockchainConnector::new(health());
    connector
        .register_chain(1, "https://node.example".to_string(), policy(3, 1000, 5000), limit())
        .unwrap();

    let result = connector.connect(2, 0);
    match result {
        Err(SecurityError::UnsupportedChain(id)) => assert_eq!(id, 2),
        other => panic!("expected UnsupportedChain, got {other:?}"),
    }
    // No network call was authorized anywhere.
    assert_eq!(connector.chain(1).unwrap().network_calls, 0);
    assert_eq!(connector.chain(1).unwrap().connection_attempts, 0);

    assert!(matches!(
        connector.register_chain(2, "u".to_string(), policy(3, 1, 1), limit()),
        Err(SecurityError::UnsupportedChain(2))
    ));
    assert!(is_supported_chain(1) && is_supported_chain(56) && is_supported_chain(137));
    assert!(!is_supported_chain(2) && !is_supported_chain(0));
}

#[test]
fn connect_authorizes_one_probe_and_tracks_state() {
    let mut connector = BlockchainConnector::new(health());
    connector
        .register_chain(137, "https://polygon.example".to_string(), policy(3, 1000, 5000), limit())
        .unwrap();
    assert_eq!(connector.chain(137).unwrap().state, ConnState::Disconnected);

    connector.connect(137, 10).unwrap();
    let chain = connector.chain(137).unwrap();
    assert_eq!(chain.state, ConnState::Connecting);
    assert_eq!(chain.connection_attempts, 1);
    assert_eq!(chain.network_calls, 1);

    connector.probe_succeeded(137, 19_000_000).unwrap();
    let chain = connector.chain(137).unwrap();
    assert_eq!(chain.state, ConnState::Healthy);
    assert_eq!(chain.connection_successes, 1);
    assert_eq!(chain.latest_block, 19_000_000);
}

#[test]
fn failed_probes_retry_with_backoff_and_then_give_up() {
    let mut connector = BlockchainConnector::new(health());
    connector
        .register_chain(1, "https://eth.example".to_string(), policy(3, 1000, 5000), limit())
        .unwrap();
    connector.connect(1, 0).unwrap();

    assert_eq!(connector.probe_failed(1, 1).unwrap(), RetryDecision::RetryAfter(1000));
    assert_eq!(connector.chain(1).unwrap().state, ConnState::Connecting);
    assert_eq!(connector.chain(1).unwrap().network_calls, 2);

    assert_eq!(connector.probe_failed(1, 2).unwrap(), RetryDecision::RetryAfter(2000));
    assert_eq!(connector.chain(1).unwrap().network_calls, 3);

    assert_eq!(connector.probe_failed(1, 3).unwrap(), RetryDecision::GiveUp);
    assert_eq!(connector.chain(1).unwrap().state, ConnState::Disconnected);
    assert_eq!(connector.chain(1).unwrap().network_calls, 3);
}

#[test]
fn saturated_window_fails_fast_with_rate_limit() {
    let mut connector = BlockchainConnector::new(health());
    let tight = RateLimit {
        requests: 1,
        window_seconds: 60,
    };
    connector
        .register_chain(56, "https://bsc.example".to_string(), policy(3, 1000, 5000), tight)
        .unwrap();

    connector.connect(56, 0).unwrap();
    connector.probe_succeeded(56, 100).unwrap();
    connector.shutdown(56).unwrap();
    assert_eq!(connector.chain(56).unwrap().state, ConnState::Closed);
    assert!(matches!(connector.connect(56, 1), Err(SecurityError::Validation(_))));

    let mut connector = BlockchainConnector::new(health());
    connector
        .register_chain(56, "https://bsc.example".to_string(), policy(3, 1000, 5000), tight)
        .unwrap();
    connector.connect(56, 0).unwrap();
    // The window still holds the first request: a second call inside it
    // fails fast rather than queuing.
    connector.probe_succeeded(56, 100).unwrap();
    connector.health_probe_failed(56).unwrap();
    assert_eq!(connector.chain(56).unwrap().state, ConnState::Degraded);
    assert!(matches!(connector.begin_reconnect(56, 30), Err(SecurityError::RateLimit)));
    // Once the window has passed, the reconnect is admitted.
    connector.begin_reconnect(56, 61).unwrap();
    assert_eq!(connector.chain(56).unwrap().state, ConnState::Reconnecting);
}

#[test]
fn repeated_health_failures_cross_the_reporting_threshold() {
    let mut connector = BlockchainConnector::new(health());
    connector
        .register_chain(1, "https://eth.example".to_string(), policy(3, 1000, 5000), limit())
        .unwrap();
    connector.connect(1, 0).unwrap();
    connector.probe_succeeded(1, 100).unwrap();

    assert_eq!(connector.health_probe_failed(1).unwrap(), false);
    assert_eq!(connector.chain(1).unwrap().state, ConnState::Degraded);
    assert_eq!(connector.health_probe_failed(1).unwrap(), false);
    assert_eq!(connector.health_probe_failed(1).unwrap(), false);
    // The fourth failure in a row passes the threshold of three.
    assert_eq!(connector.health_probe_failed(1).unwrap(), true);
    assert_eq!(connector.chain(1).unwrap().state, ConnState::Degraded);
    // Recovery resets the streak.
    connector.probe_succeeded(1, 100).unwrap();
    assert_eq!(connector.chain(1).unwrap().state, ConnState::Healthy);
    assert_eq!(connector.chain(1).unwrap().probe_failures, 0);
}

#[test]
fn rate_limiter_slides_its_window() {
    let mut limiter = RateLimiterState::new(RateLimit {
        requests: 2,
        window_seconds: 10,
    });
    assert!(limiter.try_acquire(0));
    assert!(limiter.try_acquire(5));
    assert!(!limiter.try_acquire(9));
    // At time 10 the request from time 0 has left the window.
    assert!(limiter.try_acquire(10));
    assert!(!limiter.try_acquire(11));
}

#[test]
fn settings_defaults_mirror_the_policy() {
    let settings = BlockchainSettings::new(None);
    assert_eq!(settings.scan_interval, 1000);
    assert_eq!(settings.max_retries, 3);
    assert_eq!(settings.timeout_seconds, 30);
    assert!(settings.rpc_endpoints.is_empty());
    assert_eq!(settings.security_rules.max_contract_size, 24576);
    assert_eq!(
        settings.security_rules.forbidden_opcodes,
        vec!["SELFDESTRUCT".to_string(), "DELEGATECALL".to_string()]
    );
    assert_eq!(settings.health_check_config.interval_seconds, 300);
    assert_eq!(settings.security_rules.minimum_security_score, 80);
}
