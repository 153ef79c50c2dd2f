use simse_core::acp_error::AcpError;
use simse_core::resilience::{
    is_transient, CircuitBreaker, CircuitBreakerConfig, CircuitState, HealthMonitor, HealthStatus,
};

#[test]
fn is_transient_classifies_errors_correctly() {
    assert!(is_transient(&AcpError::Timeout { method: "m".into(), timeout_ms: 100 }));
    assert!(is_transient(&AcpError::ServerUnavailable("x".into())));
    assert!(is_transient(&AcpError::ConnectionFailed("x".into())));
    assert!(is_transient(&AcpError::Io(std::io::Error::new(std::io::ErrorKind::Other, "io"))));

    assert!(!is_transient(&AcpError::NotInitialized));
    assert!(!is_transient(&AcpError::PermissionDenied("x".into())));
    assert!(!is_transient(&AcpError::SessionError("x".into())));
    assert!(!is_transient(&AcpError::ProtocolError("x".into())));
    assert!(!is_transient(&AcpError::Serialization("x".into())));
    assert!(!is_transient(&AcpError::CircuitBreakerOpen("x".into())));
    assert!(!is_transient(&AcpError::StreamError("x".into())));
}

#[test]
fn circuit_breaker_starts_closed() {
    let cb = CircuitBreaker::default();
    assert!(cb.allow_request());
}

#[test]
fn circuit_breaker_opens_after_threshold() {
    let mut cb = CircuitBreaker::new(CircuitBreakerConfig {
        failure_threshold: 3,
        reset_timeout_ms: 60_000,
        half_open_successes: 1,
    });

    cb.record_failure();
    cb.record_failure();
    assert!(cb.allow_request());
    cb.record_failure();
    assert!(!cb.allow_request());
}

#[test]
fn circuit_breaker_success_resets_failures() {
    let mut cb = CircuitBreaker::new(CircuitBreakerConfig {
        failure_threshold: 3,
        reset_timeout_ms: 60_000,
        half_open_successes: 1,
    });

    cb.record_failure();
    cb.record_failure();
    cb.record_success();
    cb.record_failure();
    cb.record_failure();
    assert!(cb.allow_request());
}

#[test]
fn circuit_breaker_half_opens_after_timeout() {
    let mut cb = CircuitBreaker::new(CircuitBreakerConfig {
        failure_threshold: 1,
        reset_timeout_ms: 100,
        half_open_successes: 1,
    });
    cb.record_failure();
    assert_eq!(cb.state_at(50), CircuitState::Open);
    assert!(!cb.allow_request_at(50));
    assert_eq!(cb.state_at(100), CircuitState::HalfOpen);
    assert!(cb.allow_request_at(100));
}

#[test]
fn health_monitor_starts_healthy() {
    let hm = HealthMonitor::default();
    assert_eq!(hm.status(), HealthStatus::Healthy);
}

#[test]
fn health_monitor_becomes_degraded() {
    let mut hm = HealthMonitor::new(2, 5);
    hm.record_failure("err");
    hm.record_failure("err");
    assert_eq!(hm.status(), HealthStatus::Degraded);
}

#[test]
fn health_monitor_becomes_unhealthy() {
    let mut hm = HealthMonitor::new(2, 5);
    for _ in 0..5 {
        hm.record_failure("err");
    }
    assert_eq!(hm.status(), HealthStatus::Unhealthy);
}

#[test]
fn health_monitor_success_resets() {
    let mut hm = HealthMonitor::new(2, 5);
    for _ in 0..4 {
        hm.record_failure("err");
    }
    assert_eq!(hm.status(), HealthStatus::Degraded);
    hm.record_success();
    assert_eq!(hm.status(), HealthStatus::Healthy);
}

#[test]
fn health_snapshot_captures_state() {
    let mut hm = HealthMonitor::default();
    hm.record_success();
    hm.record_failure("oops");

    let snap = hm.snapshot();
    assert_eq!(snap.total_successes, 1);
    assert_eq!(snap.total_failures, 1);
    assert_eq!(snap.consecutive_failures, 1);
    assert_eq!(snap.last_error, Some("oops".to_string()));
}

use simse_core::resilience::RetryState;

#[test]
fn retry_state_grants_retries_below_the_limit() {
    let mut s = RetryState::begin(3, 1000);
    assert_eq!(s.on_failure(true, 250, 2000), Some(875));
    assert_eq!(s.attempt, 2);
    assert_eq!(s.on_failure(true, 500, 4000), Some(2250));
    assert_eq!(s.attempt, 3);
    assert_eq!(s.on_failure(true, 1000, 8000), None);
    assert_eq!(s.attempt, 3);
}

#[test]
fn retry_state_stops_on_permanent_errors() {
    let mut s = RetryState::begin(5, 100);
    assert_eq!(s.on_failure(false, 0, 200), None);
    assert_eq!(s, RetryState::begin(5, 100));
    assert_eq!(s.on_failure(true, 0, 200), Some(100));
}
