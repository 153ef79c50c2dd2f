//! Resilience primitives: circuit breaker, health monitor and the
//! classification of transient ACP errors.

use vstd::prelude::*;
use std::time::Instant;
use crate::acp_error::AcpError;
use crate::clock::{elapsed_millis, instant_now};

verus! {

// ===========================================================================
// CircuitBreaker
// ===========================================================================

/// Configuration for a circuit breaker.
#[derive(Debug, Clone, Copy)]
pub struct CircuitBreakerConfig {
    /// Number of consecutive failures before opening the circuit.
    pub failure_threshold: u32,
    /// How long the circuit stays open before moving to half-open (ms).
    pub reset_timeout_ms: u64,
    /// Number of successes in half-open state to close the circuit.
    pub half_open_successes: u32,
}

impl Default for CircuitBreakerConfig {
    fn default() -> (r: Self)
        ensures
            r.failure_threshold == 5,
            r.reset_timeout_ms == 30_000,
            r.half_open_successes == 2,
    {
        CircuitBreakerConfig { failure_threshold: 5, reset_timeout_ms: 30_000, half_open_successes: 2 }
    }
}

/// Circuit breaker state.
#[derive(Debug, Clone, Copy, PartialEq, Eq, Structural)]
pub enum CircuitState {
    Closed,
    Open,
    HalfOpen,
}

/// The state of a breaker that opened (or not) `elapsed_ms` milliseconds ago.
pub open spec fn circuit_state_spec(opened: bool, elapsed_ms: u128, reset_timeout_ms: u64) -> CircuitState {
    if !opened {
        CircuitState::Closed
    } else if elapsed_ms >= reset_timeout_ms {
        CircuitState::HalfOpen
    } else {
        CircuitState::Open
    }
}

/// A circuit breaker that tracks consecutive failures and opens when a
/// threshold is reached; after the reset timeout it lets requests through
/// again (half-open) until enough successes close it.
#[derive(Debug)]
pub struct CircuitBreaker {
    config: CircuitBreakerConfig,
    consecutive_failures: u64,
    consecutive_successes: u64,
    /// When the circuit opened; `None` while it is closed.
    opened_at: Option<Instant>,
}

impl CircuitBreaker {
    pub closed spec fn config_view(&self) -> CircuitBreakerConfig {
        self.config
    }

    pub closed spec fn failures(&self) -> u64 {
        self.consecutive_failures
    }

    pub closed spec fn successes(&self) -> u64 {
        self.consecutive_successes
    }

    pub closed spec fn is_opened(&self) -> bool {
        self.opened_at is Some
    }

    pub closed spec fn opened_at_view(&self) -> Option<Instant> {
        self.opened_at
    }

    /// What every operation keeps: a failure count that reached the
    /// threshold has opened the circuit, and the two counters are never both
    /// non-zero.
    pub open spec fn wf(&self) -> bool {
        &&& (self.failures() > 0 && self.failures() >= self.config_view().failure_threshold)
            ==> self.is_opened()
        &&& (self.failures() == 0 || self.successes() == 0)
    }

    /// The state the breaker is in when `elapsed_ms` have passed since it opened.
    pub open spec fn state_at_spec(&self, elapsed_ms: u128) -> CircuitState {
        circuit_state_spec(self.is_opened(), elapsed_ms, self.config_view().reset_timeout_ms)
    }

    /// Create a new circuit breaker with the given configuration.
    pub fn new(config: CircuitBreakerConfig) -> (r: Self)
        ensures
            r.wf(),
            r.config_view() == config,
            r.failures() == 0,
            r.successes() == 0,
            !r.is_opened(),
    {
        CircuitBreaker { config, consecutive_failures: 0, consecutive_successes: 0, opened_at: None }
    }

    /// The state of the breaker given the milliseconds elapsed since it
    /// opened (ignored while it is closed).
    pub fn state_at(&self, elapsed_ms: u128) -> (r: CircuitState)
        ensures
            r == self.state_at_spec(elapsed_ms),
    {
        match self.opened_at {
            None => CircuitState::Closed,
            Some(_) => {
                if elapsed_ms >= self.config.reset_timeout_ms as u128 {
                    CircuitState::HalfOpen
                } else {
                    CircuitState::Open
                }
            },
        }
    }

    /// Whether a request is let through when `elapsed_ms` have passed since
    /// the circuit opened: always while closed or half-open, never while open.
    pub fn allow_request_at(&self, elapsed_ms: u128) -> (r: bool)
        ensures
            r == (self.state_at_spec(elapsed_ms) != CircuitState::Open),
    {
        match self.state_at(elapsed_ms) {
            CircuitState::Closed => true,
            CircuitState::HalfOpen => true,
            CircuitState::Open => false,
        }
    }

    /// Current state of the circuit breaker, reading the clock.
    fn state(&self) -> (r: CircuitState)
        ensures
            !self.is_opened() ==> r == CircuitState::Closed,
            self.is_opened() ==> r != CircuitState::Closed,
            exists|e: u128| r == #[trigger] self.state_at_spec(e),
    {
        let elapsed = match &self.opened_at {
            None => 0,
            Some(t) => elapsed_millis(t),
        };
        let r = self.state_at(elapsed);
        assert(r == self.state_at_spec(elapsed));
        r
    }

    /// Returns `true` if the request should be allowed through: always while
    /// the circuit is closed; while it is open, only once the reset timeout
    /// has passed (which depends on the clock).
    pub fn allow_request(&self) -> (r: bool)
        ensures
            !self.is_opened() ==> r,
            exists|e: u128| r == #[trigger] self.allow_request_spec(e),
    {
        let s = self.state();
        let ghost e = choose|e: u128| s == self.state_at_spec(e);
        let r = match s {
            CircuitState::Closed => true,
            CircuitState::HalfOpen => true,
            CircuitState::Open => false,
        };
        assert(r == self.allow_request_spec(e));
        r
    }

    pub open spec fn allow_request_spec(&self, elapsed_ms: u128) -> bool {
        self.state_at_spec(elapsed_ms) != CircuitState::Open
    }

    /// Record a successful request: the failure count is reset; a half-open
    /// circuit that has seen enough successes closes.
    pub fn record_success(&mut self)
        requires
            old(self).wf(),
            old(self).successes() < u64::MAX,
        ensures
            final(self).wf(),
            final(self).config_view() == old(self).config_view(),
            final(self).failures() == 0,
            ({
                let kept = final(self).opened_at_view() == old(self).opened_at_view()
                    && final(self).is_opened() == old(self).is_opened()
                    && final(self).successes() == old(self).successes() + 1;
                let closed = old(self).is_opened()
                    && old(self).successes() + 1 >= old(self).config_view().half_open_successes
                    && !final(self).is_opened()
                    && final(self).successes() == 0;
                &&& !old(self).is_opened() ==> kept
                &&& (kept || closed)
            }),
    {
        self.consecutive_failures = 0;
        let prev = self.consecutive_successes;
        self.consecutive_successes = prev + 1;
        if self.state() == CircuitState::HalfOpen && prev + 1 >= self.config.half_open_successes as u64 {
            self.opened_at = None;
            self.consecutive_successes = 0;
        }
    }

    /// Record a failed request: the success count is reset, and the circuit
    /// opens (now) when the consecutive failures reach the threshold.
    pub fn record_failure(&mut self)
        requires
            old(self).wf(),
            old(self).failures() < u64::MAX,
        ensures
            final(self).wf(),
            final(self).config_view() == old(self).config_view(),
            final(self).successes() == 0,
            final(self).failures() == old(self).failures() + 1,
            old(self).failures() + 1 >= old(self).config_view().failure_threshold
                ==> final(self).is_opened(),
            old(self).failures() + 1 < old(self).config_view().failure_threshold
                ==> final(self).opened_at_view() == old(self).opened_at_view(),
            old(self).failures() + 1 < old(self).config_view().failure_threshold
                ==> final(self).is_opened() == old(self).is_opened(),
    {
        self.consecutive_successes = 0;
        let prev = self.consecutive_failures;
        self.consecutive_failures = prev + 1;
        if prev + 1 >= self.config.failure_threshold as u64 {
            self.opened_at = Some(instant_now());
        }
    }
}

impl Default for CircuitBreaker {
    fn default() -> (r: Self)
        ensures
            r.wf(),
            r.config_view().failure_threshold == 5,
            r.config_view().reset_timeout_ms == 30_000,
            r.config_view().half_open_successes == 2,
            r.failures() == 0,
            r.successes() == 0,
            !r.is_opened(),
    {
        Self::new(CircuitBreakerConfig::default())
    }
}

/// Law: a breaker whose consecutive failures have reached the threshold
/// refuses every request until the reset timeout has passed.
pub proof fn law_breaker_refuses_while_open(b: CircuitBreaker, elapsed_ms: u128)
    requires
        b.wf(),
        b.failures() > 0,
        b.failures() >= b.config_view().failure_threshold,
        elapsed_ms < b.config_view().reset_timeout_ms,
    ensures
        !b.allow_request_spec(elapsed_ms),
{
}

/// Law: a closed breaker lets every request through.
pub proof fn law_closed_breaker_allows(b: CircuitBreaker, elapsed_ms: u128)
    requires
        !b.is_opened(),
    ensures
        b.allow_request_spec(elapsed_ms),
{
}

// ===========================================================================
// HealthMonitor
// ===========================================================================

/// Health status of a monitored endpoint.
#[derive(Debug, Clone, Copy, PartialEq, Eq, Structural)]
pub enum HealthStatus {
    Healthy,
    Degraded,
    Unhealthy,
}

/// The status for a run of `failures` consecutive failures.
pub open spec fn health_status_spec(failures: u64, degraded: u64, unhealthy: u64) -> HealthStatus {
    if failures >= unhealthy {
        HealthStatus::Unhealthy
    } else if failures >= degraded {
        HealthStatus::Degraded
    } else {
        HealthStatus::Healthy
    }
}

/// `x + 1`, wrapping to 0 past `u64::MAX` (as an atomic counter does).
pub open spec fn counter_inc(x: u64) -> u64 {
    if x == u64::MAX { 0 } else { (x + 1) as u64 }
}

/// A snapshot of health metrics.
#[derive(Debug, Clone)]
pub struct HealthSnapshot {
    pub status: HealthStatus,
    pub consecutive_failures: u64,
    pub total_successes: u64,
    pub total_failures: u64,
    pub last_error: Option<String>,
}

/// Tracks success/failure counts and provides health status.
#[derive(Debug)]
pub struct HealthMonitor {
    consecutive_failures: u64,
    total_successes: u64,
    total_failures: u64,
    last_error: Option<String>,
    /// Threshold for degraded status.
    degraded_threshold: u64,
    /// Threshold for unhealthy status.
    unhealthy_threshold: u64,
}

impl HealthMonitor {
    pub closed spec fn consecutive_failures_view(&self) -> u64 {
        self.consecutive_failures
    }

    pub closed spec fn total_successes_view(&self) -> u64 {
        self.total_successes
    }

    pub closed spec fn total_failures_view(&self) -> u64 {
        self.total_failures
    }

    pub closed spec fn last_error_view(&self) -> Option<Seq<char>> {
        match self.last_error {
            Some(e) => Some(e@),
            None => None,
        }
    }

    pub closed spec fn degraded_threshold_view(&self) -> u64 {
        self.degraded_threshold
    }

    pub closed spec fn unhealthy_threshold_view(&self) -> u64 {
        self.unhealthy_threshold
    }

    pub open spec fn status_spec(&self) -> HealthStatus {
        health_status_spec(
            self.consecutive_failures_view(),
            self.degraded_threshold_view(),
            self.unhealthy_threshold_view(),
        )
    }

    /// Create a new health monitor with the given thresholds.
    pub fn new(degraded_threshold: u64, unhealthy_threshold: u64) -> (r: Self)
        ensures
            r.consecutive_failures_view() == 0,
            r.total_successes_view() == 0,
            r.total_failures_view() == 0,
            r.last_error_view() is None,
            r.degraded_threshold_view() == degraded_threshold,
            r.unhealthy_threshold_view() == unhealthy_threshold,
    {
        HealthMonitor {
            consecutive_failures: 0,
            total_successes: 0,
            total_failures: 0,
            last_error: None,
            degraded_threshold,
            unhealthy_threshold,
        }
    }

    /// Record a successful request.
    pub fn record_success(&mut self)
        ensures
            final(self).consecutive_failures_view() == 0,
            final(self).total_successes_view() == counter_inc(old(self).total_successes_view()),
            final(self).total_failures_view() == old(self).total_failures_view(),
            final(self).last_error_view() == old(self).last_error_view(),
            final(self).degraded_threshold_view() == old(self).degraded_threshold_view(),
            final(self).unhealthy_threshold_view() == old(self).unhealthy_threshold_view(),
    {
        self.consecutive_failures = 0;
        self.total_successes = self.total_successes.wrapping_add(1);
    }

    /// Record a failed request with its error message.
    pub fn record_failure(&mut self, error: &str)
        ensures
            final(self).consecutive_failures_view() == counter_inc(old(self).consecutive_failures_view()),
            final(self).total_successes_view() == old(self).total_successes_view(),
            final(self).total_failures_view() == counter_inc(old(self).total_failures_view()),
            final(self).last_error_view() == Some(error@),
            final(self).degraded_threshold_view() == old(self).degraded_threshold_view(),
            final(self).unhealthy_threshold_view() == old(self).unhealthy_threshold_view(),
    {
        self.consecutive_failures = self.consecutive_failures.wrapping_add(1);
        self.total_failures = self.total_failures.wrapping_add(1);
        self.last_error = Some(error.to_owned());
    }

    /// Current health status.
    pub fn status(&self) -> (r: HealthStatus)
        ensures
            r == self.status_spec(),
    {
        let failures = self.consecutive_failures;
        if failures >= self.unhealthy_threshold {
            HealthStatus::Unhealthy
        } else if failures >= self.degraded_threshold {
            HealthStatus::Degraded
        } else {
            HealthStatus::Healthy
        }
    }

    /// Snapshot of current health metrics.
    pub fn snapshot(&self) -> (r: HealthSnapshot)
        ensures
            r.status == self.status_spec(),
            r.consecutive_failures == self.consecutive_failures_view(),
            r.total_successes == self.total_successes_view(),
            r.total_failures == self.total_failures_view(),
            (match r.last_error {
                Some(e) => Some(e@),
                None => None,
            }) == self.last_error_view(),
    {
        let last_error = match &self.last_error {
            Some(e) => Some(e.clone()),
            None => None,
        };
        HealthSnapshot {
            status: self.status(),
            consecutive_failures: self.consecutive_failures,
            total_successes: self.total_successes,
            total_failures: self.total_failures,
            last_error,
        }
    }
}

impl Default for HealthMonitor {
    fn default() -> (r: Self)
        ensures
            r.consecutive_failures_view() == 0,
            r.total_successes_view() == 0,
            r.total_failures_view() == 0,
            r.last_error_view() is None,
            r.degraded_threshold_view() == 3,
            r.unhealthy_threshold_view() == 5,
    {
        Self::new(3, 5)
    }
}

/// Law: a success always brings the monitor back to healthy, provided the
/// degraded threshold is not zero.
pub proof fn law_success_restores_health(before: HealthMonitor, after: HealthMonitor)
    requires
        after.consecutive_failures_view() == 0,
        after.degraded_threshold_view() == before.degraded_threshold_view(),
        after.unhealthy_threshold_view() == before.unhealthy_threshold_view(),
        after.degraded_threshold_view() > 0,
        after.unhealthy_threshold_view() > 0,
    ensures
        after.status_spec() == HealthStatus::Healthy,
{
}

/// The number of failures after the last success in a run of outcomes
/// (`true` a success, `false` a failure), counted as the monitor's counter
/// counts them.
pub open spec fn failures_since_success(outcomes: Seq<bool>) -> u64
    decreases outcomes.len(),
{
    if outcomes.len() == 0 {
        0
    } else if outcomes.last() {
        0
    } else {
        counter_inc(failures_since_success(outcomes.drop_last()))
    }
}

/// Law: after a run of recorded outcomes, starting from a fresh monitor, the
/// status is decided by the failures recorded since the last success (or
/// since the start). `monitors[i]` is the monitor before recording
/// `outcomes[i]` (`true` a success, `false` a failure), `monitors[i + 1]`
/// the monitor after it.
pub proof fn law_status_counts_failures_since_success(monitors: Seq<HealthMonitor>, outcomes: Seq<bool>)
    requires
        monitors.len() == outcomes.len() + 1,
        monitors[0].consecutive_failures_view() == 0,
        forall|i: int, j: int| 0 <= i < outcomes.len() && j == i + 1 ==> {
            &&& #[trigger] monitors[j].consecutive_failures_view() == (if #[trigger] outcomes[i] {
                0
            } else {
                counter_inc(monitors[i].consecutive_failures_view())
            })
            &&& monitors[j].degraded_threshold_view() == monitors[i].degraded_threshold_view()
            &&& monitors[j].unhealthy_threshold_view() == monitors[i].unhealthy_threshold_view()
        },
    ensures
        monitors.last().consecutive_failures_view() == failures_since_success(outcomes),
        monitors.last().degraded_threshold_view() == monitors[0].degraded_threshold_view(),
        monitors.last().unhealthy_threshold_view() == monitors[0].unhealthy_threshold_view(),
        monitors.last().status_spec() == health_status_spec(failures_since_success(outcomes),
            monitors[0].degraded_threshold_view(), monitors[0].unhealthy_threshold_view()),
    decreases outcomes.len(),
{
    if outcomes.len() > 0 {
        let n = outcomes.len() - 1;
        let ms = monitors.drop_last();
        let os = outcomes.drop_last();
        assert forall|i: int, j: int| 0 <= i < os.len() && j == i + 1 implies {
            &&& #[trigger] ms[j].consecutive_failures_view() == (if #[trigger] os[i] {
                0
            } else {
                counter_inc(ms[i].consecutive_failures_view())
            })
            &&& ms[j].degraded_threshold_view() == ms[i].degraded_threshold_view()
            &&& ms[j].unhealthy_threshold_view() == ms[i].unhealthy_threshold_view()
        } by {
            assert(ms[j] == monitors[j] && ms[i] == monitors[i] && os[i] == outcomes[i]);
        }
        law_status_counts_failures_since_success(ms, os);
        assert(ms.last() == monitors[n]);
        assert(monitors.last() == monitors[n + 1]);
        assert(outcomes.last() == outcomes[n]);
        assert(ms[0] == monitors[0]);
    }
}

/// Law: the status only worsens as consecutive failures grow.
pub proof fn law_status_monotone(f1: u64, f2: u64, degraded: u64, unhealthy: u64)
    requires
        f1 <= f2,
        degraded <= unhealthy,
    ensures
        health_status_spec(f1, degraded, unhealthy) == HealthStatus::Unhealthy
            ==> health_status_spec(f2, degraded, unhealthy) == HealthStatus::Unhealthy,
        health_status_spec(f1, degraded, unhealthy) == HealthStatus::Degraded
            ==> health_status_spec(f2, degraded, unhealthy) != HealthStatus::Healthy,
{
}

// ===========================================================================
// Transient errors
// ===========================================================================

/// Whether an ACP error is likely transient: timeouts, unavailable servers,
/// failed connections and I/O errors.
pub open spec fn transient_spec(error: &AcpError) -> bool {
    match error {
        AcpError::Timeout { .. } => true,
        AcpError::ServerUnavailable(_) => true,
        AcpError::ConnectionFailed(_) => true,
        AcpError::Io(_) => true,
        _ => false,
    }
}

/// Returns `true` if the error is likely transient and worth retrying.
pub fn is_transient(error: &AcpError) -> (r: bool)
    ensures
        r == transient_spec(error),
{
    match error {
        AcpError::Timeout { .. } => true,
        AcpError::ServerUnavailable(_) => true,
        AcpError::ConnectionFailed(_) => true,
        AcpError::Io(_) => true,
        _ => false,
    }
}

/// The progress of a retried operation: the attempt under way, the
/// attempts allowed, and the delay before the next retry.
#[derive(Debug, Clone, Copy, PartialEq, Eq, Structural)]
pub struct RetryState {
    pub attempt: u32,
    pub max_attempts: u32,
    pub delay_ms: u64,
}

/// The delay actually slept before a retry: the jitter's half is added on
/// even attempts and taken off on odd ones (saturating).
pub open spec fn jittered_spec(delay_ms: u64, jitter_ms: u64, attempt: u32) -> u64 {
    if jitter_ms == 0 {
        delay_ms
    } else if attempt % 2 == 0 {
        if delay_ms + jitter_ms / 2 > u64::MAX { u64::MAX } else { (delay_ms + jitter_ms / 2) as u64 }
    } else {
        if delay_ms < jitter_ms / 2 { 0 } else { (delay_ms - jitter_ms / 2) as u64 }
    }
}

impl RetryState {
    /// The first attempt, with the base delay before a retry.
    pub fn begin(max_attempts: u32, base_delay_ms: u64) -> (r: Self)
        requires
            max_attempts >= 1,
        ensures
            r == (RetryState { attempt: 1, max_attempts, delay_ms: base_delay_ms }),
    {
        RetryState { attempt: 1, max_attempts, delay_ms: base_delay_ms }
    }

    /// After a failed attempt: give up (`None`) when the error is not
    /// retryable or this was the last attempt; otherwise the delay to sleep
    /// (the current delay with jitter) before the next attempt, whose delay
    /// becomes `next_delay_ms`.
    pub fn on_failure(&mut self, retryable: bool, jitter_ms: u64, next_delay_ms: u64) -> (r: Option<u64>)
        requires
            1 <= old(self).attempt <= old(self).max_attempts,
        ensures
            (!retryable || old(self).attempt >= old(self).max_attempts) ==> r is None && *final(self) == *old(self),
            (retryable && old(self).attempt < old(self).max_attempts) ==> {
                &&& r == Some(jittered_spec(old(self).delay_ms, jitter_ms, old(self).attempt))
                &&& final(self).attempt == old(self).attempt + 1
                &&& final(self).max_attempts == old(self).max_attempts
                &&& final(self).delay_ms == next_delay_ms
            },
            1 <= final(self).attempt <= final(self).max_attempts,
    {
        if !retryable || self.attempt >= self.max_attempts {
            return None;
        }
        let d = self.delay_ms;
        let actual = if jitter_ms > 0 {
            if self.attempt % 2 == 0 {
                d.saturating_add(jitter_ms / 2)
            } else {
                d.saturating_sub(jitter_ms / 2)
            }
        } else {
            d
        };
        self.attempt = self.attempt + 1;
        self.delay_ms = next_delay_ms;
        Some(actual)
    }
}

} // verus!
