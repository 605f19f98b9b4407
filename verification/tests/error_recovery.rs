use gpu_charts::error_recovery::{
    after_attempt, determine_strategy, AttemptOutcome, CircuitBreaker, CircuitBreakerState, ErrorContext,
    ErrorHistory, ErrorRecoverySystem, ErrorSeverity, ErrorType, Fallback, FallbackRegistry, RecoveryStrategy,
    Subsystem,
};
use gpu_charts::integration_error::IntegrationError;

fn dm(msg: &str) -> IntegrationError {
    IntegrationError::DataManager(msg.to_string())
}

fn rd(msg: &str) -> IntegrationError {
    IntegrationError::Renderer(msg.to_string())
}

#[test]
fn errors_are_classified_by_variant_and_message() {
    let cases = vec![
        (dm("out of memory while uploading"), RecoveryStrategy::Degrade),
        (dm("failed to load chunk"), RecoveryStrategy::Retry),
        (dm("something odd"), RecoveryStrategy::Retry),
        (rd("GPU device lost"), RecoveryStrategy::Restart),
        (rd("shader did not compile"), RecoveryStrategy::Fallback),
        (rd("frame dropped"), RecoveryStrategy::Skip),
        (IntegrationError::Configuration("bad value".to_string()), RecoveryStrategy::Fallback),
        (IntegrationError::Lifecycle("late".to_string()), RecoveryStrategy::Retry),
    ];
    for (error, expected) in cases {
        let mut system = ErrorRecoverySystem::new();
        assert_eq!(system.handle_error(&error, 1_000), expected, "{:?}", error);
    }
}

#[test]
fn breaker_opens_after_five_failures_and_recurring_errors_escalate() {
    let mut system = ErrorRecoverySystem::new();
    let error = dm("failed to load data");
    for t in 0..5u64 {
        assert_eq!(system.handle_error(&error, t), RecoveryStrategy::Retry);
    }
    let breaker = system.circuit_breaker(Subsystem::DataManager);
    assert_eq!(breaker.state, CircuitBreakerState::Open);
    assert_eq!(breaker.failure_count, 5);
    // While the breaker is open the answer is Fallback, and the failure is not counted by it.
    assert_eq!(system.handle_error(&error, 5), RecoveryStrategy::Fallback);
    assert_eq!(system.circuit_breaker(Subsystem::DataManager).failure_count, 5);
    // After the 30 s timeout work goes through again; six recent occurrences escalate Retry to Fallback.
    assert_eq!(system.handle_error(&error, 4 + 30_001), RecoveryStrategy::Fallback);
    let stats = system.get_stats();
    assert_eq!(stats.errors_handled, 7);
    assert_eq!(stats.retries, 5);
    assert_eq!(stats.fallbacks, 1);
    assert_eq!(stats.degradations, 0);
    // Other subsystems are unaffected.
    assert_eq!(system.circuit_breaker(Subsystem::Renderer), CircuitBreaker::new());
}

#[test]
fn old_occurrences_do_not_count() {
    let mut system = ErrorRecoverySystem::new();
    let error = dm("memory exhausted");
    // Six errors spaced 31 s apart, so the breaker never holds them back.
    for i in 0..6u64 {
        assert_eq!(system.handle_error(&error, i * 31_000), RecoveryStrategy::Degrade);
    }
    // The seventh sees six recent occurrences: Degrade escalates to Shutdown.
    assert_eq!(system.handle_error(&error, 6 * 31_000), RecoveryStrategy::Shutdown);
    // Far later, the old errors have left the five-minute window.
    assert_eq!(system.handle_error(&error, 10_000_000), RecoveryStrategy::Degrade);
    assert_eq!(system.get_stats().degradations, 7);
}

#[test]
fn restart_resets_the_breaker() {
    let mut system = ErrorRecoverySystem::new();
    let error = rd("GPU device lost");
    for t in 0..5u64 {
        system.handle_error(&error, t);
    }
    assert!(system.circuit_breaker(Subsystem::Renderer).is_open(10));
    assert_eq!(system.begin_recovery(RecoveryStrategy::Restart, Subsystem::Renderer), None);
    assert!(!system.circuit_breaker(Subsystem::Renderer).is_open(10));
    assert_eq!(system.circuit_breaker(Subsystem::Renderer).failure_count, 0);
    assert_eq!(system.restart_subsystem(Subsystem::GPU), Ok(()));
}

#[test]
fn skip_and_shutdown_end_at_once() {
    let mut system = ErrorRecoverySystem::new();
    assert_eq!(
        system.begin_recovery(RecoveryStrategy::Skip, Subsystem::Network),
        Some(IntegrationError::Recovery("Operation skipped".to_string()))
    );
    assert_eq!(
        system.begin_recovery(RecoveryStrategy::Shutdown, Subsystem::Network),
        Some(IntegrationError::Recovery("System shutdown required".to_string()))
    );
    assert_eq!(system.begin_recovery(RecoveryStrategy::Retry, Subsystem::Network), None);
}

#[test]
fn retry_schedule_and_missing_fallback() {
    assert_eq!(after_attempt(RecoveryStrategy::Retry, 0, false), AttemptOutcome::RetryAfter(100));
    assert_eq!(after_attempt(RecoveryStrategy::Retry, 1, false), AttemptOutcome::RetryAfter(200));
    assert_eq!(after_attempt(RecoveryStrategy::Retry, 2, false), AttemptOutcome::Done);
    assert_eq!(after_attempt(RecoveryStrategy::Retry, 0, true), AttemptOutcome::Done);
    assert_eq!(
        after_attempt(RecoveryStrategy::Fallback, 0, false),
        AttemptOutcome::Fail(IntegrationError::Recovery("No fallback available".to_string()))
    );
    assert_eq!(after_attempt(RecoveryStrategy::Fallback, 0, true), AttemptOutcome::Done);
    assert_eq!(after_attempt(RecoveryStrategy::Degrade, 0, false), AttemptOutcome::Done);
}

fn context(t: ErrorType, sev: ErrorSeverity, count: u32) -> ErrorContext {
    ErrorContext {
        error_type: t,
        subsystem: Subsystem::GPU,
        severity: sev,
        occurrence_count: count,
        first_occurrence: 0,
        last_occurrence: 0,
        details: String::new(),
    }
}

#[test]
fn strategies_by_type_severity_and_recurrence() {
    assert_eq!(determine_strategy(&context(ErrorType::NetworkTimeout, ErrorSeverity::Low, 5)), RecoveryStrategy::Retry);
    assert_eq!(determine_strategy(&context(ErrorType::NetworkTimeout, ErrorSeverity::Low, 6)), RecoveryStrategy::Fallback);
    assert_eq!(determine_strategy(&context(ErrorType::ConfigInvalid, ErrorSeverity::Low, 6)), RecoveryStrategy::Degrade);
    assert_eq!(determine_strategy(&context(ErrorType::BufferCreationFailure, ErrorSeverity::Low, 9)), RecoveryStrategy::Shutdown);
    assert_eq!(determine_strategy(&context(ErrorType::RenderFailure, ErrorSeverity::Low, 9)), RecoveryStrategy::Skip);
    assert_eq!(determine_strategy(&context(ErrorType::GpuDeviceLost, ErrorSeverity::Low, 9)), RecoveryStrategy::Restart);
    assert_eq!(determine_strategy(&context(ErrorType::GpuValidationError, ErrorSeverity::Low, 9)), RecoveryStrategy::Skip);
    assert_eq!(determine_strategy(&context(ErrorType::Unknown, ErrorSeverity::Medium, 0)), RecoveryStrategy::Retry);
    assert_eq!(determine_strategy(&context(ErrorType::Unknown, ErrorSeverity::High, 0)), RecoveryStrategy::Fallback);
    assert_eq!(determine_strategy(&context(ErrorType::Unknown, ErrorSeverity::Critical, 0)), RecoveryStrategy::Shutdown);
}

#[test]
fn breaker_timing() {
    let mut b = CircuitBreaker::new();
    for t in 0..4u64 {
        b.record_error(t);
        assert!(!b.is_open(t));
    }
    b.record_error(1_000);
    assert!(b.is_open(1_000));
    assert!(b.is_open(31_000));
    assert!(!b.is_open(31_001));
    // A clock that went backwards keeps the breaker open.
    assert!(b.is_open(0));
    b.reset();
    assert_eq!(b, CircuitBreaker::new());
}

#[test]
fn history_keeps_the_latest_thousand() {
    let mut h = ErrorHistory::new();
    for i in 0..1001u64 {
        let mut c = context(ErrorType::NetworkTimeout, ErrorSeverity::Medium, 0);
        c.subsystem = Subsystem::Network;
        c.last_occurrence = i;
        h.record(c);
    }
    assert_eq!(h.count_occurrences(ErrorType::NetworkTimeout, Subsystem::Network, 1000), 1000);
    assert_eq!(h.count_occurrences(ErrorType::NetworkTimeout, Subsystem::GPU, 1000), 0);
    // Only occurrences in the five minutes before `now` count.
    assert_eq!(h.count_occurrences(ErrorType::NetworkTimeout, Subsystem::Network, 300_500), 500);
}

struct NoOp;

impl Fallback for NoOp {
    fn execute(&self) -> Result<(), IntegrationError> {
        Ok(())
    }
}

#[test]
fn fallbacks_register_by_type() {
    let mut registry = FallbackRegistry::new();
    registry.register(ErrorType::RenderFailure, Box::new(NoOp));
    registry.register(ErrorType::RenderFailure, Box::new(NoOp));
    let mut system = ErrorRecoverySystem::new();
    system.register_fallback(ErrorType::ConfigInvalid, Box::new(NoOp));
    assert_eq!(system.get_stats().errors_handled, 0);
    assert!(NoOp.execute().is_ok());
}
