//! Error recovery and graceful degradation: errors are classified, counted in
//! a bounded history, guarded by per-subsystem circuit breakers, and mapped to
//! a recovery strategy that escalates when an error keeps recurring. Times are
//! milliseconds on a clock chosen by the caller.
use vstd::prelude::*;
use std::collections::VecDeque;
use crate::integration_error::{IntegrationError, error_text};
use crate::text::{seq_contains_sub, str_contains};

verus! {

/// Error recovery strategies.
#[derive(Debug, Clone, Copy, PartialEq, Eq, Structural)]
pub enum RecoveryStrategy {
    /// Retry the operation.
    Retry,
    /// Fall back to a simpler implementation.
    Fallback,
    /// Degrade quality or performance.
    Degrade,
    /// Skip the operation.
    Skip,
    /// Restart the subsystem.
    Restart,
    /// Shut down gracefully.
    Shutdown,
}

/// Kinds of errors.
#[derive(Debug, Clone, Copy, PartialEq, Eq, Hash, Structural)]
pub enum ErrorType {
    GpuOutOfMemory,
    GpuDeviceLost,
    GpuValidationError,
    DataLoadFailure,
    NetworkTimeout,
    ConfigInvalid,
    RenderFailure,
    BufferCreationFailure,
    ShaderCompilationFailure,
    Unknown,
}

/// The subsystems that errors come from.
#[derive(Debug, Clone, Copy, PartialEq, Eq, Hash, Structural)]
pub enum Subsystem {
    DataManager,
    Renderer,
    Configuration,
    Network,
    GPU,
}

/// How serious an error is, from least to most.
#[derive(Debug, Clone, Copy, PartialEq, Eq, PartialOrd, Ord, Hash, Structural)]
pub enum ErrorSeverity {
    Low,
    Medium,
    High,
    Critical,
}

/// What is known of one error when deciding how to recover from it.
#[derive(Debug, Clone, PartialEq, Eq)]
pub struct ErrorContext {
    pub error_type: ErrorType,
    pub subsystem: Subsystem,
    pub severity: ErrorSeverity,
    /// Earlier errors of the same type and subsystem in the recent window.
    pub occurrence_count: u32,
    pub first_occurrence: u64,
    pub last_occurrence: u64,
    pub details: String,
}

/// The window in which earlier occurrences of an error are counted: five minutes.
pub const RECENT_WINDOW_MS: u64 = 300_000;

/// The number of errors the history keeps.
pub const HISTORY_CAPACITY: usize = 1000;

/// More recent occurrences than this make an error recurring.
pub const ESCALATION_THRESHOLD: u32 = 5;

/// Type, subsystem and severity of an error, read from its variant and message.
pub open spec fn classify(e: IntegrationError) -> (ErrorType, Subsystem, ErrorSeverity) {
    match e {
        IntegrationError::DataManager(m) => (
            if seq_contains_sub(m@, "memory"@) {
                ErrorType::GpuOutOfMemory
            } else if seq_contains_sub(m@, "load"@) {
                ErrorType::DataLoadFailure
            } else {
                ErrorType::Unknown
            },
            Subsystem::DataManager,
            ErrorSeverity::Medium,
        ),
        IntegrationError::Renderer(m) => (
            if seq_contains_sub(m@, "device lost"@) {
                ErrorType::GpuDeviceLost
            } else if seq_contains_sub(m@, "shader"@) {
                ErrorType::ShaderCompilationFailure
            } else {
                ErrorType::RenderFailure
            },
            Subsystem::Renderer,
            ErrorSeverity::High,
        ),
        IntegrationError::Configuration(_) => (ErrorType::ConfigInvalid, Subsystem::Configuration, ErrorSeverity::Low),
        _ => (ErrorType::Unknown, Subsystem::DataManager, ErrorSeverity::Medium),
    }
}

/// The strategy configured for each error type, where there is one.
pub open spec fn predefined_strategy(t: ErrorType) -> Option<RecoveryStrategy> {
    match t {
        ErrorType::GpuOutOfMemory => Some(RecoveryStrategy::Degrade),
        ErrorType::GpuDeviceLost => Some(RecoveryStrategy::Restart),
        ErrorType::DataLoadFailure => Some(RecoveryStrategy::Retry),
        ErrorType::NetworkTimeout => Some(RecoveryStrategy::Retry),
        ErrorType::ConfigInvalid => Some(RecoveryStrategy::Fallback),
        ErrorType::RenderFailure => Some(RecoveryStrategy::Skip),
        ErrorType::BufferCreationFailure => Some(RecoveryStrategy::Degrade),
        ErrorType::ShaderCompilationFailure => Some(RecoveryStrategy::Fallback),
        _ => None,
    }
}

/// The next, more drastic strategy for a recurring error.
pub open spec fn escalate(s: RecoveryStrategy) -> RecoveryStrategy {
    match s {
        RecoveryStrategy::Retry => RecoveryStrategy::Fallback,
        RecoveryStrategy::Fallback => RecoveryStrategy::Degrade,
        RecoveryStrategy::Degrade => RecoveryStrategy::Shutdown,
        _ => s,
    }
}

/// The strategy when no predefined one applies.
pub open spec fn severity_strategy(sev: ErrorSeverity) -> RecoveryStrategy {
    match sev {
        ErrorSeverity::Low => RecoveryStrategy::Skip,
        ErrorSeverity::Medium => RecoveryStrategy::Retry,
        ErrorSeverity::High => RecoveryStrategy::Fallback,
        ErrorSeverity::Critical => RecoveryStrategy::Shutdown,
    }
}

/// The strategy for an error of type `t` and severity `sev` that occurred
/// `count` times recently.
pub open spec fn chosen_strategy(t: ErrorType, sev: ErrorSeverity, count: nat) -> RecoveryStrategy {
    match predefined_strategy(t) {
        Some(s) => if count > ESCALATION_THRESHOLD { escalate(s) } else { s },
        None => severity_strategy(sev),
    }
}

fn predefined_strategy_of(t: ErrorType) -> (r: Option<RecoveryStrategy>)
    ensures
        r == predefined_strategy(t),
{
    match t {
        ErrorType::GpuOutOfMemory => Some(RecoveryStrategy::Degrade),
        ErrorType::GpuDeviceLost => Some(RecoveryStrategy::Restart),
        ErrorType::DataLoadFailure => Some(RecoveryStrategy::Retry),
        ErrorType::NetworkTimeout => Some(RecoveryStrategy::Retry),
        ErrorType::ConfigInvalid => Some(RecoveryStrategy::Fallback),
        ErrorType::RenderFailure => Some(RecoveryStrategy::Skip),
        ErrorType::BufferCreationFailure => Some(RecoveryStrategy::Degrade),
        ErrorType::ShaderCompilationFailure => Some(RecoveryStrategy::Fallback),
        _ => None,
    }
}

/// Determines the recovery strategy for an analysed error.
pub fn determine_strategy(context: &ErrorContext) -> (r: RecoveryStrategy)
    ensures
        r == chosen_strategy(context.error_type, context.severity, context.occurrence_count as nat),
{
    match predefined_strategy_of(context.error_type) {
        Some(strategy) => {
            if context.occurrence_count > ESCALATION_THRESHOLD {
                match strategy {
                    RecoveryStrategy::Retry => RecoveryStrategy::Fallback,
                    RecoveryStrategy::Fallback => RecoveryStrategy::Degrade,
                    RecoveryStrategy::Degrade => RecoveryStrategy::Shutdown,
                    _ => strategy,
                }
            } else {
                strategy
            }
        },
        None => match context.severity {
            ErrorSeverity::Low => RecoveryStrategy::Skip,
            ErrorSeverity::Medium => RecoveryStrategy::Retry,
            ErrorSeverity::High => RecoveryStrategy::Fallback,
            ErrorSeverity::Critical => RecoveryStrategy::Shutdown,
        },
    }
}

// ---------------------------------------------------------------------------
// Error history

/// Is `c` an error of type `t` in subsystem `s` that occurred within the
/// recent window before `now`?
pub open spec fn recent_match(c: ErrorContext, t: ErrorType, s: Subsystem, now: u64) -> bool {
    c.error_type == t && c.subsystem == s && c.last_occurrence > now - RECENT_WINDOW_MS
}

/// How many entries of `h` are recent matches.
pub open spec fn count_recent(h: Seq<ErrorContext>, t: ErrorType, s: Subsystem, now: u64) -> nat
    decreases h.len(),
{
    if h.len() == 0 {
        0
    } else {
        count_recent(h.drop_last(), t, s, now) + if recent_match(h.last(), t, s, now) { 1nat } else { 0nat }
    }
}

proof fn lemma_count_recent_bound(h: Seq<ErrorContext>, t: ErrorType, s: Subsystem, now: u64)
    ensures
        count_recent(h, t, s, now) <= h.len(),
    decreases h.len(),
{
    if h.len() > 0 {
        lemma_count_recent_bound(h.drop_last(), t, s, now);
    }
}

/// `h` with `c` appended, dropping the oldest entry when more than `cap` would remain.
pub open spec fn bounded_push(h: Seq<ErrorContext>, c: ErrorContext, cap: nat) -> Seq<ErrorContext> {
    if h.len() + 1 > cap {
        h.push(c).drop_first()
    } else {
        h.push(c)
    }
}

/// The most recent errors, oldest first.
pub struct ErrorHistory {
    entries: VecDeque<ErrorContext>,
    max_entries: usize,
}

impl ErrorHistory {
    /// The kept errors, oldest first.
    pub closed spec fn entries(&self) -> Seq<ErrorContext> {
        self.entries@
    }

    /// At most `HISTORY_CAPACITY` errors are kept.
    pub closed spec fn wf(&self) -> bool {
        self.max_entries == HISTORY_CAPACITY && self.entries@.len() <= HISTORY_CAPACITY
    }

    /// An empty history.
    pub fn new() -> (r: ErrorHistory)
        ensures
            r.wf(),
            r.entries() == Seq::<ErrorContext>::empty(),
    {
        ErrorHistory { entries: VecDeque::new(), max_entries: HISTORY_CAPACITY }
    }

    /// Appends an error, dropping the oldest once the capacity is exceeded.
    pub fn record(&mut self, context: ErrorContext)
        requires
            old(self).wf(),
        ensures
            final(self).wf(),
            final(self).entries() == bounded_push(old(self).entries(), context, HISTORY_CAPACITY as nat),
    {
        self.entries.push_back(context);
        if self.entries.len() > self.max_entries {
            let _ = self.entries.pop_front();
        }
    }

    /// How many kept errors have type `error_type`, come from `subsystem` and
    /// occurred within the five minutes before `now`.
    pub fn count_occurrences(&self, error_type: ErrorType, subsystem: Subsystem, now: u64) -> (r: usize)
        requires
            self.wf(),
        ensures
            r as nat == count_recent(self.entries(), error_type, subsystem, now),
            r <= HISTORY_CAPACITY,
    {
        let n = self.entries.len();
        let mut i: usize = 0;
        let mut count: usize = 0;
        while i < n
            invariant
                n == self.entries@.len(),
                n <= HISTORY_CAPACITY,
                i <= n,
                count as nat == count_recent(self.entries@.take(i as int), error_type, subsystem, now),
                count <= i,
            decreases n - i,
        {
            let e = &self.entries[i];
            let recent = if now < RECENT_WINDOW_MS { true } else { e.last_occurrence > now - RECENT_WINDOW_MS };
            assert(self.entries@.take(i + 1).drop_last() =~= self.entries@.take(i as int));
            if e.error_type == error_type && e.subsystem == subsystem && recent {
                count = count + 1;
            }
            i = i + 1;
        }
        assert(self.entries@.take(n as int) =~= self.entries@);
        count
    }
}

// ---------------------------------------------------------------------------
// Circuit breakers

/// States of a circuit breaker.
#[derive(Debug, Clone, Copy, PartialEq, Eq, Structural)]
pub enum CircuitBreakerState {
    Closed,
    Open,
    HalfOpen,
}

/// Stops cascading failures: after `threshold` failures the breaker opens,
/// and it lets work through again once `timeout_ms` has passed since the last failure.
#[derive(Debug, Clone, Copy, PartialEq, Eq, Structural)]
pub struct CircuitBreaker {
    pub failure_count: u32,
    pub last_failure: Option<u64>,
    pub state: CircuitBreakerState,
    pub threshold: u32,
    pub timeout_ms: u64,
}

/// Does the breaker hold work back at time `now`?
pub open spec fn breaker_open(b: CircuitBreaker, now: u64) -> bool {
    b.state == CircuitBreakerState::Open && !(b.last_failure matches Some(last) && now - last > b.timeout_ms)
}

/// The breaker after a failure at time `now`.
pub open spec fn breaker_after_failure(b: CircuitBreaker, now: u64) -> CircuitBreaker {
    CircuitBreaker {
        failure_count: (b.failure_count + 1) as u32,
        last_failure: Some(now),
        state: if b.failure_count + 1 >= b.threshold { CircuitBreakerState::Open } else { b.state },
        ..b
    }
}

/// The breaker after a reset.
pub open spec fn breaker_reset(b: CircuitBreaker) -> CircuitBreaker {
    CircuitBreaker { failure_count: 0, last_failure: None, state: CircuitBreakerState::Closed, ..b }
}

impl CircuitBreaker {
    /// A fresh breaker.
    pub open spec fn spec_new() -> CircuitBreaker {
        CircuitBreaker {
            failure_count: 0,
            last_failure: None,
            state: CircuitBreakerState::Closed,
            threshold: 5,
            timeout_ms: 30_000,
        }
    }

    /// A closed breaker that opens after 5 failures and waits 30 s.
    pub fn new() -> (r: CircuitBreaker)
        ensures
            r == CircuitBreaker::spec_new(),
    {
        CircuitBreaker {
            failure_count: 0,
            last_failure: None,
            state: CircuitBreakerState::Closed,
            threshold: 5,
            timeout_ms: 30_000,
        }
    }

    /// Is the breaker open at time `now`? An open breaker whose last failure
    /// lies more than the timeout back lets work through.
    pub fn is_open(&self, now: u64) -> (r: bool)
        ensures
            r == breaker_open(*self, now),
    {
        match self.state {
            CircuitBreakerState::Open => {
                if let Some(last) = self.last_failure {
                    if now > last && now - last > self.timeout_ms {
                        return false;
                    }
                }
                true
            },
            _ => false,
        }
    }

    /// Counts a failure at time `now`, opening the breaker at the threshold.
    pub fn record_error(&mut self, now: u64)
        requires
            old(self).failure_count < u32::MAX,
        ensures
            *final(self) == breaker_after_failure(*old(self), now),
    {
        self.failure_count = self.failure_count + 1;
        self.last_failure = Some(now);
        if self.failure_count >= self.threshold {
            self.state = CircuitBreakerState::Open;
        }
    }

    /// Closes the breaker and forgets its failures.
    pub fn reset(&mut self)
        ensures
            *final(self) == breaker_reset(*old(self)),
    {
        self.failure_count = 0;
        self.last_failure = None;
        self.state = CircuitBreakerState::Closed;
    }
}

// ---------------------------------------------------------------------------
// Fallbacks

/// A simpler implementation to use in place of a failing one.
pub trait Fallback {
    /// Runs the fallback.
    fn execute(&self) -> Result<(), IntegrationError>;
}

/// Fallback implementations, by the error type they stand in for.
pub struct FallbackRegistry {
    error_types: Vec<ErrorType>,
    fallbacks: Vec<Box<dyn Fallback>>,
}

impl FallbackRegistry {
    /// The error types that have a fallback, in registration order.
    pub closed spec fn registered(&self) -> Seq<ErrorType> {
        self.error_types@
    }

    /// An empty registry.
    pub fn new() -> (r: FallbackRegistry)
        ensures
            r.registered() == Seq::<ErrorType>::empty(),
    {
        FallbackRegistry { error_types: Vec::new(), fallbacks: Vec::new() }
    }

    /// Registers the fallback for `error_type`, replacing an earlier one.
    pub fn register(&mut self, error_type: ErrorType, fallback: Box<dyn Fallback>)
        ensures
            final(self).registered().to_set() == old(self).registered().to_set().insert(error_type),
            old(self).registered().contains(error_type) ==> final(self).registered() == old(self).registered(),
            !old(self).registered().contains(error_type) ==> final(self).registered() == old(self).registered().push(error_type),
    {
        let mut i: usize = 0;
        while i < self.error_types.len()
            invariant
                i <= self.error_types@.len(),
                self.error_types@ == old(self).error_types@,
                forall|j: int| 0 <= j < i ==> self.error_types@[j] != error_type,
            decreases self.error_types@.len() - i,
        {
            if self.error_types[i] == error_type {
                if i < self.fallbacks.len() {
                    self.fallbacks.set(i, fallback);
                }
                assert(old(self).registered().to_set().contains(error_type)) by {
                    assert(old(self).registered()[i as int] == error_type);
                }
                assert(old(self).registered().to_set() =~= old(self).registered().to_set().insert(error_type));
                return;
            }
            i = i + 1;
        }
        self.error_types.push(error_type);
        self.fallbacks.push(fallback);
        proof {
            old(self).registered().lemma_push_to_set_commute(error_type);
        }
    }
}

// ---------------------------------------------------------------------------
// The recovery system

/// Recovery statistics.
#[derive(Debug, Clone, Copy, PartialEq, Eq, Structural)]
pub struct RecoveryStats {
    pub errors_handled: u64,
    pub retries: u64,
    pub fallbacks: u64,
    pub degradations: u64,
    pub circuit_breaks: u64,
    pub successful_recoveries: u64,
}

impl Default for RecoveryStats {
    fn default() -> (r: RecoveryStats)
        ensures
            r == (RecoveryStats { errors_handled: 0, retries: 0, fallbacks: 0, degradations: 0, circuit_breaks: 0, successful_recoveries: 0 }),
    {
        RecoveryStats { errors_handled: 0, retries: 0, fallbacks: 0, degradations: 0, circuit_breaks: 0, successful_recoveries: 0 }
    }
}

/// The statistics after a strategy was chosen: retries, fallbacks and
/// degradations are counted.
pub open spec fn count_strategy(st: RecoveryStats, r: RecoveryStrategy) -> RecoveryStats {
    match r {
        RecoveryStrategy::Retry => RecoveryStats { retries: (st.retries + 1) as u64, ..st },
        RecoveryStrategy::Fallback => RecoveryStats { fallbacks: (st.fallbacks + 1) as u64, ..st },
        RecoveryStrategy::Degrade => RecoveryStats { degradations: (st.degradations + 1) as u64, ..st },
        _ => st,
    }
}

/// `n` fresh circuit breakers.
pub open spec fn fresh_breakers(n: nat) -> Seq<CircuitBreaker> {
    Seq::new(n, |i: int| CircuitBreaker::spec_new())
}

/// The position of a subsystem's circuit breaker.
pub open spec fn subsystem_slot(s: Subsystem) -> int {
    match s {
        Subsystem::DataManager => 0,
        Subsystem::Renderer => 1,
        Subsystem::Configuration => 2,
        Subsystem::Network => 3,
        Subsystem::GPU => 4,
    }
}

fn subsystem_index(s: Subsystem) -> (r: usize)
    ensures
        r as int == subsystem_slot(s),
        r < 5,
{
    match s {
        Subsystem::DataManager => 0,
        Subsystem::Renderer => 1,
        Subsystem::Configuration => 2,
        Subsystem::Network => 3,
        Subsystem::GPU => 4,
    }
}

/// `c` is the context of error `e` at time `now`, after `count` recent occurrences.
pub open spec fn describes(c: ErrorContext, e: IntegrationError, count: nat, now: u64) -> bool {
    &&& c.error_type == classify(e).0
    &&& c.subsystem == classify(e).1
    &&& c.severity == classify(e).2
    &&& c.occurrence_count == count
    &&& c.first_occurrence == now
    &&& c.last_occurrence == now
    &&& c.details@ == error_text(e)
}

/// What to do next while carrying out a recovery strategy, after the
/// operation was attempted.
#[derive(Debug, Clone, PartialEq, Eq)]
pub enum AttemptOutcome {
    /// Hand back the operation's own result.
    Done,
    /// Wait this many milliseconds, then attempt the operation again.
    RetryAfter(u64),
    /// Hand back this error in place of the operation's.
    Fail(IntegrationError),
}

/// The retry schedule: up to three attempts, 100 ms before the second and
/// 200 ms before the third.
pub open spec fn attempt_outcome(strategy: RecoveryStrategy, attempt: u32, ok: bool) -> AttemptOutcome {
    if ok {
        AttemptOutcome::Done
    } else {
        match strategy {
            RecoveryStrategy::Retry => if attempt < 2 {
                AttemptOutcome::RetryAfter(if attempt == 0 { 100 } else { 200 })
            } else {
                AttemptOutcome::Done
            },
            _ => AttemptOutcome::Done,
        }
    }
}

/// Decides how to recover from errors.
pub struct ErrorRecoverySystem {
    error_history: ErrorHistory,
    fallbacks: FallbackRegistry,
    circuit_breakers: Vec<CircuitBreaker>,
    stats: RecoveryStats,
}

impl ErrorRecoverySystem {
    /// The recorded errors, oldest first.
    pub closed spec fn history(&self) -> Seq<ErrorContext> {
        self.error_history.entries()
    }

    /// The circuit breaker of each subsystem, in the order of `subsystem_slot`.
    pub closed spec fn breakers(&self) -> Seq<CircuitBreaker> {
        self.circuit_breakers@
    }

    /// The circuit breaker of a subsystem.
    pub open spec fn breaker(&self, s: Subsystem) -> CircuitBreaker {
        self.breakers()[subsystem_slot(s)]
    }

    /// The statistics.
    pub closed spec fn stats(&self) -> RecoveryStats {
        self.stats
    }

    /// The error types with a registered fallback.
    pub closed spec fn fallback_types(&self) -> Set<ErrorType> {
        self.fallbacks.registered().to_set()
    }

    /// One breaker per subsystem and a bounded history.
    pub closed spec fn wf(&self) -> bool {
        &&& self.error_history.wf()
        &&& self.circuit_breakers@.len() == 5
    }

    /// No counter that handling an error increments is at its maximum.
    pub open spec fn counters_below_max(&self) -> bool {
        &&& self.stats().errors_handled < u64::MAX
        &&& self.stats().retries < u64::MAX
        &&& self.stats().fallbacks < u64::MAX
        &&& self.stats().degradations < u64::MAX
        &&& forall|i: int| 0 <= i < self.breakers().len() ==> #[trigger] self.breakers()[i].failure_count < u32::MAX
    }

    /// A system with no recorded errors, a closed breaker per subsystem and
    /// zeroed statistics.
    pub fn new() -> (r: ErrorRecoverySystem)
        ensures
            r.wf(),
            r.history() == Seq::<ErrorContext>::empty(),
            r.breakers() == fresh_breakers(5),
            r.stats() == (RecoveryStats { errors_handled: 0, retries: 0, fallbacks: 0, degradations: 0, circuit_breaks: 0, successful_recoveries: 0 }),
            r.fallback_types() == Set::<ErrorType>::empty(),
    {
        let mut breakers: Vec<CircuitBreaker> = Vec::new();
        let mut i: usize = 0;
        while i < 5
            invariant
                i <= 5,
                breakers@ == fresh_breakers(i as nat),
            decreases 5 - i,
        {
            breakers.push(CircuitBreaker::new());
            assert(breakers@ =~= fresh_breakers((i + 1) as nat));
            i = i + 1;
        }
        let fallbacks = FallbackRegistry::new();
        assert(fallbacks.registered().to_set() =~= Set::<ErrorType>::empty());
        ErrorRecoverySystem {
            error_history: ErrorHistory::new(),
            fallbacks,
            circuit_breakers: breakers,
            stats: RecoveryStats::default(),
        }
    }

    /// The context of `error` at time `now`: its classification, how often it
    /// occurred in the last five minutes, and its text.
    fn analyze_error(&self, error: &IntegrationError, now: u64) -> (c: ErrorContext)
        requires
            self.wf(),
        ensures
            describes(c, *error, count_recent(self.history(), classify(*error).0, classify(*error).1, now), now),
    {
        let (error_type, subsystem, severity) = match error {
            IntegrationError::DataManager(msg) => {
                let error_type = if str_contains(msg.as_str(), "memory") {
                    ErrorType::GpuOutOfMemory
                } else if str_contains(msg.as_str(), "load") {
                    ErrorType::DataLoadFailure
                } else {
                    ErrorType::Unknown
                };
                (error_type, Subsystem::DataManager, ErrorSeverity::Medium)
            },
            IntegrationError::Renderer(msg) => {
                let error_type = if str_contains(msg.as_str(), "device lost") {
                    ErrorType::GpuDeviceLost
                } else if str_contains(msg.as_str(), "shader") {
                    ErrorType::ShaderCompilationFailure
                } else {
                    ErrorType::RenderFailure
                };
                (error_type, Subsystem::Renderer, ErrorSeverity::High)
            },
            IntegrationError::Configuration(_) => (ErrorType::ConfigInvalid, Subsystem::Configuration, ErrorSeverity::Low),
            _ => (ErrorType::Unknown, Subsystem::DataManager, ErrorSeverity::Medium),
        };
        let occurrence_count = self.error_history.count_occurrences(error_type, subsystem, now);
        ErrorContext {
            error_type,
            subsystem,
            severity,
            occurrence_count: occurrence_count as u32,
            first_occurrence: now,
            last_occurrence: now,
            details: error.to_text(),
        }
    }

    /// Handles an error at time `now`: records it, and chooses the recovery
    /// strategy. While the subsystem's circuit breaker is open the answer is
    /// `Fallback`; otherwise the failure is counted by the breaker and the
    /// strategy follows the error's type, severity and recurrence.
    pub fn handle_error(&mut self, error: &IntegrationError, now: u64) -> (r: RecoveryStrategy)
        requires
            old(self).wf(),
            old(self).counters_below_max(),
        ensures
            final(self).wf(),
            final(self).fallback_types() == old(self).fallback_types(),
            ({
                let (t, s, sev) = classify(*error);
                let count = count_recent(old(self).history(), t, s, now);
                let b = old(self).breaker(s);
                let handled = RecoveryStats { errors_handled: (old(self).stats().errors_handled + 1) as u64, ..old(self).stats() };
                &&& final(self).history() == bounded_push(old(self).history(), final(self).history().last(), HISTORY_CAPACITY as nat)
                &&& describes(final(self).history().last(), *error, count, now)
                &&& breaker_open(b, now) ==> {
                    &&& r == RecoveryStrategy::Fallback
                    &&& final(self).breakers() == old(self).breakers()
                    &&& final(self).stats() == handled
                }
                &&& !breaker_open(b, now) ==> {
                    &&& r == chosen_strategy(t, sev, count)
                    &&& final(self).breakers() == old(self).breakers().update(subsystem_slot(s), breaker_after_failure(b, now))
                    &&& final(self).stats() == count_strategy(handled, r)
                }
            }),
    {
        let context = self.analyze_error(error, now);
        proof {
            lemma_count_recent_bound(self.history(), context.error_type, context.subsystem, now);
        }
        let recorded = ErrorContext {
            error_type: context.error_type,
            subsystem: context.subsystem,
            severity: context.severity,
            occurrence_count: context.occurrence_count,
            first_occurrence: context.first_occurrence,
            last_occurrence: context.last_occurrence,
            details: context.details.clone(),
        };
        self.error_history.record(recorded);
        self.stats.errors_handled = self.stats.errors_handled + 1;

        let slot = subsystem_index(context.subsystem);
        let mut breaker = self.circuit_breakers[slot];
        if breaker.is_open(now) {
            return RecoveryStrategy::Fallback;
        }
        assert(old(self).breakers()[slot as int].failure_count < u32::MAX);
        breaker.record_error(now);
        self.circuit_breakers.set(slot, breaker);

        let strategy = determine_strategy(&context);
        match strategy {
            RecoveryStrategy::Retry => self.stats.retries = self.stats.retries + 1,
            RecoveryStrategy::Fallback => self.stats.fallbacks = self.stats.fallbacks + 1,
            RecoveryStrategy::Degrade => self.stats.degradations = self.stats.degradations + 1,
            _ => {},
        }
        strategy
    }

    /// Restarts a subsystem: its circuit breaker is reset.
    pub fn restart_subsystem(&mut self, subsystem: Subsystem) -> (r: Result<(), IntegrationError>)
        requires
            old(self).wf(),
        ensures
            final(self).wf(),
            r is Ok,
            final(self).breakers() == old(self).breakers().update(subsystem_slot(subsystem), breaker_reset(old(self).breaker(subsystem))),
            final(self).history() == old(self).history(),
            final(self).stats() == old(self).stats(),
            final(self).fallback_types() == old(self).fallback_types(),
    {
        let slot = subsystem_index(subsystem);
        let mut breaker = self.circuit_breakers[slot];
        breaker.reset();
        self.circuit_breakers.set(slot, breaker);
        Ok(())
    }

    /// The first step of carrying out `strategy` for an error of `subsystem`:
    /// `Skip` and `Shutdown` end at once with their error; `Restart` restarts
    /// the subsystem; otherwise the operation is attempted next (`None`).
    pub fn begin_recovery(&mut self, strategy: RecoveryStrategy, subsystem: Subsystem) -> (r: Option<IntegrationError>)
        requires
            old(self).wf(),
        ensures
            final(self).wf(),
            final(self).history() == old(self).history(),
            final(self).stats() == old(self).stats(),
            final(self).fallback_types() == old(self).fallback_types(),
            strategy == RecoveryStrategy::Skip ==> (r matches Some(IntegrationError::Recovery(m)) && m@ == "Operation skipped"@),
            strategy == RecoveryStrategy::Shutdown ==> (r matches Some(IntegrationError::Recovery(m)) && m@ == "System shutdown required"@),
            strategy != RecoveryStrategy::Skip && strategy != RecoveryStrategy::Shutdown ==> r is None,
            strategy == RecoveryStrategy::Restart ==> final(self).breakers() == old(self).breakers().update(subsystem_slot(subsystem), breaker_reset(old(self).breaker(subsystem))),
            strategy != RecoveryStrategy::Restart ==> final(self).breakers() == old(self).breakers(),
    {
        match strategy {
            RecoveryStrategy::Skip => Some(IntegrationError::Recovery(String::from_str("Operation skipped"))),
            RecoveryStrategy::Shutdown => Some(IntegrationError::Recovery(String::from_str("System shutdown required"))),
            RecoveryStrategy::Restart => {
                let _ = self.restart_subsystem(subsystem);
                None
            },
            _ => None,
        }
    }

    /// The statistics.
    pub fn get_stats(&self) -> (r: RecoveryStats)
        ensures
            r == self.stats(),
    {
        self.stats
    }

    /// The circuit breaker of a subsystem.
    pub fn circuit_breaker(&self, subsystem: Subsystem) -> (r: CircuitBreaker)
        requires
            self.wf(),
        ensures
            r == self.breaker(subsystem),
    {
        self.circuit_breakers[subsystem_index(subsystem)]
    }

    /// Registers a fallback implementation for an error type.
    pub fn register_fallback(&mut self, error_type: ErrorType, fallback: Box<dyn Fallback>)
        requires
            old(self).wf(),
        ensures
            final(self).wf(),
            final(self).fallback_types() == old(self).fallback_types().insert(error_type),
            final(self).history() == old(self).history(),
            final(self).breakers() == old(self).breakers(),
            final(self).stats() == old(self).stats(),
    {
        self.fallbacks.register(error_type, fallback);
    }
}

/// After an attempt of the operation under `strategy` (attempts counted from
/// zero) that succeeded (`ok`) or failed: what to do next. A failed attempt
/// under `Retry` is repeated after 100 ms, then after 200 ms; a failure under
/// `Fallback` ends with "No fallback available", since no fallback is run.
pub fn after_attempt(strategy: RecoveryStrategy, attempt: u32, ok: bool) -> (r: AttemptOutcome)
    ensures
        !(strategy == RecoveryStrategy::Fallback && !ok) ==> r == attempt_outcome(strategy, attempt, ok),
        strategy == RecoveryStrategy::Fallback && !ok ==> (r matches AttemptOutcome::Fail(IntegrationError::Recovery(m)) && m@ == "No fallback available"@),
{
    if ok {
        return AttemptOutcome::Done;
    }
    match strategy {
        RecoveryStrategy::Retry => {
            if attempt < 2 {
                AttemptOutcome::RetryAfter(if attempt == 0 { 100 } else { 200 })
            } else {
                AttemptOutcome::Done
            }
        },
        RecoveryStrategy::Fallback => AttemptOutcome::Fail(IntegrationError::Recovery(String::from_str("No fallback available"))),
        _ => AttemptOutcome::Done,
    }
}

// ---------------------------------------------------------------------------
// Laws

/// The breaker after failures at the given times, in order.
pub open spec fn after_failures(b: CircuitBreaker, times: Seq<u64>) -> CircuitBreaker
    decreases times.len(),
{
    if times.len() == 0 {
        b
    } else {
        breaker_after_failure(after_failures(b, times.drop_last()), times.last())
    }
}

/// A fresh breaker counts every failure, stays closed for the first four and
/// is open from the fifth on, remembering the time of the latest.
pub proof fn law_breaker_trips_at_threshold(times: Seq<u64>)
    requires
        times.len() < u32::MAX,
    ensures
        after_failures(CircuitBreaker::spec_new(), times).failure_count == times.len(),
        after_failures(CircuitBreaker::spec_new(), times).threshold == 5,
        after_failures(CircuitBreaker::spec_new(), times).timeout_ms == 30_000,
        times.len() < 5 ==> after_failures(CircuitBreaker::spec_new(), times).state == CircuitBreakerState::Closed,
        times.len() >= 5 ==> after_failures(CircuitBreaker::spec_new(), times).state == CircuitBreakerState::Open,
        times.len() > 0 ==> after_failures(CircuitBreaker::spec_new(), times).last_failure == Some(times.last()),
    decreases times.len(),
{
    if times.len() > 0 {
        law_breaker_trips_at_threshold(times.drop_last());
    }
}

/// An open breaker holds work back from its last failure until the timeout
/// has passed, and lets work through after that.
pub proof fn law_open_breaker_times_out(b: CircuitBreaker, now: u64, later: u64)
    requires
        b.failure_count < u32::MAX,
        b.failure_count + 1 >= b.threshold,
    ensures
        now <= later <= now + b.timeout_ms ==> breaker_open(breaker_after_failure(b, now), later),
        later > now + b.timeout_ms ==> !breaker_open(breaker_after_failure(b, now), later),
{
}

/// A reset breaker lets work through at any time, and a closed one is never open.
pub proof fn law_reset_closes(b: CircuitBreaker, t: u64)
    ensures
        !breaker_open(breaker_reset(b), t),
        b.state == CircuitBreakerState::Closed ==> !breaker_open(b, t),
{
}

/// A recurring error (more than five recent occurrences) gets the next more
/// drastic strategy than a rare one: Retry becomes Fallback, Fallback becomes
/// Degrade and Degrade becomes Shutdown; errors without a predefined strategy
/// are handled by severity however often they occur.
pub proof fn law_recurring_errors_escalate(t: ErrorType, sev: ErrorSeverity, rare: nat, recurring: nat)
    requires
        rare <= 5 < recurring,
    ensures
        predefined_strategy(t) is Some ==> chosen_strategy(t, sev, recurring) == escalate(chosen_strategy(t, sev, rare)),
        predefined_strategy(t) is None ==> chosen_strategy(t, sev, recurring) == chosen_strategy(t, sev, rare)
            && chosen_strategy(t, sev, rare) == severity_strategy(sev),
{
}

/// The history never holds more than its capacity: a new error is always
/// kept as the newest entry, and only when the capacity is exceeded is the
/// oldest one dropped.
pub proof fn law_history_bounded(h: Seq<ErrorContext>, c: ErrorContext, cap: nat)
    requires
        h.len() <= cap,
        cap > 0,
    ensures
        bounded_push(h, c, cap).len() <= cap,
        bounded_push(h, c, cap).last() == c,
        h.len() < cap ==> bounded_push(h, c, cap) == h.push(c),
        h.len() == cap ==> bounded_push(h, c, cap) == h.subrange(1, h.len() as int).push(c),
{
    if h.len() == cap {
        assert(h.push(c).drop_first() =~= h.subrange(1, h.len() as int).push(c));
    }
}

} // verus!
