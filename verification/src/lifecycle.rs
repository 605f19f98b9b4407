//! Lifecycle coordination: the system-wide state machine, the resources that
//! must be released before shutdown, and lifecycle statistics. Times are
//! milliseconds on a clock chosen by the caller.
use vstd::prelude::*;
use crate::integration_error::{error_text, IntegrationError};
use crate::utils::Delay;

verus! {

/// Lifecycle states.
#[derive(Debug, Clone, Copy, PartialEq, Eq, Structural)]
pub enum LifecycleState {
    Uninitialized,
    Initializing,
    Ready,
    Running,
    Paused,
    ShuttingDown,
    Terminated,
    Error,
}

/// Kinds of tracked resources.
#[derive(Debug, Clone, Copy, PartialEq, Eq, Hash, Structural)]
pub enum ResourceType {
    DataBuffer,
    RenderPipeline,
    Surface,
    ConfigFile,
}

/// Lifecycle events.
#[derive(Debug, Clone, PartialEq, Eq)]
pub enum LifecycleEvent {
    /// Old state, new state.
    StateChanged(LifecycleState, LifecycleState),
    InitComplete,
    ShutdownRequested,
    ErrorOccurred(String),
    ResourceCreated(ResourceType, String),
    ResourceDestroyed(ResourceType, String),
}

/// The allowed moves between lifecycle states.
pub open spec fn valid_transition(from: LifecycleState, to: LifecycleState) -> bool {
    match (from, to) {
        (LifecycleState::Uninitialized, LifecycleState::Initializing) => true,
        (LifecycleState::Initializing, LifecycleState::Ready) => true,
        (LifecycleState::Ready, LifecycleState::Running) => true,
        (LifecycleState::Running, LifecycleState::Paused) => true,
        (LifecycleState::Paused, LifecycleState::Running) => true,
        (LifecycleState::Ready, LifecycleState::ShuttingDown) => true,
        (LifecycleState::Running, LifecycleState::ShuttingDown) => true,
        (LifecycleState::Paused, LifecycleState::ShuttingDown) => true,
        (LifecycleState::Error, LifecycleState::ShuttingDown) => true,
        (LifecycleState::ShuttingDown, LifecycleState::Terminated) => true,
        (_, LifecycleState::Error) => true,
        (LifecycleState::Error, LifecycleState::Initializing) => true,
        _ => false,
    }
}

/// Is a move between two lifecycle states allowed?
pub fn is_valid_transition(from: LifecycleState, to: LifecycleState) -> (r: bool)
    ensures
        r == valid_transition(from, to),
{
    match (from, to) {
        (LifecycleState::Uninitialized, LifecycleState::Initializing) => true,
        (LifecycleState::Initializing, LifecycleState::Ready) => true,
        (LifecycleState::Ready, LifecycleState::Running) => true,
        (LifecycleState::Running, LifecycleState::Paused) => true,
        (LifecycleState::Paused, LifecycleState::Running) => true,
        (LifecycleState::Ready, LifecycleState::ShuttingDown) => true,
        (LifecycleState::Running, LifecycleState::ShuttingDown) => true,
        (LifecycleState::Paused, LifecycleState::ShuttingDown) => true,
        (LifecycleState::Error, LifecycleState::ShuttingDown) => true,
        (LifecycleState::ShuttingDown, LifecycleState::Terminated) => true,
        (_, LifecycleState::Error) => true,
        (LifecycleState::Error, LifecycleState::Initializing) => true,
        _ => false,
    }
}

/// The name of a state as it appears in messages.
pub open spec fn state_name(s: LifecycleState) -> Seq<char> {
    match s {
        LifecycleState::Uninitialized => "Uninitialized"@,
        LifecycleState::Initializing => "Initializing"@,
        LifecycleState::Ready => "Ready"@,
        LifecycleState::Running => "Running"@,
        LifecycleState::Paused => "Paused"@,
        LifecycleState::ShuttingDown => "ShuttingDown"@,
        LifecycleState::Terminated => "Terminated"@,
        LifecycleState::Error => "Error"@,
    }
}

fn state_name_str(s: LifecycleState) -> (r: &'static str)
    ensures
        r@ == state_name(s),
{
    match s {
        LifecycleState::Uninitialized => "Uninitialized",
        LifecycleState::Initializing => "Initializing",
        LifecycleState::Ready => "Ready",
        LifecycleState::Running => "Running",
        LifecycleState::Paused => "Paused",
        LifecycleState::ShuttingDown => "ShuttingDown",
        LifecycleState::Terminated => "Terminated",
        LifecycleState::Error => "Error",
    }
}

/// The message of a refused transition.
pub open spec fn invalid_transition_text(from: LifecycleState, to: LifecycleState) -> Seq<char> {
    "Invalid transition from "@ + state_name(from) + " to "@ + state_name(to)
}

/// A tracked resource: its kind and identifier.
#[derive(Debug, Clone, PartialEq, Eq)]
pub struct ResourceEntry {
    pub kind: ResourceType,
    pub id: String,
}

/// The set of live resources, by kind and identifier.
pub struct ResourceTracker {
    entries: Vec<ResourceEntry>,
}

impl ResourceTracker {
    /// The live resources as (kind, identifier) pairs, in registration order.
    pub closed spec fn seq(&self) -> Seq<(ResourceType, Seq<char>)> {
        self.entries@.map_values(|e: ResourceEntry| (e.kind, e.id@))
    }

    /// The live resources.
    pub open spec fn resources(&self) -> Set<(ResourceType, Seq<char>)> {
        self.seq().to_set()
    }

    /// No resource is tracked twice.
    pub open spec fn wf(&self) -> bool {
        self.seq().no_duplicates()
    }

    /// An empty tracker.
    pub fn new() -> (r: ResourceTracker)
        ensures
            r.wf(),
            r.resources() == Set::<(ResourceType, Seq<char>)>::empty(),
    {
        let r = ResourceTracker { entries: Vec::new() };
        assert(r.seq() =~= Seq::<(ResourceType, Seq<char>)>::empty());
        assert(r.resources() =~= Set::<(ResourceType, Seq<char>)>::empty());
        r
    }

    fn find(&self, kind: ResourceType, id: &str) -> (r: Option<usize>)
        ensures
            match r {
                Some(i) => i < self.seq().len() && self.seq()[i as int] == (kind, id@),
                None => !self.seq().contains((kind, id@)),
            },
    {
        let mut i: usize = 0;
        while i < self.entries.len()
            invariant
                i <= self.entries.len(),
                forall|j: int| 0 <= j < i ==> self.seq()[j] != (kind, id@),
            decreases self.entries.len() - i,
        {
            if self.entries[i].kind == kind && crate::text::str_eq(self.entries[i].id.as_str(), id) {
                return Some(i);
            }
            i = i + 1;
        }
        None
    }

    /// Tracks a resource; tracking it again changes nothing.
    pub fn register(&mut self, kind: ResourceType, id: String)
        requires
            old(self).wf(),
        ensures
            final(self).wf(),
            final(self).resources() == old(self).resources().insert((kind, id@)),
    {
        if self.find(kind, id.as_str()).is_none() {
            let ghost old_seq = self.seq();
            let ghost idv = id@;
            self.entries.push(ResourceEntry { kind, id });
            assert(self.seq() =~= old_seq.push((kind, idv)));
            proof {
                old_seq.lemma_push_to_set_commute((kind, idv));
            }
            assert(self.resources() =~= old(self).resources().insert((kind, idv)));
        } else {
            assert(old(self).resources().contains((kind, id@)));
            assert(self.resources() =~= old(self).resources().insert((kind, id@)));
        }
    }

    /// Stops tracking a resource; unknown resources are ignored.
    pub fn unregister(&mut self, kind: ResourceType, id: &str)
        requires
            old(self).wf(),
        ensures
            final(self).wf(),
            final(self).resources() == old(self).resources().remove((kind, id@)),
    {
        match self.find(kind, id) {
            Some(i) => {
                let ghost old_seq = self.seq();
                self.entries.remove(i);
                assert(self.seq() =~= old_seq.remove(i as int));
                assert forall|x: (ResourceType, Seq<char>)| #[trigger] self.resources().contains(x) <==> old(self).resources().remove((kind, id@)).contains(x) by {
                    if self.resources().contains(x) {
                        let k = choose|k: int| 0 <= k < self.seq().len() && self.seq()[k] == x;
                        if k < i { assert(old_seq[k] == x); } else { assert(old_seq[k + 1] == x); }
                    }
                    if old(self).resources().remove((kind, id@)).contains(x) {
                        let k = choose|k: int| 0 <= k < old_seq.len() && old_seq[k] == x;
                        assert(k != i);
                        if k < i { assert(self.seq()[k] == x); } else { assert(self.seq()[k - 1] == x); }
                    }
                }
                assert(self.resources() =~= old(self).resources().remove((kind, id@)));
            },
            None => {
                assert(self.resources() =~= old(self).resources().remove((kind, id@)));
            },
        }
    }

    /// The number of live resources.
    pub fn total_count(&self) -> (r: usize)
        requires
            self.wf(),
        ensures
            r as nat == self.resources().len(),
    {
        proof {
            self.seq().unique_seq_to_set();
        }
        self.entries.len()
    }
}

/// Lifecycle statistics.
#[derive(Debug, Clone, Copy, PartialEq, Eq, Structural)]
pub struct LifecycleStats {
    pub state_transitions: u64,
    pub errors_reported: u64,
    pub resources_created: u64,
    pub resources_destroyed: u64,
    pub uptime_seconds: u64,
}

impl Default for LifecycleStats {
    fn default() -> (r: LifecycleStats)
        ensures
            r == (LifecycleStats { state_transitions: 0, errors_reported: 0, resources_created: 0, resources_destroyed: 0, uptime_seconds: 0 }),
    {
        LifecycleStats { state_transitions: 0, errors_reported: 0, resources_created: 0, resources_destroyed: 0, uptime_seconds: 0 }
    }
}

/// What waiting for the release of resources during shutdown concludes.
#[derive(Debug, Clone, Copy, PartialEq, Eq, Structural)]
pub enum ReleasePoll {
    /// Every resource is released.
    Released,
    /// Resources remain; wait 100 ms and poll again.
    Wait,
    /// Resources remain after the 10 s limit.
    TimedOut,
}

/// Coordinates the system-wide lifecycle.
pub struct LifecycleCoordinator {
    state: LifecycleState,
    state_history: Vec<(u64, LifecycleState)>,
    resources: ResourceTracker,
    stats: LifecycleStats,
}

impl LifecycleCoordinator {
    /// The current state.
    pub closed spec fn state(&self) -> LifecycleState {
        self.state
    }

    /// The states entered so far, each with the time it was entered.
    pub closed spec fn history(&self) -> Seq<(u64, LifecycleState)> {
        self.state_history@
    }

    /// The statistics.
    pub closed spec fn stats(&self) -> LifecycleStats {
        self.stats
    }

    /// The live resources.
    pub closed spec fn resources(&self) -> Set<(ResourceType, Seq<char>)> {
        self.resources.resources()
    }

    /// The history starts with the initial state, ends with the current one,
    /// and holds one entry per transition after the first.
    pub closed spec fn wf(&self) -> bool {
        &&& self.resources.wf()
        &&& self.state_history@.len() >= 1
        &&& self.state_history@.last().1 == self.state
        &&& self.state_history@.len() == self.stats.state_transitions + 1
    }

    /// A coordinator in `Uninitialized`, created at time `now`.
    pub fn new(now: u64) -> (r: LifecycleCoordinator)
        ensures
            r.wf(),
            r.state() == LifecycleState::Uninitialized,
            r.history() == seq![(now, LifecycleState::Uninitialized)],
            r.stats() == (LifecycleStats { state_transitions: 0, errors_reported: 0, resources_created: 0, resources_destroyed: 0, uptime_seconds: 0 }),
            r.resources() == Set::<(ResourceType, Seq<char>)>::empty(),
    {
        let mut h = Vec::new();
        h.push((now, LifecycleState::Uninitialized));
        LifecycleCoordinator {
            state: LifecycleState::Uninitialized,
            state_history: h,
            resources: ResourceTracker::new(),
            stats: LifecycleStats::default(),
        }
    }

    /// The current state.
    pub fn get_state(&self) -> (r: LifecycleState)
        ensures
            r == self.state(),
    {
        self.state
    }

    /// The statistics.
    pub fn get_stats(&self) -> (r: LifecycleStats)
        ensures
            r == self.stats(),
    {
        self.stats
    }

    /// Moves to `new_state` at time `now` when the move is allowed; otherwise
    /// refuses it and changes nothing.
    pub fn transition_to(&mut self, new_state: LifecycleState, now: u64) -> (r: Result<(), IntegrationError>)
        requires
            old(self).wf(),
            old(self).stats().state_transitions < u64::MAX,
        ensures
            final(self).wf(),
            final(self).resources() == old(self).resources(),
            valid_transition(old(self).state(), new_state) ==> {
                &&& r is Ok
                &&& final(self).state() == new_state
                &&& final(self).history() == old(self).history().push((now, new_state))
                &&& final(self).stats() == (LifecycleStats { state_transitions: (old(self).stats().state_transitions + 1) as u64, ..old(self).stats() })
            },
            !valid_transition(old(self).state(), new_state) ==> {
                &&& r matches Err(IntegrationError::Lifecycle(m)) && m@ == invalid_transition_text(old(self).state(), new_state)
                &&& final(self).state() == old(self).state()
                &&& final(self).history() == old(self).history()
                &&& final(self).stats() == old(self).stats()
            },
    {
        let old_state = self.state;
        if !is_valid_transition(old_state, new_state) {
            let mut m = String::from_str("Invalid transition from ");
            m.append(state_name_str(old_state));
            m.append(" to ");
            m.append(state_name_str(new_state));
            return Err(IntegrationError::Lifecycle(m));
        }
        self.state = new_state;
        self.state_history.push((now, new_state));
        self.stats.state_transitions = self.stats.state_transitions + 1;
        Ok(())
    }

    /// Moves to `required` -> `target` when the system is in `required`;
    /// otherwise fails with `msg`.
    fn guarded_transition(&mut self, required: LifecycleState, target: LifecycleState, msg: &str, now: u64) -> (r: Result<(), IntegrationError>)
        requires
            old(self).wf(),
            old(self).stats().state_transitions < u64::MAX,
            valid_transition(required, target),
        ensures
            final(self).wf(),
            final(self).resources() == old(self).resources(),
            old(self).state() == required ==> {
                &&& r is Ok
                &&& final(self).state() == target
                &&& final(self).history() == old(self).history().push((now, target))
                &&& final(self).stats() == (LifecycleStats { state_transitions: (old(self).stats().state_transitions + 1) as u64, ..old(self).stats() })
            },
            old(self).state() != required ==> {
                &&& r matches Err(IntegrationError::Lifecycle(m)) && m@ == msg@
                &&& final(self).state() == old(self).state()
                &&& final(self).history() == old(self).history()
                &&& final(self).stats() == old(self).stats()
            },
    {
        if self.state != required {
            return Err(IntegrationError::Lifecycle(String::from_str(msg)));
        }
        self.transition_to(target, now)
    }

    /// Starts the system: `Ready` -> `Running`.
    pub fn start(&mut self, now: u64) -> (r: Result<(), IntegrationError>)
        requires
            old(self).wf(),
            old(self).stats().state_transitions < u64::MAX,
        ensures
            final(self).wf(),
            final(self).resources() == old(self).resources(),
            old(self).state() == LifecycleState::Ready ==> r is Ok && final(self).state() == LifecycleState::Running
                && final(self).history() == old(self).history().push((now, LifecycleState::Running)),
            old(self).state() != LifecycleState::Ready ==> final(self).state() == old(self).state()
                && final(self).history() == old(self).history()
                && (r matches Err(IntegrationError::Lifecycle(m)) && m@ == "System must be in Ready state to start"@),
    {
        self.guarded_transition(LifecycleState::Ready, LifecycleState::Running, "System must be in Ready state to start", now)
    }

    /// Pauses the system: `Running` -> `Paused`.
    pub fn pause(&mut self, now: u64) -> (r: Result<(), IntegrationError>)
        requires
            old(self).wf(),
            old(self).stats().state_transitions < u64::MAX,
        ensures
            final(self).wf(),
            final(self).resources() == old(self).resources(),
            old(self).state() == LifecycleState::Running ==> r is Ok && final(self).state() == LifecycleState::Paused
                && final(self).history() == old(self).history().push((now, LifecycleState::Paused)),
            old(self).state() != LifecycleState::Running ==> final(self).state() == old(self).state()
                && final(self).history() == old(self).history()
                && (r matches Err(IntegrationError::Lifecycle(m)) && m@ == "System must be Running to pause"@),
    {
        self.guarded_transition(LifecycleState::Running, LifecycleState::Paused, "System must be Running to pause", now)
    }

    /// Resumes the system: `Paused` -> `Running`.
    pub fn resume(&mut self, now: u64) -> (r: Result<(), IntegrationError>)
        requires
            old(self).wf(),
            old(self).stats().state_transitions < u64::MAX,
        ensures
            final(self).wf(),
            final(self).resources() == old(self).resources(),
            old(self).state() == LifecycleState::Paused ==> r is Ok && final(self).state() == LifecycleState::Running
                && final(self).history() == old(self).history().push((now, LifecycleState::Running)),
            old(self).state() != LifecycleState::Paused ==> final(self).state() == old(self).state()
                && final(self).history() == old(self).history()
                && (r matches Err(IntegrationError::Lifecycle(m)) && m@ == "System must be Paused to resume"@),
    {
        self.guarded_transition(LifecycleState::Paused, LifecycleState::Running, "System must be Paused to resume", now)
    }

    /// First half of initialisation: enter `Initializing`.
    pub fn begin_initialize(&mut self, now: u64) -> (r: Result<(), IntegrationError>)
        requires
            old(self).wf(),
            old(self).stats().state_transitions < u64::MAX,
        ensures
            final(self).wf(),
            final(self).resources() == old(self).resources(),
            r is Ok <==> valid_transition(old(self).state(), LifecycleState::Initializing),
            r is Ok ==> final(self).state() == LifecycleState::Initializing,
            r is Err ==> final(self).state() == old(self).state(),
    {
        self.transition_to(LifecycleState::Initializing, now)
    }

    /// Second half of initialisation (after the initialisation work): enter `Ready`.
    pub fn complete_initialize(&mut self, now: u64) -> (r: Result<(), IntegrationError>)
        requires
            old(self).wf(),
            old(self).stats().state_transitions < u64::MAX,
        ensures
            final(self).wf(),
            final(self).resources() == old(self).resources(),
            r is Ok <==> old(self).state() == LifecycleState::Initializing,
            r is Ok ==> final(self).state() == LifecycleState::Ready,
            r is Err ==> final(self).state() == old(self).state(),
    {
        self.transition_to(LifecycleState::Ready, now)
    }

    /// First half of shutdown: enter `ShuttingDown`.
    pub fn begin_shutdown(&mut self, now: u64) -> (r: Result<(), IntegrationError>)
        requires
            old(self).wf(),
            old(self).stats().state_transitions < u64::MAX,
        ensures
            final(self).wf(),
            final(self).resources() == old(self).resources(),
            r is Ok <==> valid_transition(old(self).state(), LifecycleState::ShuttingDown),
            r is Ok ==> final(self).state() == LifecycleState::ShuttingDown,
            r is Err ==> final(self).state() == old(self).state(),
    {
        self.transition_to(LifecycleState::ShuttingDown, now)
    }

    /// While shutting down: have the resources been released? Polling started
    /// at `started`; after more than 10 000 ms with resources left, waiting fails.
    pub fn poll_resource_release(&self, started: u64, now: u64) -> (r: Result<ReleasePoll, IntegrationError>)
        requires
            self.wf(),
            started <= now,
        ensures
            self.resources().len() == 0 ==> r == Ok::<ReleasePoll, IntegrationError>(ReleasePoll::Released),
            self.resources().len() != 0 && now - started <= 10_000 ==> r == Ok::<ReleasePoll, IntegrationError>(ReleasePoll::Wait),
            self.resources().len() != 0 && now - started > 10_000 ==>
                (r matches Err(IntegrationError::Lifecycle(m)) && m@ == "Timeout waiting for "@ + crate::text::decimal(self.resources().len()) + " resources to release"@),
    {
        let count = self.resources.total_count();
        if count == 0 {
            return Ok(ReleasePoll::Released);
        }
        if now - started > 10_000 {
            let mut m = String::from_str("Timeout waiting for ");
            crate::text::push_decimal(&mut m, count as u64);
            m.append(" resources to release");
            return Err(IntegrationError::Lifecycle(m));
        }
        Ok(ReleasePoll::Wait)
    }

    /// Last step of shutdown, once resources are released: enter `Terminated`.
    pub fn complete_shutdown(&mut self, now: u64) -> (r: Result<(), IntegrationError>)
        requires
            old(self).wf(),
            old(self).stats().state_transitions < u64::MAX,
        ensures
            final(self).wf(),
            final(self).resources() == old(self).resources(),
            r is Ok <==> old(self).state() == LifecycleState::ShuttingDown,
            r is Ok ==> final(self).state() == LifecycleState::Terminated,
            r is Err ==> final(self).state() == old(self).state(),
    {
        self.transition_to(LifecycleState::Terminated, now)
    }

    /// Reports an error: the system enters `Error` (always allowed) and the
    /// error is counted.
    pub fn report_error(&mut self, error: String, now: u64)
        requires
            old(self).wf(),
            old(self).stats().state_transitions < u64::MAX,
            old(self).stats().errors_reported < u64::MAX,
        ensures
            final(self).wf(),
            final(self).resources() == old(self).resources(),
            final(self).state() == LifecycleState::Error,
            final(self).history() == old(self).history().push((now, LifecycleState::Error)),
            final(self).stats() == (LifecycleStats {
                state_transitions: (old(self).stats().state_transitions + 1) as u64,
                errors_reported: (old(self).stats().errors_reported + 1) as u64,
                ..old(self).stats()
            }),
    {
        let _ = self.transition_to(LifecycleState::Error, now);
        self.stats.errors_reported = self.stats.errors_reported + 1;
    }

    /// Tracks a resource.
    pub fn register_resource(&mut self, resource_type: ResourceType, id: String)
        requires
            old(self).wf(),
        ensures
            final(self).wf(),
            final(self).resources() == old(self).resources().insert((resource_type, id@)),
            final(self).state() == old(self).state(),
            final(self).history() == old(self).history(),
            final(self).stats() == old(self).stats(),
    {
        self.resources.register(resource_type, id);
    }

    /// Stops tracking a resource.
    pub fn unregister_resource(&mut self, resource_type: ResourceType, id: String)
        requires
            old(self).wf(),
        ensures
            final(self).wf(),
            final(self).resources() == old(self).resources().remove((resource_type, id@)),
            final(self).state() == old(self).state(),
            final(self).history() == old(self).history(),
            final(self).stats() == old(self).stats(),
    {
        self.resources.unregister(resource_type, id.as_str());
    }

    /// The number of live resources.
    pub fn resource_count(&self) -> (r: usize)
        requires
            self.wf(),
        ensures
            r as nat == self.resources().len(),
    {
        self.resources.total_count()
    }
}

/// Names the text that `std::time::Duration`'s `Debug` gives for a span of
/// `secs` seconds and `nanos` nanoseconds ("5s", "1.5s", "250ms", ...).
pub uninterp spec fn duration_debug_text(secs: u64, nanos: u32) -> Seq<char>;

/// Formats a span with `std::time::Duration`'s `Debug`; claimed: the result is
/// the (named) text for these two numbers, a function of them alone.
#[verifier::external_body]
fn duration_debug(secs: u64, nanos: u32) -> (r: String)
    requires
        nanos < 1_000_000_000,
    ensures
        r@ == duration_debug_text(secs, nanos),
{
    format!("{:?}", std::time::Duration::new(secs, nanos))
}

/// A named step of a startup or shutdown sequence and the time it may take.
struct SequenceStep {
    name: String,
    timeout: Delay,
}

/// A step's name and time limit.
spec fn step_view(s: SequenceStep) -> (Seq<char>, Delay) {
    (s.name@, s.timeout)
}

/// A time limit as a `Duration` has it: fewer than 10^9 nanoseconds.
pub open spec fn normalized(d: Delay) -> bool {
    d.nanos < 1_000_000_000
}

/// What running one startup step gave.
#[derive(Debug, Clone, PartialEq, Eq)]
pub enum StepOutcome {
    /// The step reported success.
    Completed,
    /// The step reported this error.
    Failed(IntegrationError),
    /// The step dropped its reply channel.
    ChannelClosed,
    /// The step did not reply within its time limit.
    TimedOut,
}

/// The verdict on a startup step named `name` with limit `timeout`: go on, or
/// the error that ends the startup.
pub open spec fn startup_verdict(name: Seq<char>, timeout: Delay, outcome: StepOutcome) -> Option<Seq<char>> {
    match outcome {
        StepOutcome::Completed => None,
        StepOutcome::Failed(e) => Some("Step '"@ + name + "' failed: "@ + error_text(e)),
        StepOutcome::ChannelClosed => Some("Step '"@ + name + "' channel error"@),
        StepOutcome::TimedOut => Some("Step '"@ + name + "' timed out after "@ + duration_debug_text(timeout.secs, timeout.nanos)),
    }
}

/// The steps of a startup, run in the order they were added; the first one
/// that fails ends the startup. The caller runs each step and reports its
/// outcome.
pub struct StartupSequence {
    steps: Vec<SequenceStep>,
}

/// The steps of a shutdown, run in the reverse of the order they were added;
/// failures and timeouts are logged and the shutdown goes on.
pub struct ShutdownSequence {
    steps: Vec<SequenceStep>,
}

/// The message of a step's verdict.
fn step_message(name: &str, middle: &str, tail: &str) -> (r: String)
    ensures
        r@ == "Step '"@ + name@ + middle@ + tail@,
{
    let mut m = String::from_str("Step '");
    m.append(name);
    m.append(middle);
    m.append(tail);
    m
}

impl StartupSequence {
    /// The steps, in order.
    pub closed spec fn steps(&self) -> Seq<(Seq<char>, Delay)> {
        self.steps@.map_values(|s: SequenceStep| step_view(s))
    }

    /// An empty sequence.
    pub fn new() -> (r: StartupSequence)
        ensures
            r.steps() == Seq::<(Seq<char>, Delay)>::empty(),
    {
        let r = StartupSequence { steps: Vec::new() };
        assert(r.steps() =~= Seq::<(Seq<char>, Delay)>::empty());
        r
    }

    /// Appends a step.
    pub fn add_step(&mut self, name: String, timeout: Delay)
        ensures
            final(self).steps() == old(self).steps().push((name@, timeout)),
    {
        self.steps.push(SequenceStep { name, timeout });
        assert(self.steps() =~= old(self).steps().push((name@, timeout)));
    }

    /// The number of steps.
    pub fn len(&self) -> (r: usize)
        ensures
            r == self.steps().len(),
    {
        self.steps.len()
    }

    /// The name and time limit of step `i`.
    pub fn step(&self, i: usize) -> (r: (&str, Delay))
        requires
            i < self.steps().len(),
        ensures
            r.0@ == self.steps()[i as int].0,
            r.1 == self.steps()[i as int].1,
    {
        (self.steps[i].name.as_str(), self.steps[i].timeout)
    }

    /// The verdict on step `i` given what running it gave: `Ok` to go on to
    /// the next step, or the lifecycle error that ends the startup.
    pub fn step_result(&self, i: usize, outcome: StepOutcome) -> (r: Result<(), IntegrationError>)
        requires
            i < self.steps().len(),
            normalized(self.steps()[i as int].1),
        ensures
            match startup_verdict(self.steps()[i as int].0, self.steps()[i as int].1, outcome) {
                None => r is Ok,
                Some(msg) => r matches Err(IntegrationError::Lifecycle(m)) && m@ == msg,
            },
    {
        let name = self.steps[i].name.as_str();
        let timeout = self.steps[i].timeout;
        assert(name@ == self.steps()[i as int].0 && timeout == self.steps()[i as int].1);
        match outcome {
            StepOutcome::Completed => Ok(()),
            StepOutcome::Failed(e) => {
                let text = e.to_text();
                Err(IntegrationError::Lifecycle(step_message(name, "' failed: ", text.as_str())))
            },
            StepOutcome::ChannelClosed => {
                let m = step_message(name, "' channel error", "");
                proof {
                    reveal_strlit("");
                }
                assert(m@ =~= "Step '"@ + name@ + "' channel error"@);
                Err(IntegrationError::Lifecycle(m))
            },
            StepOutcome::TimedOut => {
                let text = duration_debug(timeout.secs, timeout.nanos);
                Err(IntegrationError::Lifecycle(step_message(name, "' timed out after ", text.as_str())))
            },
        }
    }
}

impl ShutdownSequence {
    /// The steps, in the order they were added.
    pub closed spec fn steps(&self) -> Seq<(Seq<char>, Delay)> {
        self.steps@.map_values(|s: SequenceStep| step_view(s))
    }

    /// An empty sequence.
    pub fn new() -> (r: ShutdownSequence)
        ensures
            r.steps() == Seq::<(Seq<char>, Delay)>::empty(),
    {
        let r = ShutdownSequence { steps: Vec::new() };
        assert(r.steps() =~= Seq::<(Seq<char>, Delay)>::empty());
        r
    }

    /// Appends a step.
    pub fn add_step(&mut self, name: String, timeout: Delay)
        ensures
            final(self).steps() == old(self).steps().push((name@, timeout)),
    {
        self.steps.push(SequenceStep { name, timeout });
        assert(self.steps() =~= old(self).steps().push((name@, timeout)));
    }

    /// The number of steps.
    pub fn len(&self) -> (r: usize)
        ensures
            r == self.steps().len(),
    {
        self.steps.len()
    }

    /// The name and time limit of the `k`-th step to run: the steps run last
    /// added first.
    pub fn step_to_run(&self, k: usize) -> (r: (&str, Delay))
        requires
            k < self.steps().len(),
        ensures
            r.0@ == self.steps()[self.steps().len() - 1 - k].0,
            r.1 == self.steps()[self.steps().len() - 1 - k].1,
    {
        let i = self.steps.len() - 1 - k;
        (self.steps[i].name.as_str(), self.steps[i].timeout)
    }
}

/// Once terminated, the system can only move to `Error`.
pub proof fn law_terminated_is_final(to: LifecycleState)
    ensures
        valid_transition(LifecycleState::Terminated, to) <==> to == LifecycleState::Error,
{
}

/// Every state may move to `Error`, so reporting an error never fails.
pub proof fn law_error_always_reachable(from: LifecycleState)
    ensures
        valid_transition(from, LifecycleState::Error),
{
}

/// Pausing a running system and resuming it returns it to `Running`; neither
/// move is allowed from any other state.
pub proof fn law_pause_resume(s: LifecycleState)
    ensures
        valid_transition(LifecycleState::Running, LifecycleState::Paused),
        valid_transition(LifecycleState::Paused, LifecycleState::Running),
        valid_transition(s, LifecycleState::Paused) ==> s == LifecycleState::Running,
        valid_transition(s, LifecycleState::Running) ==> s == LifecycleState::Ready || s == LifecycleState::Paused,
{
}

/// Registering a resource that is not tracked and then unregistering it leaves
/// the tracked set as it was; registering is idempotent.
pub proof fn law_register_unregister(r: Set<(ResourceType, Seq<char>)>, kind: ResourceType, id: Seq<char>)
    ensures
        !r.contains((kind, id)) ==> r.insert((kind, id)).remove((kind, id)) == r,
        r.insert((kind, id)).insert((kind, id)) == r.insert((kind, id)),
{
    assert(r.insert((kind, id)).insert((kind, id)) =~= r.insert((kind, id)));
    if !r.contains((kind, id)) {
        assert(r.insert((kind, id)).remove((kind, id)) =~= r);
    }
}

/// Shutting down can begin from every operating state (Ready, Running,
/// Paused) and from Error, and from no other state.
pub proof fn law_operating_states_may_shut_down(s: LifecycleState)
    ensures
        valid_transition(s, LifecycleState::ShuttingDown) <==> (s == LifecycleState::Ready
            || s == LifecycleState::Running || s == LifecycleState::Paused || s == LifecycleState::Error),
{
}

/// Initialization starts only from the fresh state or after an error; only a
/// system that is initializing becomes ready; only a system shutting down
/// terminates; a fresh system can only start initializing (or fail), and a
/// system shutting down can only terminate (or fail).
pub proof fn law_startup_and_termination_flow(s: LifecycleState)
    ensures
        valid_transition(s, LifecycleState::Initializing) <==> (s == LifecycleState::Uninitialized
            || s == LifecycleState::Error),
        valid_transition(s, LifecycleState::Ready) <==> s == LifecycleState::Initializing,
        valid_transition(s, LifecycleState::Terminated) <==> s == LifecycleState::ShuttingDown,
        valid_transition(LifecycleState::Uninitialized, s) <==> (s == LifecycleState::Initializing
            || s == LifecycleState::Error),
        valid_transition(LifecycleState::ShuttingDown, s) <==> (s == LifecycleState::Terminated
            || s == LifecycleState::Error),
{
}

} // verus!
