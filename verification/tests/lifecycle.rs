use gpu_charts::integration_error::IntegrationError;
use gpu_charts::lifecycle::{
    is_valid_transition, LifecycleCoordinator, LifecycleState, ReleasePoll, ResourceTracker, ResourceType,
    ShutdownSequence, StartupSequence, StepOutcome,
};
use gpu_charts::utils::Delay;

fn lifecycle_err(msg: &str) -> Result<(), IntegrationError> {
    Err(IntegrationError::Lifecycle(msg.to_string()))
}

#[test]
fn startup_run_pause_and_shutdown() {
    let mut c = LifecycleCoordinator::new(0);
    assert_eq!(c.get_state(), LifecycleState::Uninitialized);
    assert_eq!(c.start(1), lifecycle_err("System must be in Ready state to start"));
    c.begin_initialize(1).unwrap();
    c.complete_initialize(2).unwrap();
    assert_eq!(c.get_state(), LifecycleState::Ready);
    c.start(3).unwrap();
    assert_eq!(c.resume(4), lifecycle_err("System must be Paused to resume"));
    c.pause(4).unwrap();
    assert_eq!(c.pause(5), lifecycle_err("System must be Running to pause"));
    c.resume(5).unwrap();
    assert_eq!(c.get_state(), LifecycleState::Running);
    c.register_resource(ResourceType::Surface, "main".to_string());
    c.register_resource(ResourceType::Surface, "main".to_string());
    assert_eq!(c.resource_count(), 1);
    c.begin_shutdown(6).unwrap();
    assert_eq!(c.poll_resource_release(6, 100), Ok(ReleasePoll::Wait));
    assert_eq!(
        c.poll_resource_release(6, 10_007),
        Err(IntegrationError::Lifecycle("Timeout waiting for 1 resources to release".to_string()))
    );
    c.unregister_resource(ResourceType::Surface, "main".to_string());
    assert_eq!(c.poll_resource_release(6, 10_007), Ok(ReleasePoll::Released));
    c.complete_shutdown(10_008).unwrap();
    assert_eq!(c.get_state(), LifecycleState::Terminated);
    assert_eq!(c.get_stats().state_transitions, 7);
}

#[test]
fn invalid_transitions_are_refused_with_their_names() {
    let mut c = LifecycleCoordinator::new(0);
    assert_eq!(c.transition_to(LifecycleState::Running, 1), lifecycle_err("Invalid transition from Uninitialized to Running"));
    assert_eq!(c.get_state(), LifecycleState::Uninitialized);
    assert_eq!(c.get_stats().state_transitions, 0);
    assert!(is_valid_transition(LifecycleState::Terminated, LifecycleState::Error));
    assert!(!is_valid_transition(LifecycleState::Terminated, LifecycleState::Initializing));
    assert!(is_valid_transition(LifecycleState::Error, LifecycleState::Initializing));
}

#[test]
fn errors_always_move_to_error() {
    let mut c = LifecycleCoordinator::new(0);
    c.report_error("disk full".to_string(), 7);
    assert_eq!(c.get_state(), LifecycleState::Error);
    let stats = c.get_stats();
    assert_eq!(stats.errors_reported, 1);
    assert_eq!(stats.state_transitions, 1);
    c.begin_shutdown(8).unwrap();
    assert_eq!(c.get_state(), LifecycleState::ShuttingDown);
}

#[test]
fn tracker_counts_distinct_resources() {
    let mut t = ResourceTracker::new();
    t.register(ResourceType::DataBuffer, "a".to_string());
    t.register(ResourceType::DataBuffer, "b".to_string());
    t.register(ResourceType::ConfigFile, "a".to_string());
    t.register(ResourceType::DataBuffer, "a".to_string());
    assert_eq!(t.total_count(), 3);
    t.unregister(ResourceType::DataBuffer, "a");
    t.unregister(ResourceType::RenderPipeline, "zzz");
    assert_eq!(t.total_count(), 2);
}

#[test]
fn startup_steps_end_at_the_first_failure() {
    let mut seq = StartupSequence::new();
    seq.add_step("load config".to_string(), Delay::from_secs(5));
    seq.add_step("init gpu".to_string(), Delay { secs: 1, nanos: 500_000_000 });
    assert_eq!(seq.len(), 2);
    assert_eq!(seq.step(1), ("init gpu", Delay { secs: 1, nanos: 500_000_000 }));

    assert_eq!(seq.step_result(0, StepOutcome::Completed), Ok(()));
    assert_eq!(
        seq.step_result(0, StepOutcome::Failed(IntegrationError::Configuration("missing file".to_string()))),
        lifecycle_err("Step 'load config' failed: Configuration error: missing file")
    );
    assert_eq!(seq.step_result(1, StepOutcome::ChannelClosed), lifecycle_err("Step 'init gpu' channel error"));
    assert_eq!(seq.step_result(0, StepOutcome::TimedOut), lifecycle_err("Step 'load config' timed out after 5s"));
    assert_eq!(seq.step_result(1, StepOutcome::TimedOut), lifecycle_err("Step 'init gpu' timed out after 1.5s"));
}

#[test]
fn shutdown_steps_run_last_added_first() {
    let mut seq = ShutdownSequence::new();
    seq.add_step("stop renderer".to_string(), Delay::from_secs(1));
    seq.add_step("flush data".to_string(), Delay::from_secs(2));
    seq.add_step("close sockets".to_string(), Delay::from_secs(3));
    assert_eq!(seq.len(), 3);
    assert_eq!(seq.step_to_run(0), ("close sockets", Delay::from_secs(3)));
    assert_eq!(seq.step_to_run(1), ("flush data", Delay::from_secs(2)));
    assert_eq!(seq.step_to_run(2), ("stop renderer", Delay::from_secs(1)));
}
