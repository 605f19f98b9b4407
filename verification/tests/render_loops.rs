use gpu_charts::render_loop::{
    calculate_next_state, EntryAction, PreprocessingTask, RenderLoopController, RenderLoopState,
    StateTransitionTrigger, Transition,
};
use gpu_charts::simplified_render_loop::{
    get_update_priority, LoopAction, RenderState, SimplifiedRenderLoop, UpdateTrigger, UpdateType,
};

#[test]
fn data_goes_through_preprocessing_before_render() {
    let mut c = RenderLoopController::new();
    assert_eq!(c.get_state(), RenderLoopState::Off);
    assert_eq!(
        c.preprocessing_tasks(),
        &vec![PreprocessingTask::CalculateBounds, PreprocessingTask::UpdateBuffers, PreprocessingTask::PreparePipelines]
    );
    assert_eq!(c.trigger_transition(StateTransitionTrigger::Start), Transition { changed: Some((RenderLoopState::Off, RenderLoopState::Clean)), action: EntryAction::StartAnimationLoop });
    assert_eq!(c.get_state(), RenderLoopState::Clean);
    assert_eq!(c.trigger_transition(StateTransitionTrigger::DataReceived), Transition { changed: Some((RenderLoopState::Clean, RenderLoopState::PreProcess)), action: EntryAction::Nothing });
    assert_eq!(c.get_state(), RenderLoopState::PreProcess);
    assert_eq!(c.animation_frame(), (Transition { changed: Some((RenderLoopState::PreProcess, RenderLoopState::PreProcessing)), action: EntryAction::StartPreprocessing }, true));
    assert_eq!(c.get_state(), RenderLoopState::PreProcessing);
    c.preprocessing_finished();
    assert_eq!(c.trigger_transition(StateTransitionTrigger::PreProcessingDone), Transition { changed: Some((RenderLoopState::PreProcessing, RenderLoopState::PreProcessComplete)), action: EntryAction::Nothing });
    assert_eq!(c.get_state(), RenderLoopState::PreProcessComplete);
    assert_eq!(c.animation_frame(), (Transition { changed: Some((RenderLoopState::PreProcessComplete, RenderLoopState::Rendering)), action: EntryAction::StartRendering }, true));
    c.rendering_finished();
    assert_eq!(c.trigger_transition(StateTransitionTrigger::RenderDone), Transition { changed: Some((RenderLoopState::Rendering, RenderLoopState::Clean)), action: EntryAction::Nothing });
    assert_eq!(c.get_state(), RenderLoopState::Clean);
    assert_eq!(c.trigger_transition(StateTransitionTrigger::Stop), Transition { changed: Some((RenderLoopState::Clean, RenderLoopState::Off)), action: EntryAction::StopAnimationLoop });
    // A stop while already off changes nothing and tells no listener.
    assert_eq!(c.trigger_transition(StateTransitionTrigger::Stop), Transition { changed: None, action: EntryAction::Nothing });
    assert_eq!(c.animation_frame(), (Transition { changed: None, action: EntryAction::Nothing }, false));
}

#[test]
fn view_changes_render_without_preprocessing() {
    let mut c = RenderLoopController::new();
    c.trigger_transition(StateTransitionTrigger::Start);
    c.trigger_transition(StateTransitionTrigger::ViewChanged);
    assert_eq!(c.get_state(), RenderLoopState::Dirty);
    assert_eq!(c.animation_frame(), (Transition { changed: Some((RenderLoopState::Dirty, RenderLoopState::Rendering)), action: EntryAction::StartRendering }, true));
    assert_eq!(c.get_state(), RenderLoopState::Rendering);
}

#[test]
fn transition_table() {
    assert_eq!(calculate_next_state(RenderLoopState::Off, &StateTransitionTrigger::DataReceived), RenderLoopState::Off);
    assert_eq!(calculate_next_state(RenderLoopState::Clean, &StateTransitionTrigger::Resized { requires_preprocessing: true }), RenderLoopState::PreProcess);
    assert_eq!(calculate_next_state(RenderLoopState::Clean, &StateTransitionTrigger::Resized { requires_preprocessing: false }), RenderLoopState::Dirty);
    assert_eq!(calculate_next_state(RenderLoopState::Dirty, &StateTransitionTrigger::DataConfigChanged), RenderLoopState::PreProcess);
    assert_eq!(calculate_next_state(RenderLoopState::Rendering, &StateTransitionTrigger::ErrorOccurred("gpu".to_string())), RenderLoopState::Error);
    assert_eq!(calculate_next_state(RenderLoopState::Error, &StateTransitionTrigger::Start), RenderLoopState::Error);
    assert_eq!(calculate_next_state(RenderLoopState::Error, &StateTransitionTrigger::Stop), RenderLoopState::Off);
    assert_eq!(calculate_next_state(RenderLoopState::PreProcessing, &StateTransitionTrigger::Stop), RenderLoopState::Off);
    assert_eq!(calculate_next_state(RenderLoopState::PreProcess, &StateTransitionTrigger::Stop), RenderLoopState::Off);
    assert_eq!(calculate_next_state(RenderLoopState::PreProcessComplete, &StateTransitionTrigger::Stop), RenderLoopState::Off);
    assert_eq!(calculate_next_state(RenderLoopState::Dirty, &StateTransitionTrigger::Stop), RenderLoopState::Off);
    assert_eq!(calculate_next_state(RenderLoopState::Dirty, &StateTransitionTrigger::ErrorOccurred("lost".to_string())), RenderLoopState::Error);
    assert_eq!(calculate_next_state(RenderLoopState::PreProcess, &StateTransitionTrigger::ErrorOccurred("oom".to_string())), RenderLoopState::Error);
}

#[test]
fn updates_queue_by_priority() {
    assert!(get_update_priority(UpdateType::Config) > get_update_priority(UpdateType::Data));
    assert!(get_update_priority(UpdateType::Data) > get_update_priority(UpdateType::View));

    let mut l = SimplifiedRenderLoop::new();
    assert_eq!(l.trigger(UpdateTrigger::Start), vec![LoopAction::RequestAnimationFrame]);
    assert_eq!(
        l.trigger(UpdateTrigger::DataRequested),
        vec![LoopAction::StateChanged(RenderState::Idle, RenderState::Updating(UpdateType::Data)), LoopAction::StartUpdate(UpdateType::Data)]
    );
    assert_eq!(l.get_state(), RenderState::Updating(UpdateType::Data));
    // A view change does not outrank the running data update.
    assert_eq!(l.trigger(UpdateTrigger::ViewChanged), vec![]);
    assert_eq!(l.pending_update(), None);
    // A configuration change does, and is queued.
    assert_eq!(l.trigger(UpdateTrigger::ConfigChanged), vec![]);
    assert_eq!(l.pending_update(), Some(UpdateType::Config));
    assert_eq!(
        l.update_finished(),
        vec![LoopAction::StateChanged(RenderState::Updating(UpdateType::Data), RenderState::Rendering), LoopAction::StartRender]
    );
    assert_eq!(l.get_state(), RenderState::Rendering);
    // Finishing the render starts the queued update at once.
    assert_eq!(
        l.trigger(UpdateTrigger::RenderComplete),
        vec![
            LoopAction::StateChanged(RenderState::Rendering, RenderState::Idle),
            LoopAction::RequestAnimationFrame,
            LoopAction::StateChanged(RenderState::Idle, RenderState::Updating(UpdateType::Config)),
            LoopAction::StartUpdate(UpdateType::Config),
        ]
    );
    assert_eq!(l.get_state(), RenderState::Updating(UpdateType::Config));
    assert_eq!(l.pending_update(), None);
    assert_eq!(
        l.trigger(UpdateTrigger::Stop),
        vec![LoopAction::CancelAnimationFrame, LoopAction::StateChanged(RenderState::Updating(UpdateType::Config), RenderState::Idle)]
    );
    assert_eq!(l.get_state(), RenderState::Idle);
}

#[test]
fn idle_frames_stop_requesting() {
    let mut l = SimplifiedRenderLoop::new();
    assert_eq!(l.animation_frame(), vec![]);
    assert_eq!(l.trigger(UpdateTrigger::Error("boom".to_string())), vec![]);
    assert_eq!(l.get_state(), RenderState::Idle);
}
