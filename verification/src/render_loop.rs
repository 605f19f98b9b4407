//! State machine that decides when a chart preprocesses its data and when it
//! renders. The browser-side work (animation frames, GPU passes) is performed by
//! the caller; this controller decides the next state and the work to start.
use vstd::prelude::*;

verus! {

/// States of the render loop.
#[derive(Debug, Clone, Copy, PartialEq, Eq, Structural)]
pub enum RenderLoopState {
    /// Not running.
    Off,
    /// New data arrived and must be preprocessed.
    PreProcess,
    /// The preprocessing pipeline is running.
    PreProcessing,
    /// Preprocessing finished; a render is due.
    PreProcessComplete,
    /// A frame is being rendered.
    Rendering,
    /// Nothing changed since the last frame.
    Clean,
    /// The view changed; a render is due (no preprocessing).
    Dirty,
    /// An error stopped the loop.
    Error,
}

/// What can move the render loop to another state.
#[derive(Debug, Clone, PartialEq, Eq)]
pub enum StateTransitionTrigger {
    DataReceived,
    ViewChanged,
    VisualSettingsChanged,
    MetricVisibilityChanged,
    DataConfigChanged,
    Resized { requires_preprocessing: bool },
    AnimationTick,
    PreProcessingDone,
    RenderDone,
    ErrorOccurred(String),
    Start,
    Stop,
}

/// One step of the preprocessing pipeline.
#[derive(Debug, Clone, PartialEq, Eq)]
pub enum PreprocessingTask {
    CalculateBounds,
    UpdateBuffers,
    PreparePipelines,
    Custom(String),
}

/// The transition table of the render loop. Rules are tried in order; the
/// first that matches decides. A stop request turns the loop off and an error
/// moves it to `Error` from every state.
pub open spec fn next_state(current: RenderLoopState, trigger: StateTransitionTrigger) -> RenderLoopState {
    match (current, trigger) {
        (RenderLoopState::Off, StateTransitionTrigger::Start) => RenderLoopState::Clean,
        (_, StateTransitionTrigger::Stop) => RenderLoopState::Off,
        (_, StateTransitionTrigger::ErrorOccurred(_)) => RenderLoopState::Error,
        (RenderLoopState::Clean, StateTransitionTrigger::DataReceived) => RenderLoopState::PreProcess,
        (RenderLoopState::Dirty, StateTransitionTrigger::DataReceived) => RenderLoopState::PreProcess,
        (RenderLoopState::Clean, StateTransitionTrigger::DataConfigChanged) => RenderLoopState::PreProcess,
        (RenderLoopState::Dirty, StateTransitionTrigger::DataConfigChanged) => RenderLoopState::PreProcess,
        (RenderLoopState::Clean, StateTransitionTrigger::ViewChanged) => RenderLoopState::Dirty,
        (RenderLoopState::Clean, StateTransitionTrigger::VisualSettingsChanged) => RenderLoopState::Dirty,
        (RenderLoopState::Clean, StateTransitionTrigger::MetricVisibilityChanged) => RenderLoopState::Dirty,
        (RenderLoopState::Clean, StateTransitionTrigger::Resized { requires_preprocessing }) => {
            if requires_preprocessing {
                RenderLoopState::PreProcess
            } else {
                RenderLoopState::Dirty
            }
        },
        (RenderLoopState::PreProcess, _) => RenderLoopState::PreProcessing,
        (RenderLoopState::PreProcessing, StateTransitionTrigger::PreProcessingDone) => RenderLoopState::PreProcessComplete,
        (RenderLoopState::PreProcessComplete, _) => RenderLoopState::Rendering,
        (RenderLoopState::Dirty, _) => RenderLoopState::Rendering,
        (RenderLoopState::Rendering, StateTransitionTrigger::RenderDone) => RenderLoopState::Clean,
        _ => current,
    }
}

/// Computes the next state of the render loop for a trigger.
pub fn calculate_next_state(current: RenderLoopState, trigger: &StateTransitionTrigger) -> (r: RenderLoopState)
    ensures
        r == next_state(current, *trigger),
{
    match (current, trigger) {
        (RenderLoopState::Off, StateTransitionTrigger::Start) => RenderLoopState::Clean,
        (_, StateTransitionTrigger::Stop) => RenderLoopState::Off,
        (_, StateTransitionTrigger::ErrorOccurred(_)) => RenderLoopState::Error,
        (RenderLoopState::Clean, StateTransitionTrigger::DataReceived) => RenderLoopState::PreProcess,
        (RenderLoopState::Dirty, StateTransitionTrigger::DataReceived) => RenderLoopState::PreProcess,
        (RenderLoopState::Clean, StateTransitionTrigger::DataConfigChanged) => RenderLoopState::PreProcess,
        (RenderLoopState::Dirty, StateTransitionTrigger::DataConfigChanged) => RenderLoopState::PreProcess,
        (RenderLoopState::Clean, StateTransitionTrigger::ViewChanged) => RenderLoopState::Dirty,
        (RenderLoopState::Clean, StateTransitionTrigger::VisualSettingsChanged) => RenderLoopState::Dirty,
        (RenderLoopState::Clean, StateTransitionTrigger::MetricVisibilityChanged) => RenderLoopState::Dirty,
        (RenderLoopState::Clean, StateTransitionTrigger::Resized { requires_preprocessing }) => {
            if *requires_preprocessing {
                RenderLoopState::PreProcess
            } else {
                RenderLoopState::Dirty
            }
        },
        (RenderLoopState::PreProcess, _) => RenderLoopState::PreProcessing,
        (RenderLoopState::PreProcessing, StateTransitionTrigger::PreProcessingDone) => RenderLoopState::PreProcessComplete,
        (RenderLoopState::PreProcessComplete, _) => RenderLoopState::Rendering,
        (RenderLoopState::Dirty, _) => RenderLoopState::Rendering,
        (RenderLoopState::Rendering, StateTransitionTrigger::RenderDone) => RenderLoopState::Clean,
        _ => current,
    }
}

/// Work that entering a state asks the caller to start.
#[derive(Debug, Clone, Copy, PartialEq, Eq, Structural)]
pub enum EntryAction {
    /// Nothing to start.
    Nothing,
    /// Cancel the pending animation frame.
    StopAnimationLoop,
    /// Request the first animation frame.
    StartAnimationLoop,
    /// Run the preprocessing pipeline, then report `PreProcessingDone` (or an error).
    StartPreprocessing,
    /// Render a frame, then report `RenderDone` (or an error).
    StartRendering,
}

/// What a trigger asks of the caller: first, when the state changed, call every
/// state listener, in the order they were added, with `changed` (the old and the
/// new state); then perform `action`.
#[derive(Debug, Clone, Copy, PartialEq, Eq)]
pub struct Transition {
    pub changed: Option<(RenderLoopState, RenderLoopState)>,
    pub action: EntryAction,
}

/// The listener notice of a trigger: the old and new state when it changes the
/// state, nothing otherwise.
pub open spec fn change_of(current: RenderLoopState, trigger: StateTransitionTrigger) -> Option<(RenderLoopState, RenderLoopState)> {
    if next_state(current, trigger) == current { None } else { Some((current, next_state(current, trigger))) }
}

/// The render-loop controller: its state and the bookkeeping of the work it has
/// asked the caller to perform.
pub struct RenderLoopController {
    state: RenderLoopState,
    animation_running: bool,
    processing_in_progress: bool,
    rendering_in_progress: bool,
    preprocessing_tasks: Vec<PreprocessingTask>,
}

/// The observable part of a controller.
pub struct ControllerView {
    pub state: RenderLoopState,
    pub animation_running: bool,
    pub processing_in_progress: bool,
    pub rendering_in_progress: bool,
}

/// What entering `state` does to a controller whose bookkeeping is `v`:
/// the action requested and the bookkeeping afterwards.
pub open spec fn enter(v: ControllerView, state: RenderLoopState) -> (EntryAction, ControllerView) {
    match state {
        RenderLoopState::Off => (EntryAction::StopAnimationLoop, ControllerView { state, animation_running: false, ..v }),
        RenderLoopState::Clean => if v.animation_running {
            (EntryAction::Nothing, ControllerView { state, ..v })
        } else {
            (EntryAction::StartAnimationLoop, ControllerView { state, animation_running: true, ..v })
        },
        RenderLoopState::PreProcessing => if v.processing_in_progress {
            (EntryAction::Nothing, ControllerView { state, ..v })
        } else {
            (EntryAction::StartPreprocessing, ControllerView { state, processing_in_progress: true, ..v })
        },
        RenderLoopState::Rendering => if v.rendering_in_progress {
            (EntryAction::Nothing, ControllerView { state, ..v })
        } else {
            (EntryAction::StartRendering, ControllerView { state, rendering_in_progress: true, ..v })
        },
        _ => (EntryAction::Nothing, ControllerView { state, ..v }),
    }
}

/// What a trigger does to a controller: no change when the state stays the
/// same, otherwise the entry of the new state.
pub open spec fn step(v: ControllerView, trigger: StateTransitionTrigger) -> (EntryAction, ControllerView) {
    let n = next_state(v.state, trigger);
    if n == v.state {
        (EntryAction::Nothing, v)
    } else {
        enter(v, n)
    }
}

impl RenderLoopController {
    /// The controller's observable state.
    pub closed spec fn view(&self) -> ControllerView {
        ControllerView {
            state: self.state,
            animation_running: self.animation_running,
            processing_in_progress: self.processing_in_progress,
            rendering_in_progress: self.rendering_in_progress,
        }
    }

    /// The preprocessing steps, in order.
    pub closed spec fn tasks(&self) -> Seq<PreprocessingTask> {
        self.preprocessing_tasks@
    }

    /// A stopped controller with the default pipeline: bounds, buffers, pipelines.
    pub fn new() -> (r: RenderLoopController)
        ensures
            r.view() == (ControllerView {
                state: RenderLoopState::Off,
                animation_running: false,
                processing_in_progress: false,
                rendering_in_progress: false,
            }),
            r.tasks() == seq![PreprocessingTask::CalculateBounds, PreprocessingTask::UpdateBuffers, PreprocessingTask::PreparePipelines],
    {
        let mut tasks = Vec::new();
        tasks.push(PreprocessingTask::CalculateBounds);
        tasks.push(PreprocessingTask::UpdateBuffers);
        tasks.push(PreprocessingTask::PreparePipelines);
        RenderLoopController {
            state: RenderLoopState::Off,
            animation_running: false,
            processing_in_progress: false,
            rendering_in_progress: false,
            preprocessing_tasks: tasks,
        }
    }

    /// The current state.
    pub fn get_state(&self) -> (r: RenderLoopState)
        ensures
            r == self.view().state,
    {
        self.state
    }

    /// The preprocessing steps to run, in order.
    pub fn preprocessing_tasks(&self) -> (r: &Vec<PreprocessingTask>)
        ensures
            r@ == self.tasks(),
    {
        &self.preprocessing_tasks
    }

    /// Applies a trigger: moves to the next state and returns the listener
    /// notice and the work that entering the new state asks for.
    pub fn trigger_transition(&mut self, trigger: StateTransitionTrigger) -> (r: Transition)
        ensures
            (r.action, final(self).view()) == step(old(self).view(), trigger),
            r.changed == change_of(old(self).view().state, trigger),
            final(self).tasks() == old(self).tasks(),
    {
        let current = self.state;
        let new_state = calculate_next_state(current, &trigger);
        if new_state == current {
            return Transition { changed: None, action: EntryAction::Nothing };
        }
        self.state = new_state;
        let action = self.on_state_enter(new_state);
        Transition { changed: Some((current, new_state)), action }
    }

    fn on_state_enter(&mut self, state: RenderLoopState) -> (r: EntryAction)
        requires
            old(self).state == state,
        ensures
            (r, final(self).view()) == enter(old(self).view(), state),
            final(self).tasks() == old(self).tasks(),
    {
        match state {
            RenderLoopState::Off => {
                self.animation_running = false;
                EntryAction::StopAnimationLoop
            },
            RenderLoopState::Clean => {
                if self.animation_running {
                    EntryAction::Nothing
                } else {
                    self.animation_running = true;
                    EntryAction::StartAnimationLoop
                }
            },
            RenderLoopState::PreProcessing => {
                if self.processing_in_progress {
                    EntryAction::Nothing
                } else {
                    self.processing_in_progress = true;
                    EntryAction::StartPreprocessing
                }
            },
            RenderLoopState::Rendering => {
                if self.rendering_in_progress {
                    EntryAction::Nothing
                } else {
                    self.rendering_in_progress = true;
                    EntryAction::StartRendering
                }
            },
            _ => EntryAction::Nothing,
        }
    }

    /// Records that the preprocessing pipeline the controller started has ended.
    pub fn preprocessing_finished(&mut self)
        ensures
            final(self).view() == (ControllerView { processing_in_progress: false, ..old(self).view() }),
            final(self).tasks() == old(self).tasks(),
    {
        self.processing_in_progress = false;
    }

    /// Records that the render the controller started has ended.
    pub fn rendering_finished(&mut self)
        ensures
            final(self).view() == (ControllerView { rendering_in_progress: false, ..old(self).view() }),
            final(self).tasks() == old(self).tasks(),
    {
        self.rendering_in_progress = false;
    }

    /// Handles an animation frame: states that are waiting for the frame
    /// (`PreProcess`, `PreProcessComplete`, `Dirty`) advance with an
    /// `AnimationTick`. Returns the listener notice and the work to start, and
    /// whether another frame must be requested (any state but `Off`).
    pub fn animation_frame(&mut self) -> (r: (Transition, bool))
        ensures
            ({
                let s = old(self).view().state;
                let ticks = s == RenderLoopState::PreProcess || s == RenderLoopState::PreProcessComplete || s == RenderLoopState::Dirty;
                let (a, v) = if ticks { step(old(self).view(), StateTransitionTrigger::AnimationTick) } else { (EntryAction::Nothing, old(self).view()) };
                let c = if ticks { change_of(s, StateTransitionTrigger::AnimationTick) } else { None };
                r.0.action == a && r.0.changed == c && final(self).view() == v && r.1 == (v.state != RenderLoopState::Off)
            }),
            final(self).tasks() == old(self).tasks(),
    {
        let action = match self.state {
            RenderLoopState::PreProcess | RenderLoopState::PreProcessComplete | RenderLoopState::Dirty => {
                self.trigger_transition(StateTransitionTrigger::AnimationTick)
            },
            _ => Transition { changed: None, action: EntryAction::Nothing },
        };
        let again = self.state != RenderLoopState::Off;
        (action, again)
    }
}

/// A stop request turns the loop off, and an error moves it to `Error`, from
/// every state.
pub proof fn law_stop_turns_off(s: RenderLoopState, msg: String)
    ensures
        next_state(s, StateTransitionTrigger::Stop) == RenderLoopState::Off,
        next_state(s, StateTransitionTrigger::ErrorOccurred(msg)) == RenderLoopState::Error,
{
}

/// A stopped loop leaves `Off` only when started (to `Clean`) or on an error
/// (to `Error`).
pub proof fn law_off_leaves_only_on_start_or_error(t: StateTransitionTrigger)
    ensures
        t == StateTransitionTrigger::Start ==> next_state(RenderLoopState::Off, t) == RenderLoopState::Clean,
        t is ErrorOccurred ==> next_state(RenderLoopState::Off, t) == RenderLoopState::Error,
        !(t == StateTransitionTrigger::Start) && !(t is ErrorOccurred) ==> next_state(RenderLoopState::Off, t) == RenderLoopState::Off,
{
}

/// New data received by an idle or dirty loop goes through preprocessing and
/// one render and ends clean, whatever triggers (other than a stop or an
/// error) drive the two animation-driven steps.
pub proof fn law_data_goes_through_preprocessing(s: RenderLoopState, tick1: StateTransitionTrigger, tick2: StateTransitionTrigger)
    requires
        s == RenderLoopState::Clean || s == RenderLoopState::Dirty,
        tick1 != StateTransitionTrigger::Stop,
        !(tick1 is ErrorOccurred),
        tick2 != StateTransitionTrigger::Stop,
        !(tick2 is ErrorOccurred),
    ensures
        next_state(s, StateTransitionTrigger::DataReceived) == RenderLoopState::PreProcess,
        next_state(RenderLoopState::PreProcess, tick1) == RenderLoopState::PreProcessing,
        next_state(RenderLoopState::PreProcessing, StateTransitionTrigger::PreProcessingDone) == RenderLoopState::PreProcessComplete,
        next_state(RenderLoopState::PreProcessComplete, tick2) == RenderLoopState::Rendering,
        next_state(RenderLoopState::Rendering, StateTransitionTrigger::RenderDone) == RenderLoopState::Clean,
{
}

/// View-only changes of a clean loop skip preprocessing: the loop becomes
/// dirty, renders on the next trigger that is not a data change, a stop or an
/// error, and is clean again after the render.
pub proof fn law_view_change_skips_preprocessing(t: StateTransitionTrigger, tick: StateTransitionTrigger)
    requires
        t == StateTransitionTrigger::ViewChanged
            || t == StateTransitionTrigger::VisualSettingsChanged
            || t == StateTransitionTrigger::MetricVisibilityChanged
            || t == (StateTransitionTrigger::Resized { requires_preprocessing: false }),
        tick != StateTransitionTrigger::DataReceived,
        tick != StateTransitionTrigger::DataConfigChanged,
        tick != StateTransitionTrigger::Stop,
        !(tick is ErrorOccurred),
    ensures
        next_state(RenderLoopState::Clean, t) == RenderLoopState::Dirty,
        next_state(RenderLoopState::Dirty, tick) == RenderLoopState::Rendering,
        next_state(RenderLoopState::Rendering, StateTransitionTrigger::RenderDone) == RenderLoopState::Clean,
{
}

/// The controller never asks for a second preprocessing run or a second render
/// while one it started is still in progress.
pub proof fn law_no_overlapping_work(v: ControllerView, t: StateTransitionTrigger)
    ensures
        step(v, t).0 == EntryAction::StartPreprocessing ==> !v.processing_in_progress && step(v, t).1.processing_in_progress,
        step(v, t).0 == EntryAction::StartRendering ==> !v.rendering_in_progress && step(v, t).1.rendering_in_progress,
        v.processing_in_progress ==> step(v, t).1.processing_in_progress,
        v.rendering_in_progress ==> step(v, t).1.rendering_in_progress,
{
}

/// A change of the data configuration is handled like new data: an idle or
/// dirty loop moves to preprocessing, never straight to a render; so does an
/// idle loop resized in a way that needs preprocessing.
pub proof fn law_data_config_change_preprocesses(s: RenderLoopState)
    requires
        s == RenderLoopState::Clean || s == RenderLoopState::Dirty,
    ensures
        next_state(s, StateTransitionTrigger::DataConfigChanged) == RenderLoopState::PreProcess,
        next_state(s, StateTransitionTrigger::DataConfigChanged) == next_state(s, StateTransitionTrigger::DataReceived),
        next_state(RenderLoopState::Clean, StateTransitionTrigger::Resized { requires_preprocessing: true })
            == RenderLoopState::PreProcess,
{
}

/// Work in progress is only ended by its own completion (or a stop or an
/// error): preprocessing waits for `PreProcessingDone`, a render for
/// `RenderDone`; a loop in `Error` stays there; and a dirty loop renders on
/// any trigger other than a data change.
pub proof fn law_work_in_progress_waits(t: StateTransitionTrigger)
    requires
        t != StateTransitionTrigger::Stop,
        !(t is ErrorOccurred),
    ensures
        t != StateTransitionTrigger::PreProcessingDone
            ==> next_state(RenderLoopState::PreProcessing, t) == RenderLoopState::PreProcessing,
        t != StateTransitionTrigger::RenderDone ==> next_state(RenderLoopState::Rendering, t) == RenderLoopState::Rendering,
        next_state(RenderLoopState::Error, t) == RenderLoopState::Error,
        t != StateTransitionTrigger::DataReceived && t != StateTransitionTrigger::DataConfigChanged
            ==> next_state(RenderLoopState::Dirty, t) == RenderLoopState::Rendering,
{
}

} // verus!
