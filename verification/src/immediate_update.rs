//! Immediate-mode update bookkeeping: each event is mapped at once to the work
//! it needs, and pending work is remembered in flags until cleared.
use vstd::prelude::*;

verus! {

/// Events that can require work on a chart.
#[derive(Debug, Clone, Copy, PartialEq, Eq, Structural)]
pub enum UpdateEvent {
    /// The data changed: fetch, preprocess and render.
    DataChanged,
    /// Pan or zoom.
    ViewChanged { zoom: bool, pan: bool },
    /// The configuration changed: rebuild pipelines.
    ConfigChanged,
    /// The window was resized.
    Resized(u32, u32),
    /// A metric was shown or hidden.
    MetricVisibilityChanged,
}

/// Whether the renderer accepts updates.
#[derive(Debug, Clone, Copy, PartialEq, Eq, Structural)]
pub enum RenderState {
    Ready,
    Busy(BusyReason),
}

/// Why the renderer is busy.
#[derive(Debug, Clone, Copy, PartialEq, Eq, Structural)]
pub enum BusyReason {
    FetchingData,
    Preprocessing,
    Rendering,
}

/// The work an event calls for.
#[derive(Debug, Clone, Copy, PartialEq, Eq, Structural)]
pub enum UpdateAction {
    RenderOnly,
    FetchAndRender,
    RebuildAndRender,
}

/// The action each event calls for.
pub open spec fn action_for(e: UpdateEvent) -> UpdateAction {
    match e {
        UpdateEvent::DataChanged => UpdateAction::FetchAndRender,
        UpdateEvent::ViewChanged { .. } => UpdateAction::RenderOnly,
        UpdateEvent::ConfigChanged => UpdateAction::RebuildAndRender,
        UpdateEvent::Resized(_, _) => UpdateAction::RebuildAndRender,
        UpdateEvent::MetricVisibilityChanged => UpdateAction::RenderOnly,
    }
}

/// Observable state of an updater.
pub struct UpdaterView {
    pub state: RenderState,
    pub needs_render: bool,
    pub needs_data_fetch: bool,
    pub needs_pipeline_rebuild: bool,
}

/// Tracks the renderer state and the work still to do.
pub struct ImmediateUpdater {
    state: RenderState,
    needs_render: bool,
    needs_data_fetch: bool,
    needs_pipeline_rebuild: bool,
}

impl ImmediateUpdater {
    /// The updater's observable state.
    pub closed spec fn view(&self) -> UpdaterView {
        UpdaterView {
            state: self.state,
            needs_render: self.needs_render,
            needs_data_fetch: self.needs_data_fetch,
            needs_pipeline_rebuild: self.needs_pipeline_rebuild,
        }
    }

    /// A ready updater with no pending work.
    pub fn new() -> (r: ImmediateUpdater)
        ensures
            r.view() == (UpdaterView { state: RenderState::Ready, needs_render: false, needs_data_fetch: false, needs_pipeline_rebuild: false }),
    {
        ImmediateUpdater { state: RenderState::Ready, needs_render: false, needs_data_fetch: false, needs_pipeline_rebuild: false }
    }

    /// The current state.
    pub fn get_state(&self) -> (r: RenderState)
        ensures
            r == self.view().state,
    {
        self.state
    }

    /// Ready for updates?
    pub fn is_ready(&self) -> (r: bool)
        ensures
            r == (self.view().state == RenderState::Ready),
    {
        match self.state {
            RenderState::Ready => true,
            RenderState::Busy(_) => false,
        }
    }

    /// Marks the renderer busy.
    pub fn set_busy(&mut self, reason: BusyReason)
        ensures
            final(self).view() == (UpdaterView { state: RenderState::Busy(reason), ..old(self).view() }),
    {
        self.state = RenderState::Busy(reason);
    }

    /// Marks the renderer ready.
    pub fn set_ready(&mut self)
        ensures
            final(self).view() == (UpdaterView { state: RenderState::Ready, ..old(self).view() }),
    {
        self.state = RenderState::Ready;
    }

    /// Records the work an event needs and returns the action for it. Every
    /// event requires a render; data changes also a fetch; configuration
    /// changes and resizes also a pipeline rebuild. Flags are only ever set here.
    pub fn process_update(&mut self, event: UpdateEvent) -> (r: UpdateAction)
        ensures
            r == action_for(event),
            final(self).view() == (UpdaterView {
                state: old(self).view().state,
                needs_render: true,
                needs_data_fetch: old(self).view().needs_data_fetch || r == UpdateAction::FetchAndRender,
                needs_pipeline_rebuild: old(self).view().needs_pipeline_rebuild || r == UpdateAction::RebuildAndRender,
            }),
    {
        match event {
            UpdateEvent::DataChanged => {
                self.needs_data_fetch = true;
                self.needs_render = true;
                UpdateAction::FetchAndRender
            },
            UpdateEvent::ViewChanged { .. } => {
                self.needs_render = true;
                UpdateAction::RenderOnly
            },
            UpdateEvent::ConfigChanged => {
                self.needs_pipeline_rebuild = true;
                self.needs_render = true;
                UpdateAction::RebuildAndRender
            },
            UpdateEvent::Resized(_, _) => {
                self.needs_pipeline_rebuild = true;
                self.needs_render = true;
                UpdateAction::RebuildAndRender
            },
            UpdateEvent::MetricVisibilityChanged => {
                self.needs_render = true;
                UpdateAction::RenderOnly
            },
        }
    }

    /// Is a render pending?
    pub fn needs_render(&self) -> (r: bool)
        ensures
            r == self.view().needs_render,
    {
        self.needs_render
    }

    /// Clears the pending render.
    pub fn clear_render_flag(&mut self)
        ensures
            final(self).view() == (UpdaterView { needs_render: false, ..old(self).view() }),
    {
        self.needs_render = false;
    }

    /// Is a data fetch pending?
    pub fn needs_data_fetch(&self) -> (r: bool)
        ensures
            r == self.view().needs_data_fetch,
    {
        self.needs_data_fetch
    }

    /// Clears the pending data fetch.
    pub fn clear_data_fetch_flag(&mut self)
        ensures
            final(self).view() == (UpdaterView { needs_data_fetch: false, ..old(self).view() }),
    {
        self.needs_data_fetch = false;
    }

    /// Is a pipeline rebuild pending?
    pub fn needs_pipeline_rebuild(&self) -> (r: bool)
        ensures
            r == self.view().needs_pipeline_rebuild,
    {
        self.needs_pipeline_rebuild
    }

    /// Clears the pending pipeline rebuild.
    pub fn clear_pipeline_rebuild_flag(&mut self)
        ensures
            final(self).view() == (UpdaterView { needs_pipeline_rebuild: false, ..old(self).view() }),
    {
        self.needs_pipeline_rebuild = false;
    }
}

impl Default for ImmediateUpdater {
    fn default() -> (r: ImmediateUpdater)
        ensures
            r.view() == (UpdaterView { state: RenderState::Ready, needs_render: false, needs_data_fetch: false, needs_pipeline_rebuild: false }),
    {
        ImmediateUpdater::new()
    }
}

} // verus!
