//! Three-state render loop (Idle -> Updating -> Rendering -> Idle) that queues
//! at most one update while busy, keeping the most demanding one. The caller
//! performs the requested work and reports back.
use vstd::prelude::*;

verus! {

/// Kind of update, by how much work it needs.
#[derive(Debug, Clone, Copy, PartialEq, Eq, Structural)]
pub enum UpdateType {
    /// Fetch and preprocess data.
    Data,
    /// Pan or zoom: render only.
    View,
    /// Configuration change: rebuild pipelines.
    Config,
}

/// State of the loop.
#[derive(Debug, Clone, Copy, PartialEq, Eq, Structural)]
pub enum RenderState {
    Idle,
    Updating(UpdateType),
    Rendering,
}

/// Events reported to the loop.
#[derive(Debug, Clone, PartialEq, Eq)]
pub enum UpdateTrigger {
    DataRequested,
    ViewChanged,
    VisualSettingsChanged,
    MetricVisibilityChanged,
    ConfigChanged,
    Resized,
    UpdateComplete,
    RenderComplete,
    Error(String),
    Start,
    Stop,
}

/// Work the loop asks its caller to do.
#[derive(Debug, Clone, Copy, PartialEq, Eq, Structural)]
pub enum LoopAction {
    /// Request an animation frame; call `animation_frame` when it fires.
    RequestAnimationFrame,
    /// Cancel the pending animation frame.
    CancelAnimationFrame,
    /// Perform the update, then call `update_finished`.
    StartUpdate(UpdateType),
    /// Render a frame (subject to frame pacing), then report `RenderComplete`.
    StartRender,
    /// The state changed from the first to the second: call every state
    /// listener, in the order they were added, with the two states.
    StateChanged(RenderState, RenderState),
}

/// The listener notice for a move from `old` to `new`: one when the state
/// changes, none when it stays.
pub open spec fn notice(old: RenderState, new: RenderState) -> Seq<LoopAction> {
    if old == new { seq![] } else { seq![LoopAction::StateChanged(old, new)] }
}

/// Priority of an update kind: a configuration change outranks a data update,
/// which outranks a view change.
pub open spec fn priority(t: UpdateType) -> u8 {
    match t {
        UpdateType::Config => 3,
        UpdateType::Data => 2,
        UpdateType::View => 1,
    }
}

/// The update kind a trigger requests, if it requests one.
pub open spec fn requested_update(t: UpdateTrigger) -> Option<UpdateType> {
    match t {
        UpdateTrigger::DataRequested => Some(UpdateType::Data),
        UpdateTrigger::ViewChanged | UpdateTrigger::VisualSettingsChanged
        | UpdateTrigger::MetricVisibilityChanged | UpdateTrigger::Resized => Some(UpdateType::View),
        UpdateTrigger::ConfigChanged => Some(UpdateType::Config),
        _ => None,
    }
}

/// The observable state of a loop.
pub struct LoopView {
    pub state: RenderState,
    pub pending: Option<UpdateType>,
    pub processing: bool,
    pub frame_requested: bool,
}

/// Priority of an update kind.
pub fn get_update_priority(t: UpdateType) -> (r: u8)
    ensures
        r == priority(t),
{
    match t {
        UpdateType::Config => 3,
        UpdateType::Data => 2,
        UpdateType::View => 1,
    }
}

/// What requesting an update of kind `t` does.
pub open spec fn request_update_spec(v: LoopView, t: UpdateType) -> (Seq<LoopAction>, LoopView) {
    match v.state {
        RenderState::Idle => {
            let (a, v2) = start_update_spec(LoopView { state: RenderState::Updating(t), ..v }, t);
            (seq![LoopAction::StateChanged(RenderState::Idle, RenderState::Updating(t))] + a, v2)
        },
        RenderState::Updating(cur) => if priority(t) > priority(cur) {
            (seq![], LoopView { pending: Some(t), ..v })
        } else {
            (seq![], v)
        },
        RenderState::Rendering => match v.pending {
            Some(p) => if priority(t) > priority(p) {
                (seq![], LoopView { pending: Some(t), ..v })
            } else {
                (seq![], v)
            },
            None => (seq![], LoopView { pending: Some(t), ..v }),
        },
    }
}

/// Starting an update: nothing happens while an earlier one is still being processed.
pub open spec fn start_update_spec(v: LoopView, t: UpdateType) -> (Seq<LoopAction>, LoopView) {
    if v.processing {
        (seq![], v)
    } else {
        (seq![LoopAction::StartUpdate(t)], LoopView { processing: true, ..v })
    }
}

/// An animation frame: keep the frame loop alive while busy or while an update
/// is queued, then start the queued update if the loop is idle. The queued
/// update is consumed either way.
pub open spec fn animation_frame_spec(v: LoopView) -> (Seq<LoopAction>, LoopView) {
    let keep = !(v.state == RenderState::Idle) || v.pending is Some;
    let a1: Seq<LoopAction> = if keep { seq![LoopAction::RequestAnimationFrame] } else { seq![] };
    let v1 = LoopView { frame_requested: v.frame_requested || keep, pending: None, ..v };
    match v.pending {
        Some(p) => if v.state == RenderState::Idle {
            let (a2, v2) = start_update_spec(LoopView { state: RenderState::Updating(p), ..v1 }, p);
            (a1 + seq![LoopAction::StateChanged(RenderState::Idle, RenderState::Updating(p))] + a2, v2)
        } else {
            (a1, v1)
        },
        None => (a1, v1),
    }
}

/// What a trigger does.
pub open spec fn trigger_spec(v: LoopView, t: UpdateTrigger) -> (Seq<LoopAction>, LoopView) {
    match t {
        UpdateTrigger::Start => if v.frame_requested {
            (seq![], v)
        } else {
            (seq![LoopAction::RequestAnimationFrame], LoopView { frame_requested: true, ..v })
        },
        UpdateTrigger::Stop => {
            let a: Seq<LoopAction> = if v.frame_requested { seq![LoopAction::CancelAnimationFrame] } else { seq![] };
            (a + notice(v.state, RenderState::Idle), LoopView { frame_requested: false, state: RenderState::Idle, ..v })
        },
        UpdateTrigger::UpdateComplete => match v.state {
            RenderState::Updating(u) => (
                seq![LoopAction::StateChanged(RenderState::Updating(u), RenderState::Rendering), LoopAction::StartRender],
                LoopView { state: RenderState::Rendering, ..v },
            ),
            _ => (seq![], v),
        },
        UpdateTrigger::RenderComplete => match v.state {
            RenderState::Rendering => if v.pending is Some {
                let (a, v2) = animation_frame_spec(LoopView { state: RenderState::Idle, ..v });
                (seq![LoopAction::StateChanged(RenderState::Rendering, RenderState::Idle)] + a, v2)
            } else {
                (seq![LoopAction::StateChanged(RenderState::Rendering, RenderState::Idle)], LoopView { state: RenderState::Idle, ..v })
            },
            _ => (seq![], v),
        },
        UpdateTrigger::Error(_) => (notice(v.state, RenderState::Idle), LoopView { state: RenderState::Idle, ..v }),
        _ => match requested_update(t) {
            Some(u) => request_update_spec(v, u),
            None => (seq![], v),
        },
    }
}

/// The three-state render loop.
pub struct SimplifiedRenderLoop {
    state: RenderState,
    pending_update: Option<UpdateType>,
    is_processing: bool,
    frame_requested: bool,
}

impl SimplifiedRenderLoop {
    /// The loop's observable state.
    pub closed spec fn view(&self) -> LoopView {
        LoopView {
            state: self.state,
            pending: self.pending_update,
            processing: self.is_processing,
            frame_requested: self.frame_requested,
        }
    }

    /// An idle loop with nothing queued and no frame requested.
    pub fn new() -> (r: SimplifiedRenderLoop)
        ensures
            r.view() == (LoopView { state: RenderState::Idle, pending: None, processing: false, frame_requested: false }),
    {
        SimplifiedRenderLoop { state: RenderState::Idle, pending_update: None, is_processing: false, frame_requested: false }
    }

    /// The current state.
    pub fn get_state(&self) -> (r: RenderState)
        ensures
            r == self.view().state,
    {
        self.state
    }

    /// The queued update, if any.
    pub fn pending_update(&self) -> (r: Option<UpdateType>)
        ensures
            r == self.view().pending,
    {
        self.pending_update
    }

    fn start_update(&mut self, t: UpdateType, actions: &mut Vec<LoopAction>)
        ensures
            ({
                let (a, v) = start_update_spec(old(self).view(), t);
                final(self).view() == v && final(actions)@ == old(actions)@ + a
            }),
    {
        if self.is_processing {
            assert(old(actions)@ + seq![] =~= old(actions)@);
            return;
        }
        self.is_processing = true;
        actions.push(LoopAction::StartUpdate(t));
    }

    fn request_update(&mut self, t: UpdateType, actions: &mut Vec<LoopAction>)
        ensures
            ({
                let (a, v) = request_update_spec(old(self).view(), t);
                final(self).view() == v && final(actions)@ == old(actions)@ + a
            }),
    {
        match self.state {
            RenderState::Idle => {
                self.state = RenderState::Updating(t);
                actions.push(LoopAction::StateChanged(RenderState::Idle, RenderState::Updating(t)));
                let ghost mid = actions@;
                self.start_update(t, actions);
                proof {
                    let (a, v2) = start_update_spec(LoopView { state: RenderState::Updating(t), ..old(self).view() }, t);
                    assert(mid == old(actions)@.push(LoopAction::StateChanged(RenderState::Idle, RenderState::Updating(t))));
                    assert(actions@ =~= old(actions)@ + (seq![LoopAction::StateChanged(RenderState::Idle, RenderState::Updating(t))] + a));
                }
            },
            RenderState::Updating(current) => {
                if get_update_priority(t) > get_update_priority(current) {
                    self.pending_update = Some(t);
                }
                assert(old(actions)@ + seq![] =~= old(actions)@);
            },
            RenderState::Rendering => {
                match self.pending_update {
                    Some(p) => {
                        if get_update_priority(t) > get_update_priority(p) {
                            self.pending_update = Some(t);
                        }
                    },
                    None => {
                        self.pending_update = Some(t);
                    },
                }
                assert(old(actions)@ + seq![] =~= old(actions)@);
            },
        }
    }

    fn frame_callback(&mut self, actions: &mut Vec<LoopAction>)
        ensures
            ({
                let (a, v) = animation_frame_spec(old(self).view());
                final(self).view() == v && final(actions)@ == old(actions)@ + a
            }),
    {
        let keep = self.state != RenderState::Idle || self.pending_update.is_some();
        if keep {
            actions.push(LoopAction::RequestAnimationFrame);
            self.frame_requested = true;
        } else {
            assert(old(actions)@ + seq![] =~= old(actions)@);
        }
        let ghost mid = actions@;
        let pending = self.pending_update;
        self.pending_update = None;
        match pending {
            Some(p) => {
                if self.state == RenderState::Idle {
                    self.state = RenderState::Updating(p);
                    actions.push(LoopAction::StateChanged(RenderState::Idle, RenderState::Updating(p)));
                    let ghost mid2 = actions@;
                    self.start_update(p, actions);
                    proof {
                        let a1: Seq<LoopAction> = if keep { seq![LoopAction::RequestAnimationFrame] } else { seq![] };
                        let n: Seq<LoopAction> = seq![LoopAction::StateChanged(RenderState::Idle, RenderState::Updating(p))];
                        let (a2, v2) = start_update_spec(LoopView { state: RenderState::Updating(p), pending: None, frame_requested: old(self).frame_requested || keep, ..old(self).view() }, p);
                        assert(mid == old(actions)@ + a1);
                        assert(mid2 =~= old(actions)@ + a1 + n);
                        assert(actions@ =~= old(actions)@ + (a1 + n + a2));
                    }
                }
            },
            None => {},
        }
    }

    /// Handles an animation frame, returning the work to do.
    pub fn animation_frame(&mut self) -> (r: Vec<LoopAction>)
        ensures
            (r@, final(self).view()) == animation_frame_spec(old(self).view()),
    {
        let mut actions = Vec::new();
        self.frame_callback(&mut actions);
        assert(actions@ =~= seq![] + actions@);
        actions
    }

    /// Records that the update the loop asked for has been performed, then
    /// handles the resulting `UpdateComplete`.
    pub fn update_finished(&mut self) -> (r: Vec<LoopAction>)
        ensures
            ({
                let (a, v) = trigger_spec(old(self).view(), UpdateTrigger::UpdateComplete);
                r@ == a && final(self).view() == LoopView { processing: false, ..v }
            }),
    {
        let r = self.trigger(UpdateTrigger::UpdateComplete);
        self.is_processing = false;
        r
    }

    /// Handles a trigger, returning the work to do in order.
    pub fn trigger(&mut self, trigger: UpdateTrigger) -> (r: Vec<LoopAction>)
        ensures
            (r@, final(self).view()) == trigger_spec(old(self).view(), trigger),
    {
        let mut actions: Vec<LoopAction> = Vec::new();
        proof {
            assert(actions@ =~= seq![]);
        }
        match trigger {
            UpdateTrigger::Start => {
                if !self.frame_requested {
                    self.frame_requested = true;
                    actions.push(LoopAction::RequestAnimationFrame);
                }
            },
            UpdateTrigger::Stop => {
                if self.frame_requested {
                    actions.push(LoopAction::CancelAnimationFrame);
                }
                self.frame_requested = false;
                let prev = self.state;
                self.state = RenderState::Idle;
                if prev != RenderState::Idle {
                    actions.push(LoopAction::StateChanged(prev, RenderState::Idle));
                }
            },
            UpdateTrigger::DataRequested => {
                self.request_update(UpdateType::Data, &mut actions);
                assert(actions@ =~= seq![] + request_update_spec(old(self).view(), UpdateType::Data).0);
            },
            UpdateTrigger::ViewChanged | UpdateTrigger::VisualSettingsChanged
            | UpdateTrigger::MetricVisibilityChanged | UpdateTrigger::Resized => {
                self.request_update(UpdateType::View, &mut actions);
                assert(actions@ =~= seq![] + request_update_spec(old(self).view(), UpdateType::View).0);
            },
            UpdateTrigger::ConfigChanged => {
                self.request_update(UpdateType::Config, &mut actions);
                assert(actions@ =~= seq![] + request_update_spec(old(self).view(), UpdateType::Config).0);
            },
            UpdateTrigger::UpdateComplete => {
                match self.state {
                    RenderState::Updating(u) => {
                        self.state = RenderState::Rendering;
                        actions.push(LoopAction::StateChanged(RenderState::Updating(u), RenderState::Rendering));
                        actions.push(LoopAction::StartRender);
                    },
                    _ => {},
                }
            },
            UpdateTrigger::RenderComplete => {
                match self.state {
                    RenderState::Rendering => {
                        self.state = RenderState::Idle;
                        actions.push(LoopAction::StateChanged(RenderState::Rendering, RenderState::Idle));
                        if self.pending_update.is_some() {
                            self.frame_callback(&mut actions);
                            assert(actions@ =~= seq![LoopAction::StateChanged(RenderState::Rendering, RenderState::Idle)]
                                + animation_frame_spec(LoopView { state: RenderState::Idle, ..old(self).view() }).0);
                        }
                    },
                    _ => {},
                }
            },
            UpdateTrigger::Error(_) => {
                let prev = self.state;
                self.state = RenderState::Idle;
                if prev != RenderState::Idle {
                    actions.push(LoopAction::StateChanged(prev, RenderState::Idle));
                }
            },
        }
        actions
    }
}

/// While a frame is rendering, requests are queued and the queue keeps the
/// request of highest priority seen (the earliest one among equals).
pub proof fn law_queue_keeps_highest_priority(v: LoopView, t: UpdateType)
    requires
        v.state == RenderState::Rendering,
    ensures
        ({
            let q = request_update_spec(v, t).1.pending;
            &&& q is Some
            &&& priority(q.unwrap()) >= priority(t)
            &&& v.pending matches Some(p) ==> priority(q.unwrap()) >= priority(p)
            &&& q == Some(t) || q == v.pending
        }),
{
}

/// A configuration change requested while busy is never lost to a lower
/// priority request: it is queued, unless it is the update already running.
pub proof fn law_config_change_is_queued(v: LoopView)
    requires
        v.state == RenderState::Rendering || (v.state is Updating && v.state->Updating_0 != UpdateType::Config),
    ensures
        request_update_spec(v, UpdateType::Config).1.pending == Some(UpdateType::Config),
{
}

/// Requests never discard a queued update of higher priority while rendering,
/// and a busy loop never changes state because of a request.
pub proof fn law_requests_do_not_interrupt(v: LoopView, t: UpdateType)
    requires
        !(v.state == RenderState::Idle),
    ensures
        request_update_spec(v, t).1.state == v.state,
        request_update_spec(v, t).0 == Seq::<LoopAction>::empty(),
{
}

/// A request to an idle loop moves it to updating and tells the listeners so,
/// once, with (Idle, Updating) before the update starts; a request to a busy
/// loop tells them nothing (see `law_requests_do_not_interrupt`).
pub proof fn law_idle_request_is_announced(v: LoopView, t: UpdateType)
    requires
        v.state == RenderState::Idle,
    ensures
        request_update_spec(v, t).1.state == RenderState::Updating(t),
        request_update_spec(v, t).0[0] == LoopAction::StateChanged(RenderState::Idle, RenderState::Updating(t)),
        forall|i: int| 1 <= i < request_update_spec(v, t).0.len() ==> !(#[trigger] request_update_spec(v, t).0[i] is StateChanged),
{
}

/// An idle loop serves a data request in one cycle: the update starts at once,
/// its completion starts a render, and the end of the render makes the loop
/// idle again; the listeners hear of each of the three moves, once each.
pub proof fn law_idle_data_request_cycle(v: LoopView)
    requires
        v.state == RenderState::Idle,
        !v.processing,
        v.pending is None,
    ensures
        ({
            let (a1, v1) = trigger_spec(v, UpdateTrigger::DataRequested);
            let (a2, v2) = trigger_spec(v1, UpdateTrigger::UpdateComplete);
            let v2f = LoopView { processing: false, ..v2 };
            let (a3, v3) = trigger_spec(v2f, UpdateTrigger::RenderComplete);
            &&& a1 == seq![LoopAction::StateChanged(RenderState::Idle, RenderState::Updating(UpdateType::Data)), LoopAction::StartUpdate(UpdateType::Data)]
            &&& v1.state == RenderState::Updating(UpdateType::Data)
            &&& a2 == seq![LoopAction::StateChanged(RenderState::Updating(UpdateType::Data), RenderState::Rendering), LoopAction::StartRender]
            &&& v2.state == RenderState::Rendering
            &&& a3 == seq![LoopAction::StateChanged(RenderState::Rendering, RenderState::Idle)]
            &&& v3.state == RenderState::Idle
            &&& v3.pending is None
        }),
{
}

} // verus!
