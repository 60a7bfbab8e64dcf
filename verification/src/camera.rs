//! The pipeline as its owner sees it: built step by step, used for one
//! capture after another, and shut down once.

use crate::capture::{action_spec, step_spec, CaptureAction, CaptureEvent, CaptureSession, Phase};
use crate::error::CameraError;
use crate::format::{valid_dimensions, Port};
use crate::pipeline::{Lifecycle, PipelineState, Stage};
use crate::pool::{BufferPool, PoolView};
use crate::protocol::{ComponentKind, Reply, Request, Teardown};
use vstd::prelude::*;

verus! {

/// What a camera holds, as mathematics: the state of its construction, the
/// contents of its pool, and the capture it is busy with.
pub struct CameraView {
    pub state: PipelineState,
    pub pool: PoolView,
    /// Where the capture begun last stands; nothing if none was begun.
    pub capture: Option<Phase>,
}

impl CameraView {
    /// The state is one that construction can reach, every buffer of the
    /// pool is in one place, and the pool is the one made for the encoder's
    /// output port: as many buffers, of the same size, as the port was
    /// committed with. Where no pool exists, the pool is empty.
    pub open spec fn wf(self) -> bool {
        &&& self.state.wf()
        &&& self.pool.wf()
        &&& if self.state.pool_allocated {
            &&& self.pool.capacity == self.state.encoder_output.buffer_num
            &&& self.pool.buffer_size == self.state.encoder_output.buffer_size
        } else {
            self.pool == PoolView::fresh(0, 0)
        }
        &&& (self.capture is Some ==> self.state.ready())
    }

    /// A camera of which nothing exists yet.
    pub open spec fn initial(width: u32, height: u32) -> CameraView {
        CameraView {
            state: PipelineState::initial(width, height),
            pool: PoolView::fresh(0, 0),
            capture: None,
        }
    }

    /// The camera after `reply` to the call it waited on. The reply that
    /// completes construction brings the pool, with all its buffers waiting.
    pub open spec fn after(self, reply: Reply) -> CameraView {
        let next = self.state.after(reply);
        CameraView {
            state: next,
            pool: if next.pool_allocated && !self.state.pool_allocated {
                PoolView::fresh(
                    next.encoder_output.buffer_num as nat,
                    next.encoder_output.buffer_size,
                )
            } else {
                self.pool
            },
            capture: self.capture,
        }
    }

    /// The camera after each of `replies` in turn.
    pub open spec fn after_all(self, replies: Seq<Reply>) -> CameraView
        decreases replies.len(),
    {
        if replies.len() == 0 {
            self
        } else {
            self.after(replies[0]).after_all(replies.drop_first())
        }
    }

    /// The camera after a shutdown: nothing exists, the pool included, and
    /// no capture is under way.
    pub open spec fn shut_down(self) -> CameraView {
        CameraView { state: self.state.shut_down(), pool: PoolView::fresh(0, 0), capture: None }
    }

    /// A capture can begin: construction is complete, and the capture begun
    /// before, if there was one, is over.
    pub open spec fn can_begin_capture(self) -> bool {
        &&& self.state.ready()
        &&& match self.capture {
            None => true,
            Some(phase) => phase is Complete || phase is Failed,
        }
    }

    /// The camera after a capture was asked for: where one can begin, a new
    /// one is under way, idle; otherwise nothing has changed.
    pub open spec fn begun(self) -> CameraView {
        if self.can_begin_capture() {
            CameraView { capture: Some(Phase::Idle), ..self }
        } else {
            self
        }
    }

    /// The camera after `event` of the capture under way. With no capture
    /// begun, an event changes nothing.
    pub open spec fn after_capture_event(self, event: CaptureEvent) -> CameraView {
        match self.capture {
            Some(phase) => CameraView {
                pool: step_spec(phase, self.pool, event).1,
                capture: Some(step_spec(phase, self.pool, event).0),
                ..self
            },
            None => self,
        }
    }

    /// What the caller is told after `event` of the capture under way.
    pub open spec fn capture_action(self, event: CaptureEvent) -> CaptureAction {
        match self.capture {
            Some(phase) => action_spec(phase, self.pool, event),
            None => CaptureAction::Nothing,
        }
    }

    /// The action that the capture under way waits on.
    pub open spec fn capture_pending(self) -> CaptureAction {
        match self.capture {
            Some(phase) => phase.pending(),
            None => CaptureAction::Nothing,
        }
    }

    /// The camera after the control port of `component` was enabled. A
    /// component that does not exist has no port to enable.
    pub open spec fn with_control_port(self, component: ComponentKind) -> CameraView {
        match component {
            ComponentKind::Capture => if self.state.capture.live() {
                CameraView {
                    state: PipelineState { capture_control: true, ..self.state },
                    ..self
                }
            } else {
                self
            },
            ComponentKind::Encoder => if self.state.encoder.live() {
                CameraView {
                    state: PipelineState { encoder_control: true, ..self.state },
                    ..self
                }
            } else {
                self
            },
        }
    }
}

/// No reply takes a well-formed camera to one that is not.
pub proof fn lemma_camera_after_keeps_wf(camera: CameraView, reply: Reply)
    requires
        camera.wf(),
    ensures
        camera.after(reply).wf(),
{
    crate::pipeline::lemma_after_keeps_wf(camera.state, reply);
    let next = camera.state.after(reply);
    if next.pool_allocated && !camera.state.pool_allocated {
        crate::pool::lemma_fresh_pool(
            next.encoder_output.buffer_num as nat,
            next.encoder_output.buffer_size,
        );
    }
}

/// Whatever the native layer replies, the camera stays well-formed; and a
/// camera whose construction is complete has a pool of exactly the buffers
/// its encoder's output port was committed with, all of them waiting or in
/// flight.
pub proof fn lemma_camera_construction(width: u32, height: u32, replies: Seq<Reply>)
    requires
        valid_dimensions(width, height),
    ensures
        ({
            let built = CameraView::initial(width, height).after_all(replies);
            &&& built.wf()
            &&& built.state == PipelineState::initial(width, height).after_all(replies)
            &&& built.state.ready() ==> {
                &&& built.pool.capacity == built.state.encoder_output.buffer_num
                &&& built.pool.buffer_size == built.state.encoder_output.buffer_size
                &&& built.pool.in_flight.len() + built.pool.queue.len() == built.pool.capacity
            }
        }),
{
    crate::pipeline::lemma_initial_wf(width, height);
    crate::pool::lemma_fresh_pool(0, 0);
    lemma_camera_after_all(CameraView::initial(width, height), replies);
    crate::pool::lemma_pool_accounts_for_every_buffer(
        CameraView::initial(width, height).after_all(replies).pool,
    );
}

/// Replies in any number keep a well-formed camera well-formed.
pub proof fn lemma_camera_after_all(camera: CameraView, replies: Seq<Reply>)
    requires
        camera.wf(),
    ensures
        camera.after_all(replies).wf(),
        camera.after_all(replies).state == camera.state.after_all(replies),
    decreases replies.len(),
{
    if replies.len() > 0 {
        lemma_camera_after_keeps_wf(camera, replies[0]);
        lemma_camera_after_all(camera.after(replies[0]), replies.drop_first());
    }
}

/// The camera's invariant holds at every moment: whatever is replied during
/// construction, whatever happens in a capture, whenever a control port is
/// enabled, a capture is asked for or the camera is shut down, a
/// well-formed camera stays well-formed.
pub proof fn lemma_camera_stays_well_formed(
    camera: CameraView,
    reply: Reply,
    event: CaptureEvent,
    component: ComponentKind,
)
    requires
        camera.wf(),
    ensures
        camera.after(reply).wf(),
        camera.begun().wf(),
        camera.after_capture_event(event).wf(),
        camera.with_control_port(component).wf(),
        camera.shut_down().wf(),
{
    lemma_camera_after_keeps_wf(camera, reply);
    crate::pool::lemma_fresh_pool(0, 0);
    if let Some(phase) = camera.capture {
        crate::capture::lemma_step_keeps_pool(phase, camera.pool, event);
    }
}

/// At every moment the buffers in flight and the buffers waiting add up to
/// the pool's capacity, and the capacity of an existing pool is the buffer
/// count that the encoder's output port was committed with.
pub proof fn lemma_camera_accounts_for_every_buffer(camera: CameraView)
    requires
        camera.wf(),
    ensures
        camera.pool.in_flight.finite(),
        camera.pool.in_flight.len() + camera.pool.queue.len() == camera.pool.capacity,
        camera.state.pool_allocated ==> camera.pool.capacity
            == camera.state.encoder_output.buffer_num,
        !camera.state.pool_allocated ==> camera.pool.capacity == 0,
{
    crate::pool::lemma_pool_accounts_for_every_buffer(camera.pool);
}

/// A second shutdown has nothing to release and changes nothing.
pub proof fn lemma_second_shutdown_does_nothing(camera: CameraView)
    ensures
        camera.shut_down().state.teardown_plan() =~= Seq::<Teardown>::empty(),
        camera.shut_down().shut_down() == camera.shut_down(),
        camera.wf() ==> camera.shut_down().wf(),
{
    crate::pipeline::lemma_shutdown_is_idempotent(camera.state);
    crate::pool::lemma_fresh_pool(0, 0);
}

/// A capture component tunnelled into an encoder, with the encoder's pool
/// of output buffers.
#[derive(Debug)]
pub struct Camera {
    state: PipelineState,
    pool: BufferPool,
    session: CaptureSession,
    capturing: bool,
}

impl View for Camera {
    type V = CameraView;

    closed spec fn view(&self) -> CameraView {
        CameraView {
            state: self.state,
            pool: self.pool@,
            capture: if self.capturing {
                Some(self.session@)
            } else {
                None
            },
        }
    }
}

impl Camera {
    /// The camera's invariant: see [`CameraView::wf`].
    pub open spec fn wf(&self) -> bool {
        self@.wf()
    }

    /// A camera for stills of `width` by `height`, of which nothing exists
    /// yet. A size with a side of zero, or with a side beyond
    /// [`crate::format::MAX_DIMENSION`], cannot be configured and is rejected.
    pub fn new(width: u32, height: u32) -> (camera: Result<Camera, CameraError>)
        ensures
            match camera {
                Ok(c) => valid_dimensions(width, height) && c.wf() && c@ == CameraView::initial(
                    width,
                    height,
                ),
                Err(e) => !valid_dimensions(width, height) && e
                    == CameraError::ConfigurationRejected,
            },
    {
        match PipelineState::new(width, height) {
            Some(state) => {
                let pool = BufferPool::new(0, 0);
                Ok(Camera { state, pool, session: CaptureSession::new(), capturing: false })
            },
            None => Err(CameraError::ConfigurationRejected),
        }
    }

    /// What is known of the pipeline.
    pub fn state(&self) -> (state: PipelineState)
        ensures
            state == self@.state,
    {
        self.state
    }

    /// The call that construction waits on, or [`Stage::Ready`], or
    /// [`Stage::Closed`].
    pub fn stage(&self) -> (stage: Stage)
        ensures
            stage == self@.state.stage,
    {
        self.state.stage
    }

    /// The failure that ended construction, if one did.
    pub fn error(&self) -> (error: Option<CameraError>)
        ensures
            error == self@.state.error,
    {
        self.state.error
    }

    /// Whether construction is complete and stills can be taken.
    pub fn is_ready(&self) -> (ready: bool)
        ensures
            ready == self@.state.ready(),
    {
        self.state.is_ready()
    }

    /// The capture component's still port.
    pub fn still_port(&self) -> (port: Port)
        ensures
            port == self@.state.still,
    {
        self.state.still
    }

    /// The encoder's input port.
    pub fn encoder_input(&self) -> (port: Port)
        ensures
            port == self@.state.encoder_input,
    {
        self.state.encoder_input
    }

    /// The encoder's output port.
    pub fn encoder_output(&self) -> (port: Port)
        ensures
            port == self@.state.encoder_output,
    {
        self.state.encoder_output
    }

    /// The pool of the encoder's output port. It is empty until
    /// construction is complete.
    pub fn pool(&self) -> (pool: &BufferPool)
        ensures
            pool@ == self@.pool,
    {
        &self.pool
    }

    /// The native call that the camera waits on. Nothing is waited on once
    /// construction is complete, has failed, or the camera is shut down.
    pub fn pending(&self) -> (request: Request)
        ensures
            request == self@.state.request_spec(),
    {
        self.state.request()
    }

    /// Takes the outcome of the call that the camera waited on and returns
    /// the call it waits on next.
    pub fn step(&mut self, reply: Reply) -> (request: Request)
        requires
            old(self).wf(),
        ensures
            final(self).wf(),
            final(self)@ == old(self)@.after(reply),
            request == final(self)@.state.request_spec(),
    {
        proof {
            lemma_camera_after_keeps_wf(self@, reply);
        }
        let had_pool = self.state.pool_allocated;
        self.state.advance(reply);
        if self.state.pool_allocated && !had_pool {
            self.pool = BufferPool::new(
                self.state.encoder_output.buffer_num,
                self.state.encoder_output.buffer_size,
            );
        }
        self.state.request()
    }

    /// Records that the caller has enabled the control port of `component`,
    /// so that a shutdown disables it. Returns whether the component exists;
    /// if it does not, nothing is recorded.
    pub fn mark_control_port_enabled(&mut self, component: ComponentKind) -> (recorded: bool)
        requires
            old(self).wf(),
        ensures
            final(self).wf(),
            final(self)@ == old(self)@.with_control_port(component),
            recorded == match component {
                ComponentKind::Capture => old(self)@.state.capture.live(),
                ComponentKind::Encoder => old(self)@.state.encoder.live(),
            },
    {
        match component {
            ComponentKind::Capture => {
                if self.state.capture.is_live() {
                    self.state.capture_control = true;
                    true
                } else {
                    false
                }
            },
            ComponentKind::Encoder => {
                if self.state.encoder.is_live() {
                    self.state.encoder_control = true;
                    true
                } else {
                    false
                }
            },
        }
    }

    /// Where the capture begun last stands; nothing if none was begun.
    pub fn capture_phase(&self) -> (phase: Option<Phase>)
        ensures
            phase == self@.capture,
    {
        if self.capturing {
            Some(self.session.phase())
        } else {
            None
        }
    }

    /// The action that the capture under way waits on.
    pub fn capture_pending(&self) -> (action: CaptureAction)
        ensures
            action == self@.capture_pending(),
    {
        if self.capturing {
            self.session.pending()
        } else {
            CaptureAction::Nothing
        }
    }

    /// Begins a capture and returns its first action, if the camera can
    /// take one: its construction must be complete, and the capture begun
    /// before must have ended, completed or failed. Otherwise nothing
    /// begins and no capture is attempted.
    pub fn begin_capture(&mut self) -> (action: Option<CaptureAction>)
        requires
            old(self).wf(),
        ensures
            final(self).wf(),
            final(self)@ == old(self)@.begun(),
            action == if old(self)@.can_begin_capture() {
                Some(CaptureAction::EnablePort)
            } else {
                None
            },
    {
        if !self.state.is_ready() {
            return None;
        }
        if self.capturing {
            match self.session.phase() {
                Phase::Complete => {},
                Phase::Failed { .. } => {},
                _ => {
                    return None;
                },
            }
        }
        self.session = CaptureSession::new();
        self.capturing = true;
        Some(CaptureAction::EnablePort)
    }

    /// Takes the capture under way one step on, with the camera's pool: see
    /// [`CaptureSession::step`]. With no capture begun, nothing happens.
    pub fn capture_step(&mut self, event: CaptureEvent) -> (action: CaptureAction)
        requires
            old(self).wf(),
        ensures
            final(self).wf(),
            final(self)@ == old(self)@.after_capture_event(event),
            action == old(self)@.capture_action(event),
    {
        if self.capturing {
            self.session.step(&mut self.pool, event)
        } else {
            CaptureAction::Nothing
        }
    }

    /// Asks for the connection to be disabled, if it is enabled.
    fn disable_connection(&mut self) -> (step: Option<Teardown>)
        ensures
            final(self).pool == old(self).pool,
            final(self).session == old(self).session,
            final(self).capturing == old(self).capturing,
            final(self).state == (PipelineState {
                connection: old(self).state.connection.disabled(),
                ..old(self).state
            }),
            step == if old(self).state.connection is Enabled {
                Some(Teardown::DisableConnection)
            } else {
                None
            },
    {
        match self.state.connection {
            Lifecycle::Enabled => {
                self.state.connection = Lifecycle::Disabled;
                Some(Teardown::DisableConnection)
            },
            _ => None,
        }
    }

    /// Asks for the connection to be destroyed, if it exists.
    fn destroy_connection(&mut self) -> (step: Option<Teardown>)
        ensures
            final(self).pool == old(self).pool,
            final(self).session == old(self).session,
            final(self).capturing == old(self).capturing,
            final(self).state == (PipelineState {
                connection: old(self).state.connection.destroyed(),
                ..old(self).state
            }),
            step == if old(self).state.connection.live() {
                Some(Teardown::DestroyConnection)
            } else {
                None
            },
    {
        if self.state.connection.is_live() {
            self.state.connection = Lifecycle::Destroyed;
            Some(Teardown::DestroyConnection)
        } else {
            None
        }
    }

    /// Asks for the capture component to be disabled, if it is enabled.
    fn disable_camera(&mut self) -> (step: Option<Teardown>)
        ensures
            final(self).pool == old(self).pool,
            final(self).session == old(self).session,
            final(self).capturing == old(self).capturing,
            final(self).state == (PipelineState {
                capture: old(self).state.capture.disabled(),
                ..old(self).state
            }),
            step == if old(self).state.capture is Enabled {
                Some(Teardown::DisableComponent { component: ComponentKind::Capture })
            } else {
                None
            },
    {
        match self.state.capture {
            Lifecycle::Enabled => {
                self.state.capture = Lifecycle::Disabled;
                Some(Teardown::DisableComponent { component: ComponentKind::Capture })
            },
            _ => None,
        }
    }

    /// Asks for the capture component to be destroyed, if it exists.
    fn destroy_camera(&mut self) -> (step: Option<Teardown>)
        ensures
            final(self).pool == old(self).pool,
            final(self).session == old(self).session,
            final(self).capturing == old(self).capturing,
            final(self).state == (PipelineState {
                capture: old(self).state.capture.destroyed(),
                ..old(self).state
            }),
            step == if old(self).state.capture.live() {
                Some(Teardown::DestroyComponent { component: ComponentKind::Capture })
            } else {
                None
            },
    {
        if self.state.capture.is_live() {
            self.state.capture = Lifecycle::Destroyed;
            Some(Teardown::DestroyComponent { component: ComponentKind::Capture })
        } else {
            None
        }
    }

    /// Asks for the encoder to be disabled, if it is enabled.
    fn disable_encoder(&mut self) -> (step: Option<Teardown>)
        ensures
            final(self).pool == old(self).pool,
            final(self).session == old(self).session,
            final(self).capturing == old(self).capturing,
            final(self).state == (PipelineState {
                encoder: old(self).state.encoder.disabled(),
                ..old(self).state
            }),
            step == if old(self).state.encoder is Enabled {
                Some(Teardown::DisableComponent { component: ComponentKind::Encoder })
            } else {
                None
            },
    {
        match self.state.encoder {
            Lifecycle::Enabled => {
                self.state.encoder = Lifecycle::Disabled;
                Some(Teardown::DisableComponent { component: ComponentKind::Encoder })
            },
            _ => None,
        }
    }

    /// Asks for the encoder to be destroyed, if it exists.
    fn destroy_encoder(&mut self) -> (step: Option<Teardown>)
        ensures
            final(self).pool == old(self).pool,
            final(self).session == old(self).session,
            final(self).capturing == old(self).capturing,
            final(self).state == (PipelineState {
                encoder: old(self).state.encoder.destroyed(),
                ..old(self).state
            }),
            step == if old(self).state.encoder.live() {
                Some(Teardown::DestroyComponent { component: ComponentKind::Encoder })
            } else {
                None
            },
    {
        if self.state.encoder.is_live() {
            self.state.encoder = Lifecycle::Destroyed;
            Some(Teardown::DestroyComponent { component: ComponentKind::Encoder })
        } else {
            None
        }
    }

    /// Asks for the control port of `component` to be disabled, if it is
    /// enabled.
    fn disable_control_port(&mut self, component: ComponentKind) -> (step: Option<Teardown>)
        ensures
            final(self).pool == old(self).pool,
            final(self).session == old(self).session,
            final(self).capturing == old(self).capturing,
            final(self).state == match component {
                ComponentKind::Capture => PipelineState {
                    capture_control: false,
                    ..old(self).state
                },
                ComponentKind::Encoder => PipelineState {
                    encoder_control: false,
                    ..old(self).state
                },
            },
            step == if match component {
                ComponentKind::Capture => old(self).state.capture_control,
                ComponentKind::Encoder => old(self).state.encoder_control,
            } {
                Some(Teardown::DisableControlPort { component })
            } else {
                None
            },
    {
        let enabled = match component {
            ComponentKind::Capture => self.state.capture_control,
            ComponentKind::Encoder => self.state.encoder_control,
        };
        match component {
            ComponentKind::Capture => {
                self.state.capture_control = false;
            },
            ComponentKind::Encoder => {
                self.state.encoder_control = false;
            },
        }
        if enabled {
            Some(Teardown::DisableControlPort { component })
        } else {
            None
        }
    }

    /// Asks for the pool to be destroyed, if it exists, and forgets its
    /// buffers.
    fn destroy_pool(&mut self) -> (step: Option<Teardown>)
        ensures
            final(self).pool@ == PoolView::fresh(0, 0),
            final(self).pool.wf(),
            final(self).session == old(self).session,
            final(self).capturing == old(self).capturing,
            final(self).state == (PipelineState { pool_allocated: false, ..old(self).state }),
            step == if old(self).state.pool_allocated {
                Some(Teardown::DestroyPool)
            } else {
                None
            },
    {
        let allocated = self.state.pool_allocated;
        self.state.pool_allocated = false;
        self.pool = BufferPool::new(0, 0);
        if allocated {
            Some(Teardown::DestroyPool)
        } else {
            None
        }
    }

    /// Shuts the pipeline down and returns the release steps to take, in
    /// the order in which they are to be taken.
    ///
    /// Whatever is enabled is disabled and whatever exists is destroyed,
    /// however far construction has come: first the connection, then the
    /// encoder and the capture component are disabled, then their control
    /// ports, and only then the pool and the components are destroyed.
    /// The camera counts every step as taken: a step that fails is the
    /// caller's to log, and a second shutdown returns no step at all.
    pub fn shutdown(&mut self) -> (plan: Vec<Teardown>)
        requires
            old(self).wf(),
        ensures
            final(self).wf(),
            plan@ == old(self)@.state.teardown_plan(),
            final(self)@ == old(self)@.shut_down(),
    {
        let mut plan: Vec<Teardown> = Vec::new();
        assert(plan@ =~= Seq::<Teardown>::empty());
        let step = self.disable_connection();
        note(&mut plan, step);
        let step = self.destroy_connection();
        note(&mut plan, step);
        let step = self.disable_encoder();
        note(&mut plan, step);
        let step = self.disable_camera();
        note(&mut plan, step);
        let step = self.disable_control_port(ComponentKind::Encoder);
        note(&mut plan, step);
        let step = self.disable_control_port(ComponentKind::Capture);
        note(&mut plan, step);
        let step = self.destroy_pool();
        note(&mut plan, step);
        let step = self.destroy_encoder();
        note(&mut plan, step);
        let step = self.destroy_camera();
        note(&mut plan, step);
        self.state.stage = Stage::Closed;
        self.capturing = false;
        proof {
            assert(plan@ =~= old(self)@.state.teardown_plan());
            lemma_second_shutdown_does_nothing(old(self)@);
        }
        plan
    }
}

/// The steps of `step`: one, or none.
pub open spec fn steps_of(step: Option<Teardown>) -> Seq<Teardown> {
    match step {
        Some(s) => seq![s],
        None => Seq::empty(),
    }
}

/// Puts `step`, if there is one, at the end of `plan`.
fn note(plan: &mut Vec<Teardown>, step: Option<Teardown>)
    ensures
        final(plan)@ == old(plan)@ + steps_of(step),
{
    if let Some(s) = step {
        plan.push(s);
    }
    assert(plan@ =~= old(plan)@ + steps_of(step));
}

} // verus!
