//! Construction of the pipeline, one native call at a time.
//!
//! A [`PipelineState`] knows which call it waits on and what the calls so
//! far have given. [`PipelineState::request`] describes the call;
//! [`PipelineState::advance`] takes its outcome. The first failure is kept
//! and ends construction; what was created until then stays on record, so
//! that it can be released.

use crate::error::CameraError;
use crate::format::{
    still_format_spec, valid_dimensions, Port, ENCODING_JPEG, MIN_STILL_BUFFERS,
};
use crate::protocol::{
    capture_config, capture_config_spec, tunnel, tunnel_spec, ComponentKind, Parameter,
    ParameterId, Payload, PortId, Reply, Request, Teardown, DEFAULT_CAMERA_NUM, JPEG_QUALITY,
    JPEG_RESTART_INTERVAL, SENSOR_MODE_AUTO, STATUS_SUCCESS,
};
use vstd::prelude::*;

verus! {

/// How far a native resource has come.
#[derive(Clone, Copy, Debug, PartialEq, Eq, Structural)]
pub enum Lifecycle {
    /// Never created.
    Absent,
    Created,
    /// Created, and its format is committed.
    Configured,
    Enabled,
    Disabled,
    Destroyed,
}

/// The call that construction waits on.
#[derive(Clone, Copy, Debug, PartialEq, Eq, Structural)]
pub enum Stage {
    CreateCapture,
    SetCameraNum,
    SetSensorMode,
    ApplyConfig,
    CommitStill,
    QueryStill,
    SizeStill,
    EnableCapture,
    CreateEncoder,
    QueryEncoderInput,
    QueryEncoderOutput,
    SizeEncoderOutput,
    CommitEncoderOutput,
    SetQuality,
    SetRestartInterval,
    EnableEncoder,
    CreateConnection,
    EnableConnection,
    /// The connection could not be enabled and is being destroyed.
    DropConnection,
    CreatePool,
    /// Construction is complete.
    Ready,
    /// The pipeline is shut down.
    Closed,
}

/// What is known of a pipeline, but for the contents of its pool.
#[derive(Clone, Copy, Debug, PartialEq, Eq)]
pub struct PipelineState {
    /// Requested width of the still.
    pub width: u32,
    /// Requested height of the still.
    pub height: u32,
    pub stage: Stage,
    /// The failure that ended construction, if one did.
    pub error: Option<CameraError>,
    pub capture: Lifecycle,
    pub encoder: Lifecycle,
    pub connection: Lifecycle,
    /// Whether the capture component's control port is enabled.
    pub capture_control: bool,
    /// Whether the encoder's control port is enabled.
    pub encoder_control: bool,
    /// Whether the pool exists.
    pub pool_allocated: bool,
    /// The capture component's still port.
    pub still: Port,
    pub encoder_input: Port,
    pub encoder_output: Port,
}

impl Lifecycle {
    /// The resource exists: it has been created and not destroyed.
    pub open spec fn live(self) -> bool {
        self is Created || self is Configured || self is Enabled || self is Disabled
    }

    /// Whether the resource exists.
    pub fn is_live(&self) -> (live: bool)
        ensures
            live == self.live(),
    {
        match self {
            Lifecycle::Created => true,
            Lifecycle::Configured => true,
            Lifecycle::Enabled => true,
            Lifecycle::Disabled => true,
            _ => false,
        }
    }

    /// The resource after it was disabled, if it was enabled.
    pub open spec fn disabled(self) -> Lifecycle {
        if self is Enabled {
            Lifecycle::Disabled
        } else {
            self
        }
    }

    /// The resource after it was destroyed, if it existed.
    pub open spec fn destroyed(self) -> Lifecycle {
        if self.live() {
            Lifecycle::Destroyed
        } else {
            self
        }
    }
}

impl Stage {
    /// The place of the stage in the order of construction.
    pub open spec fn ordinal(self) -> int {
        match self {
            Stage::CreateCapture => 0,
            Stage::SetCameraNum => 1,
            Stage::SetSensorMode => 2,
            Stage::ApplyConfig => 3,
            Stage::CommitStill => 4,
            Stage::QueryStill => 5,
            Stage::SizeStill => 6,
            Stage::EnableCapture => 7,
            Stage::CreateEncoder => 8,
            Stage::QueryEncoderInput => 9,
            Stage::QueryEncoderOutput => 10,
            Stage::SizeEncoderOutput => 11,
            Stage::CommitEncoderOutput => 12,
            Stage::SetQuality => 13,
            Stage::SetRestartInterval => 14,
            Stage::EnableEncoder => 15,
            Stage::CreateConnection => 16,
            Stage::EnableConnection => 17,
            Stage::DropConnection => 18,
            Stage::CreatePool => 19,
            Stage::Ready => 20,
            Stage::Closed => 21,
        }
    }

    /// The still port's buffer count has been settled.
    pub open spec fn still_sized(self) -> bool {
        Stage::SizeStill.ordinal() <= self.ordinal() <= Stage::Ready.ordinal()
    }

    /// The encoder's output format and buffer figures have been settled.
    pub open spec fn encoder_sized(self) -> bool {
        Stage::SizeEncoderOutput.ordinal() <= self.ordinal() <= Stage::Ready.ordinal()
    }

    /// How far the capture component has come when construction waits here.
    pub open spec fn capture_lifecycle(self) -> Lifecycle {
        if self.ordinal() < Stage::SetCameraNum.ordinal() {
            Lifecycle::Absent
        } else if self.ordinal() < Stage::QueryStill.ordinal() {
            Lifecycle::Created
        } else if self.ordinal() < Stage::CreateEncoder.ordinal() {
            Lifecycle::Configured
        } else {
            Lifecycle::Enabled
        }
    }

    /// How far the encoder has come when construction waits here.
    pub open spec fn encoder_lifecycle(self) -> Lifecycle {
        if self.ordinal() < Stage::QueryEncoderInput.ordinal() {
            Lifecycle::Absent
        } else if self.ordinal() < Stage::SetQuality.ordinal() {
            Lifecycle::Created
        } else if self.ordinal() < Stage::CreateConnection.ordinal() {
            Lifecycle::Configured
        } else {
            Lifecycle::Enabled
        }
    }

    /// How far the connection has come when construction waits here.
    pub open spec fn connection_lifecycle(self) -> Lifecycle {
        if self.ordinal() < Stage::EnableConnection.ordinal() {
            Lifecycle::Absent
        } else if self.ordinal() < Stage::CreatePool.ordinal() {
            Lifecycle::Created
        } else {
            Lifecycle::Enabled
        }
    }
}

/// The place of a release step in the order of a shutdown.
pub open spec fn teardown_rank(step: Teardown) -> int {
    match step {
        Teardown::DisableConnection => 0,
        Teardown::DestroyConnection => 1,
        Teardown::DisableComponent { component: ComponentKind::Encoder } => 2,
        Teardown::DisableComponent { component: ComponentKind::Capture } => 3,
        Teardown::DisableControlPort { component: ComponentKind::Encoder } => 4,
        Teardown::DisableControlPort { component: ComponentKind::Capture } => 5,
        Teardown::DestroyPool => 6,
        Teardown::DestroyComponent { component: ComponentKind::Encoder } => 7,
        Teardown::DestroyComponent { component: ComponentKind::Capture } => 8,
    }
}

impl PipelineState {
    /// The state before the first call: nothing exists, and the still
    /// port's format is the one that will be committed.
    pub open spec fn initial(width: u32, height: u32) -> PipelineState {
        PipelineState {
            width,
            height,
            stage: Stage::CreateCapture,
            error: None,
            capture: Lifecycle::Absent,
            encoder: Lifecycle::Absent,
            connection: Lifecycle::Absent,
            capture_control: false,
            encoder_control: false,
            pool_allocated: false,
            still: Port { format: still_format_spec(width, height), ..crate::format::zero_port() },
            encoder_input: crate::format::zero_port(),
            encoder_output: crate::format::zero_port(),
        }
    }

    /// Construction has neither failed nor ended: a call is waited on.
    pub open spec fn building(self) -> bool {
        self.error is None && !(self.stage is Ready) && !(self.stage is Closed)
    }

    /// Construction is complete and the pipeline can take stills.
    pub open spec fn ready(self) -> bool {
        self.error is None && self.stage is Ready
    }

    /// The state with `error` on record.
    pub open spec fn failed(self, error: CameraError) -> PipelineState {
        PipelineState { error: Some(error), ..self }
    }

    /// The state at another stage.
    pub open spec fn at(self, stage: Stage) -> PipelineState {
        PipelineState { stage, ..self }
    }

    /// The call that the pipeline waits on.
    pub open spec fn request_spec(self) -> Request {
        if self.error is Some {
            Request::Nothing
        } else {
            match self.stage {
                Stage::CreateCapture => Request::CreateComponent {
                    component: ComponentKind::Capture,
                },
                Stage::SetCameraNum => Request::SetParameter {
                    port: PortId::CaptureControl,
                    parameter: Parameter::new_spec(
                        ParameterId::CameraNum,
                        Payload::Int32(DEFAULT_CAMERA_NUM),
                    ),
                },
                Stage::SetSensorMode => Request::SetParameter {
                    port: PortId::CaptureControl,
                    parameter: Parameter::new_spec(
                        ParameterId::SensorMode,
                        Payload::Uint32(SENSOR_MODE_AUTO),
                    ),
                },
                Stage::ApplyConfig => Request::SetParameter {
                    port: PortId::CaptureControl,
                    parameter: Parameter::new_spec(
                        ParameterId::CameraConfig,
                        Payload::Config(capture_config_spec(self.width, self.height)),
                    ),
                },
                Stage::CommitStill => Request::CommitFormat {
                    port: PortId::CaptureStill,
                    format: self.still.format,
                },
                Stage::QueryStill => Request::QueryPort { port: PortId::CaptureStill },
                Stage::SizeStill => Request::ConfigureBuffers {
                    port: PortId::CaptureStill,
                    buffer_num: self.still.buffer_num,
                    buffer_size: self.still.buffer_size,
                },
                Stage::EnableCapture => Request::EnableComponent {
                    component: ComponentKind::Capture,
                },
                Stage::CreateEncoder => Request::CreateComponent {
                    component: ComponentKind::Encoder,
                },
                Stage::QueryEncoderInput => Request::QueryPort { port: PortId::EncoderInput },
                Stage::QueryEncoderOutput => Request::QueryPort { port: PortId::EncoderOutput },
                Stage::SizeEncoderOutput => Request::ConfigureBuffers {
                    port: PortId::EncoderOutput,
                    buffer_num: self.encoder_output.buffer_num,
                    buffer_size: self.encoder_output.buffer_size,
                },
                Stage::CommitEncoderOutput => Request::CommitFormat {
                    port: PortId::EncoderOutput,
                    format: self.encoder_output.format,
                },
                Stage::SetQuality => Request::SetParameter {
                    port: PortId::EncoderOutput,
                    parameter: Parameter::new_spec(
                        ParameterId::JpegQFactor,
                        Payload::Uint32(JPEG_QUALITY),
                    ),
                },
                Stage::SetRestartInterval => Request::SetParameter {
                    port: PortId::EncoderOutput,
                    parameter: Parameter::new_spec(
                        ParameterId::JpegRestartInterval,
                        Payload::Uint32(JPEG_RESTART_INTERVAL),
                    ),
                },
                Stage::EnableEncoder => Request::EnableComponent {
                    component: ComponentKind::Encoder,
                },
                Stage::CreateConnection => Request::CreateConnection { connection: tunnel_spec() },
                Stage::EnableConnection => Request::EnableConnection,
                Stage::DropConnection => Request::DestroyConnection,
                Stage::CreatePool => Request::CreatePool {
                    port: PortId::EncoderOutput,
                    buffer_num: self.encoder_output.buffer_num,
                    buffer_size: self.encoder_output.buffer_size,
                },
                Stage::Ready => Request::Nothing,
                Stage::Closed => Request::Nothing,
            }
        }
    }

    /// The state after `reply` to a call on the capture component.
    ///
    /// The component is created; its sensor, its mode and its configuration
    /// are set; the still format is committed; the port's buffer count is
    /// raised to three where it is lower; the component is enabled. Each
    /// refusal has its own error.
    pub open spec fn after_capture_reply(self, reply: Reply) -> PipelineState {
        match self.stage {
            Stage::CreateCapture => if reply matches Reply::Component { status, .. } && status
                == STATUS_SUCCESS {
                PipelineState { capture: Lifecycle::Created, ..self.at(Stage::SetCameraNum) }
            } else {
                self.failed(CameraError::ComponentCreateFailed)
            },
            Stage::SetCameraNum => if reply.acknowledged() {
                self.at(Stage::SetSensorMode)
            } else {
                self.failed(CameraError::ParameterSetFailed { param: ParameterId::CameraNum })
            },
            Stage::SetSensorMode => if reply.acknowledged() {
                self.at(Stage::ApplyConfig)
            } else {
                self.failed(CameraError::ParameterSetFailed { param: ParameterId::SensorMode })
            },
            Stage::ApplyConfig => if reply.acknowledged() {
                self.at(Stage::CommitStill)
            } else {
                self.failed(CameraError::ConfigurationRejected)
            },
            Stage::CommitStill => if reply.acknowledged() {
                PipelineState { capture: Lifecycle::Configured, ..self.at(Stage::QueryStill) }
            } else {
                self.failed(CameraError::FormatCommitFailed)
            },
            Stage::QueryStill => match reply.reported_port() {
                Some(port) => PipelineState {
                    still: (Port { format: self.still.format, ..port }).with_buffer_num_at_least(
                        MIN_STILL_BUFFERS,
                    ),
                    ..self.at(Stage::SizeStill)
                },
                None => self.failed(CameraError::FormatCommitFailed),
            },
            Stage::SizeStill => self.at(Stage::EnableCapture),
            Stage::EnableCapture => if reply.acknowledged() {
                PipelineState { capture: Lifecycle::Enabled, ..self.at(Stage::CreateEncoder) }
            } else {
                self.failed(CameraError::ComponentEnableFailed)
            },
            _ => self,
        }
    }

    /// The state after `reply` to a call on the encoder.
    ///
    /// The component is created and must have an input and an output port;
    /// its output takes the format of its input under the encoder's own
    /// encoding, and the recommended buffer figures, each raised to its
    /// minimum; the format is committed; quality and restart interval are
    /// set; the component is enabled.
    pub open spec fn after_encoder_reply(self, reply: Reply) -> PipelineState {
        match self.stage {
            Stage::CreateEncoder => match reply {
                Reply::Component { status, inputs, outputs } => if status != STATUS_SUCCESS {
                    self.failed(CameraError::ComponentCreateFailed)
                } else if inputs >= 1 && outputs >= 1 {
                    PipelineState {
                        encoder: Lifecycle::Created,
                        ..self.at(Stage::QueryEncoderInput)
                    }
                } else {
                    PipelineState {
                        encoder: Lifecycle::Created,
                        ..self.failed(CameraError::InvalidComponentTopology)
                    }
                },
                _ => self.failed(CameraError::ComponentCreateFailed),
            },
            Stage::QueryEncoderInput => match reply.reported_port() {
                Some(port) => PipelineState {
                    encoder_input: port,
                    ..self.at(Stage::QueryEncoderOutput)
                },
                None => self.failed(CameraError::InvalidComponentTopology),
            },
            Stage::QueryEncoderOutput => match reply.reported_port() {
                Some(port) => PipelineState {
                    encoder_output: (Port {
                        format: self.encoder_input.format.with_encoding_spec(ENCODING_JPEG),
                        ..port
                    }).with_recommended_buffers(),
                    ..self.at(Stage::SizeEncoderOutput)
                },
                None => self.failed(CameraError::InvalidComponentTopology),
            },
            Stage::SizeEncoderOutput => self.at(Stage::CommitEncoderOutput),
            Stage::CommitEncoderOutput => if reply.acknowledged() {
                PipelineState { encoder: Lifecycle::Configured, ..self.at(Stage::SetQuality) }
            } else {
                self.failed(CameraError::FormatCommitFailed)
            },
            Stage::SetQuality => if reply.acknowledged() {
                self.at(Stage::SetRestartInterval)
            } else {
                self.failed(CameraError::ParameterSetFailed { param: ParameterId::JpegQFactor })
            },
            Stage::SetRestartInterval => if reply.acknowledged() {
                self.at(Stage::EnableEncoder)
            } else {
                self.failed(
                    CameraError::ParameterSetFailed { param: ParameterId::JpegRestartInterval },
                )
            },
            Stage::EnableEncoder => if reply.acknowledged() {
                PipelineState { encoder: Lifecycle::Enabled, ..self.at(Stage::CreateConnection) }
            } else {
                self.failed(CameraError::ComponentEnableFailed)
            },
            _ => self,
        }
    }

    /// The state after `reply` to a call on the connection.
    ///
    /// The connection is created and at once enabled. One that cannot be
    /// enabled is destroyed before the failure is reported, so that no
    /// connection is left that exists and does not work.
    pub open spec fn after_connection_reply(self, reply: Reply) -> PipelineState {
        match self.stage {
            Stage::CreateConnection => if reply.acknowledged() {
                PipelineState {
                    connection: Lifecycle::Created,
                    ..self.at(Stage::EnableConnection)
                }
            } else {
                self.failed(CameraError::ConnectionCreateFailed)
            },
            Stage::EnableConnection => if reply.acknowledged() {
                PipelineState { connection: Lifecycle::Enabled, ..self.at(Stage::CreatePool) }
            } else {
                self.at(Stage::DropConnection)
            },
            Stage::DropConnection => PipelineState {
                connection: Lifecycle::Destroyed,
                ..self.failed(CameraError::ConnectionEnableFailed)
            },
            _ => self,
        }
    }

    /// The state after `reply` to the allocation of the pool. A null result
    /// is a failure, though no status says so.
    pub open spec fn after_pool_reply(self, reply: Reply) -> PipelineState {
        match self.stage {
            Stage::CreatePool => if reply matches Reply::Pool { allocated } && allocated {
                PipelineState { pool_allocated: true, ..self.at(Stage::Ready) }
            } else {
                self.failed(CameraError::PoolAllocationFailed)
            },
            _ => self,
        }
    }

    /// The state after `reply` to the call that the pipeline waited on.
    /// Where no call is waited on, a reply changes nothing.
    pub open spec fn after(self, reply: Reply) -> PipelineState {
        if !self.building() {
            self
        } else if self.stage.ordinal() <= Stage::EnableCapture.ordinal() {
            self.after_capture_reply(reply)
        } else if self.stage.ordinal() <= Stage::EnableEncoder.ordinal() {
            self.after_encoder_reply(reply)
        } else if self.stage.ordinal() <= Stage::DropConnection.ordinal() {
            self.after_connection_reply(reply)
        } else {
            self.after_pool_reply(reply)
        }
    }

    /// Whether a shutdown takes `step`: it disables what is enabled and
    /// destroys what exists, and takes no other step.
    pub open spec fn releases(self, step: Teardown) -> bool {
        match step {
            Teardown::DisableConnection => self.connection is Enabled,
            Teardown::DestroyConnection => self.connection.live(),
            Teardown::DisableComponent { component } => self.lifecycle_of(component) is Enabled,
            Teardown::DisableControlPort { component } => match component {
                ComponentKind::Capture => self.capture_control,
                ComponentKind::Encoder => self.encoder_control,
            },
            Teardown::DestroyPool => self.pool_allocated,
            Teardown::DestroyComponent { component } => self.lifecycle_of(component).live(),
        }
    }

    /// The release steps that a shutdown takes, in their order. The
    /// connection goes before the components it links, the encoder before
    /// the capture component, and nothing is destroyed before everything
    /// is disabled, but for the connection, which is destroyed as soon as
    /// it is disabled.
    pub open spec fn teardown_plan(self) -> Seq<Teardown> {
        self.step_if_due(Teardown::DisableConnection) + self.step_if_due(
            Teardown::DestroyConnection,
        ) + self.step_if_due(Teardown::DisableComponent { component: ComponentKind::Encoder })
            + self.step_if_due(Teardown::DisableComponent { component: ComponentKind::Capture })
            + self.step_if_due(
            Teardown::DisableControlPort { component: ComponentKind::Encoder },
        ) + self.step_if_due(Teardown::DisableControlPort { component: ComponentKind::Capture })
            + self.step_if_due(Teardown::DestroyPool) + self.step_if_due(
            Teardown::DestroyComponent { component: ComponentKind::Encoder },
        ) + self.step_if_due(Teardown::DestroyComponent { component: ComponentKind::Capture })
    }

    /// `[step]` if a shutdown takes `step`, and nothing otherwise.
    pub open spec fn step_if_due(self, step: Teardown) -> Seq<Teardown> {
        if self.releases(step) {
            seq![step]
        } else {
            Seq::empty()
        }
    }

    /// The state after a shutdown: nothing is enabled and nothing exists.
    pub open spec fn shut_down(self) -> PipelineState {
        PipelineState {
            stage: Stage::Closed,
            capture: self.capture.destroyed(),
            encoder: self.encoder.destroyed(),
            connection: self.connection.destroyed(),
            capture_control: false,
            encoder_control: false,
            pool_allocated: false,
            ..self
        }
    }

    /// What holds of every state that construction can reach.
    ///
    /// - The request is for a valid size, and the still port carries the
    ///   format made for it.
    /// - Once the still port is sized, it has at least three buffers.
    /// - Once the encoder's output is sized, it carries the input's format
    ///   under the encoder's encoding, with the recommended buffer figures
    ///   raised to their minimums.
    /// - The pool exists exactly when construction is complete.
    /// - While no call has failed, each resource has come as far as the
    ///   stage tells.
    pub open spec fn wf(self) -> bool {
        &&& valid_dimensions(self.width, self.height)
        &&& self.still.format == still_format_spec(self.width, self.height)
        &&& (self.stage.still_sized() ==> self.still.buffer_num >= MIN_STILL_BUFFERS)
        &&& (self.stage.encoder_sized() ==> {
            &&& self.encoder_output == self.encoder_output.with_recommended_buffers()
            &&& self.encoder_output.format == self.encoder_input.format.with_encoding_spec(
                ENCODING_JPEG,
            )
        })
        &&& (self.pool_allocated <==> self.stage is Ready)
        &&& (self.stage is Ready ==> self.error is None)
        &&& (self.error is None && !(self.stage is Closed) ==> {
            &&& self.capture == self.stage.capture_lifecycle()
            &&& self.encoder == self.stage.encoder_lifecycle()
            &&& self.connection == self.stage.connection_lifecycle()
        })
    }

    /// The reply lets construction go on from here: it is of the kind that
    /// the pending call is answered with, and it tells of success. The
    /// encoder must also have an input and an output port. Writing buffer
    /// figures cannot fail, so any reply to it will do.
    pub open spec fn accepts(self, reply: Reply) -> bool {
        match self.stage {
            Stage::CreateCapture => reply matches Reply::Component { status, .. } && status
                == STATUS_SUCCESS,
            Stage::CreateEncoder => reply matches Reply::Component { status, inputs, outputs }
                && status == STATUS_SUCCESS && inputs >= 1 && outputs >= 1,
            Stage::QueryStill => reply.reported_port() is Some,
            Stage::QueryEncoderInput => reply.reported_port() is Some,
            Stage::QueryEncoderOutput => reply.reported_port() is Some,
            Stage::SizeStill => true,
            Stage::SizeEncoderOutput => true,
            Stage::CreatePool => reply matches Reply::Pool { allocated } && allocated,
            Stage::DropConnection => false,
            Stage::Ready => false,
            Stage::Closed => false,
            _ => reply.acknowledged(),
        }
    }

    /// Number of calls that are still to succeed before construction is
    /// complete.
    pub open spec fn calls_left(self) -> nat {
        if self.stage is DropConnection || self.stage is Closed || self.error is Some {
            0
        } else if self.stage.ordinal() <= Stage::EnableConnection.ordinal() {
            (19 - self.stage.ordinal()) as nat
        } else {
            (20 - self.stage.ordinal()) as nat
        }
    }

    /// Each of `replies` in turn lets construction go on.
    pub open spec fn accepts_all(self, replies: Seq<Reply>) -> bool
        decreases replies.len(),
    {
        replies.len() > 0 ==> self.accepts(replies[0]) && self.after(replies[0]).accepts_all(
            replies.drop_first(),
        )
    }

    /// How far `component` has come.
    pub open spec fn lifecycle_of(self, component: ComponentKind) -> Lifecycle {
        match component {
            ComponentKind::Capture => self.capture,
            ComponentKind::Encoder => self.encoder,
        }
    }

    /// The state after each of `replies` in turn.
    pub open spec fn after_all(self, replies: Seq<Reply>) -> PipelineState
        decreases replies.len(),
    {
        if replies.len() == 0 {
            self
        } else {
            self.after(replies[0]).after_all(replies.drop_first())
        }
    }
}

/// The state before the first call is well-formed.
pub proof fn lemma_initial_wf(width: u32, height: u32)
    requires
        valid_dimensions(width, height),
    ensures
        PipelineState::initial(width, height).wf(),
{
}

/// No reply takes a well-formed state to one that is not.
pub proof fn lemma_after_keeps_wf(state: PipelineState, reply: Reply)
    requires
        state.wf(),
    ensures
        state.after(reply).wf(),
        state.after(reply).width == state.width,
        state.after(reply).height == state.height,
{
}

/// Whatever the native layer replies, and however often, construction stays
/// within the well-formed states.
pub proof fn lemma_construction_is_well_formed(width: u32, height: u32, replies: Seq<Reply>)
    requires
        valid_dimensions(width, height),
    ensures
        PipelineState::initial(width, height).after_all(replies).wf(),
        PipelineState::initial(width, height).after_all(replies).width == width,
        PipelineState::initial(width, height).after_all(replies).height == height,
{
    lemma_initial_wf(width, height);
    lemma_after_all_keeps_wf(PipelineState::initial(width, height), replies);
}

/// Replies in any number keep a well-formed state well-formed.
pub proof fn lemma_after_all_keeps_wf(state: PipelineState, replies: Seq<Reply>)
    requires
        state.wf(),
    ensures
        state.after_all(replies).wf(),
        state.after_all(replies).width == state.width,
        state.after_all(replies).height == state.height,
    decreases replies.len(),
{
    if replies.len() > 0 {
        lemma_after_keeps_wf(state, replies[0]);
        lemma_after_all_keeps_wf(state.after(replies[0]), replies.drop_first());
    }
}

/// After construction the encoder's output port has at least its minimum
/// count and size of buffers: for every valid size requested and whatever
/// the native layer reported on the way.
pub proof fn lemma_encoder_output_meets_minimums(width: u32, height: u32, replies: Seq<Reply>)
    requires
        valid_dimensions(width, height),
    ensures
        ({
            let built = PipelineState::initial(width, height).after_all(replies);
            built.ready() || built.stage.encoder_sized() ==> {
                &&& built.encoder_output.buffer_num >= built.encoder_output.buffer_num_min
                &&& built.encoder_output.buffer_size >= built.encoder_output.buffer_size_min
            }
        }),
{
    lemma_construction_is_well_formed(width, height, replies);
}

/// The still port carries the requested size rounded up, the width to a
/// multiple of 32 and the height to a multiple of 16, and its crop is the
/// request itself: at every moment of construction, and after it.
pub proof fn lemma_still_port_is_aligned(width: u32, height: u32, replies: Seq<Reply>)
    requires
        valid_dimensions(width, height),
    ensures
        ({
            let format = PipelineState::initial(width, height).after_all(replies).still.format;
            &&& format.width == crate::format::round_up(width as int, 32)
            &&& format.height == crate::format::round_up(height as int, 16)
            &&& format.crop.x == 0
            &&& format.crop.y == 0
            &&& format.crop.width == width
            &&& format.crop.height == height
            &&& format.encoding == crate::format::ENCODING_OPAQUE
        }),
{
    lemma_construction_is_well_formed(width, height, replies);
    crate::format::lemma_still_format_fits(width, height);
}

/// Whatever the pipeline asks for is fit to be handed over: a parameter has
/// the payload it takes and a header of the record's true size, and the
/// connection leads from the capture component's output into the encoder's
/// input.
pub proof fn lemma_requests_are_well_formed(state: PipelineState)
    ensures
        state.request_spec() matches Request::SetParameter { parameter, .. }
            ==> parameter.well_formed(),
        state.request_spec() matches Request::CreateConnection { connection }
            ==> connection.well_formed(),
{
}

/// Whatever the pipeline asks for fits what exists.
///
/// - A component is created only if it was never created, and enabled only
///   once, after its format is committed.
/// - A format is committed, and buffer figures are written, only on a port
///   of a component that exists and does not run yet.
/// - The connection is created only between components whose formats are
///   committed, and enabled or destroyed only while it exists and is not
///   enabled.
/// - The pool is asked for once, with the buffer count and size that the
///   encoder's output port was committed with.
pub proof fn lemma_requests_fit_the_lifecycle(state: PipelineState)
    requires
        state.wf(),
    ensures
        match state.request_spec() {
            Request::CreateComponent { component } => state.lifecycle_of(component) is Absent,
            Request::EnableComponent { component } => state.lifecycle_of(component)
                is Configured,
            Request::CommitFormat { port, .. } => state.lifecycle_of(port.component())
                is Created,
            Request::ConfigureBuffers { port, .. } => {
                ||| state.lifecycle_of(port.component()) is Created
                ||| state.lifecycle_of(port.component()) is Configured
            },
            Request::QueryPort { port } => state.lifecycle_of(port.component()).live(),
            Request::SetParameter { port, .. } => {
                ||| state.lifecycle_of(port.component()) is Created
                ||| state.lifecycle_of(port.component()) is Configured
            },
            Request::CreateConnection { .. } => {
                &&& state.connection is Absent
                &&& state.capture is Enabled
                &&& state.encoder is Enabled
            },
            Request::EnableConnection => state.connection is Created,
            Request::DestroyConnection => state.connection is Created,
            Request::CreatePool { buffer_num, buffer_size, .. } => {
                &&& !state.pool_allocated
                &&& state.connection is Enabled
                &&& buffer_num == state.encoder_output.buffer_num
                &&& buffer_size == state.encoder_output.buffer_size
                &&& state.encoder_output.meets_minimums()
            },
            Request::Nothing => !state.building(),
        },
{
}

/// Construction goes on exactly when the pending call is answered as it
/// should be, and then comes one call nearer to its end; any other answer
/// ends it with an error, or, for a connection that cannot be enabled, with
/// the connection's destruction.
pub proof fn lemma_accepted_replies_go_on(state: PipelineState, reply: Reply)
    requires
        state.building(),
    ensures
        state.accepts(reply) <==> state.after(reply).error is None && !(state.after(reply).stage
            is DropConnection),
        state.accepts(reply) ==> state.after(reply).calls_left() + 1 == state.calls_left(),
        state.after(reply).building() || state.after(reply).ready() || state.after(reply).error
            is Some,
{
}

/// Construction succeeds whenever every call succeeds: nineteen replies,
/// each as it should be, take a new pipeline to completion, and fewer take
/// it as far as they go.
pub proof fn lemma_accepted_replies_build_the_pipeline(state: PipelineState, replies: Seq<Reply>)
    requires
        state.building(),
        state.accepts_all(replies),
        replies.len() <= state.calls_left(),
    ensures
        state.after_all(replies).error is None,
        state.after_all(replies).calls_left() + replies.len() == state.calls_left(),
        0 < replies.len() == state.calls_left() ==> state.after_all(replies).ready(),
        PipelineState::initial(state.width, state.height).calls_left() == 19,
    decreases replies.len(),
{
    if replies.len() > 0 {
        lemma_accepted_replies_go_on(state, replies[0]);
        let next = state.after(replies[0]);
        let rest = replies.drop_first();
        if rest.len() > 0 {
            lemma_accepted_replies_build_the_pipeline(next, rest);
        } else {
            assert(next.after_all(rest) == next);
        }
    }
}

/// A pipeline whose construction is complete has both components and the
/// connection enabled, its pool allocated, and no error on record.
pub proof fn lemma_ready_pipeline_runs(state: PipelineState)
    requires
        state.wf(),
        state.ready(),
    ensures
        state.capture is Enabled,
        state.encoder is Enabled,
        state.connection is Enabled,
        state.pool_allocated,
        state.encoder_output.meets_minimums(),
        state.still.buffer_num >= MIN_STILL_BUFFERS,
        state.request_spec() == Request::Nothing,
{
}

/// A connection that cannot be enabled is destroyed before the failure is
/// reported: the refusal brings no error yet but the request to destroy
/// the connection, and only the answer to that request ends construction,
/// with the connection gone whatever the answer is. A later shutdown does
/// not touch the connection again.
pub proof fn lemma_failed_connection_is_destroyed(state: PipelineState, refusal: Reply, answer: Reply)
    requires
        state.wf(),
        state.building(),
        state.stage is EnableConnection,
        !refusal.acknowledged(),
    ensures
        state.after(refusal).error is None,
        state.after(refusal).request_spec() == Request::DestroyConnection,
        state.after(refusal).after(answer).error == Some(CameraError::ConnectionEnableFailed),
        state.after(refusal).after(answer).connection is Destroyed,
        !state.after(refusal).after(answer).teardown_plan().contains(Teardown::DestroyConnection),
        !state.after(refusal).after(answer).teardown_plan().contains(Teardown::DisableConnection),
{
    let end = state.after(refusal).after(answer);
    lemma_plan_holds_what_is_due(end, Teardown::DestroyConnection);
    lemma_plan_holds_what_is_due(end, Teardown::DisableConnection);
}

/// A pool that is not allocated ends construction: the pipeline is not
/// ready, asks for nothing more, has no pool to release, and no later
/// reply makes it ready.
pub proof fn lemma_no_pool_no_pipeline(state: PipelineState, reply: Reply, later: Seq<Reply>)
    requires
        state.wf(),
        state.building(),
        state.stage is CreatePool,
        !(reply matches Reply::Pool { allocated } && allocated),
    ensures
        state.after(reply).error == Some(CameraError::PoolAllocationFailed),
        !state.after(reply).ready(),
        !state.after(reply).pool_allocated,
        state.after(reply).request_spec() == Request::Nothing,
        !state.after(reply).after_all(later).ready(),
{
    lemma_failure_is_final(state.after(reply), later);
}

/// Once construction has failed, no reply changes anything.
pub proof fn lemma_failure_is_final(state: PipelineState, replies: Seq<Reply>)
    requires
        state.error is Some,
    ensures
        state.after_all(replies) == state,
    decreases replies.len(),
{
    if replies.len() > 0 {
        lemma_failure_is_final(state, replies.drop_first());
    }
}

/// A step is among `steps` and one more exactly if it is among `steps` or
/// is the one more.
proof fn lemma_among(steps: Seq<Teardown>, more: Seq<Teardown>, last: Teardown, step: Teardown)
    requires
        more =~= seq![last] || more =~= Seq::<Teardown>::empty(),
    ensures
        (steps + more).contains(step) <==> steps.contains(step) || (more.len() > 0 && step
            == last),
{
    let longer = steps + more;
    if steps.contains(step) {
        let k = choose|k: int| 0 <= k < steps.len() && steps[k] == step;
        assert(longer[k] == step);
    }
    if more.len() > 0 && step == last {
        assert(longer[steps.len() as int] == step);
    }
    if longer.contains(step) {
        let k = choose|k: int| 0 <= k < longer.len() && longer[k] == step;
        if k < steps.len() {
            assert(steps[k] == step);
        }
    }
}

/// A shutdown takes exactly the steps that are due: a step is in the plan
/// if and only if what it disables is enabled, or what it destroys exists.
pub proof fn lemma_plan_holds_what_is_due(state: PipelineState, step: Teardown)
    ensures
        state.teardown_plan().contains(step) <==> state.releases(step),
{
    let encoder = ComponentKind::Encoder;
    let capture = ComponentKind::Capture;
    let t0 = Teardown::DisableConnection;
    let t1 = Teardown::DestroyConnection;
    let t2 = Teardown::DisableComponent { component: encoder };
    let t3 = Teardown::DisableComponent { component: capture };
    let t4 = Teardown::DisableControlPort { component: encoder };
    let t5 = Teardown::DisableControlPort { component: capture };
    let t6 = Teardown::DestroyPool;
    let t7 = Teardown::DestroyComponent { component: encoder };
    let t8 = Teardown::DestroyComponent { component: capture };
    let s0 = state.step_if_due(t0);
    let s1 = s0 + state.step_if_due(t1);
    let s2 = s1 + state.step_if_due(t2);
    let s3 = s2 + state.step_if_due(t3);
    let s4 = s3 + state.step_if_due(t4);
    let s5 = s4 + state.step_if_due(t5);
    let s6 = s5 + state.step_if_due(t6);
    let s7 = s6 + state.step_if_due(t7);
    let s8 = s7 + state.step_if_due(t8);
    assert(Seq::<Teardown>::empty() + s0 =~= s0);
    lemma_among(Seq::empty(), s0, t0, step);
    lemma_among(s0, state.step_if_due(t1), t1, step);
    lemma_among(s1, state.step_if_due(t2), t2, step);
    lemma_among(s2, state.step_if_due(t3), t3, step);
    lemma_among(s3, state.step_if_due(t4), t4, step);
    lemma_among(s4, state.step_if_due(t5), t5, step);
    lemma_among(s5, state.step_if_due(t6), t6, step);
    lemma_among(s6, state.step_if_due(t7), t7, step);
    lemma_among(s7, state.step_if_due(t8), t8, step);
    assert(state.teardown_plan() == s8);
}

/// The steps of `steps` come in the order of a shutdown, and all of them
/// come before the place `bound`.
pub open spec fn in_order_below(steps: Seq<Teardown>, bound: int) -> bool {
    &&& forall|k: int| 0 <= k < steps.len() ==> teardown_rank(#[trigger] steps[k]) < bound
    &&& forall|a: int, b: int|
        0 <= a < b < steps.len() ==> teardown_rank(#[trigger] steps[a]) < teardown_rank(
            #[trigger] steps[b],
        )
}

/// Steps in order stay in order when a later step is put behind them.
proof fn lemma_in_order_with(steps: Seq<Teardown>, more: Seq<Teardown>, last: Teardown)
    requires
        in_order_below(steps, teardown_rank(last)),
        more =~= seq![last] || more =~= Seq::<Teardown>::empty(),
    ensures
        in_order_below(steps + more, teardown_rank(last) + 1),
{
    let longer = steps + more;
    assert forall|k: int| 0 <= k < longer.len() implies teardown_rank(#[trigger] longer[k])
        < teardown_rank(last) + 1 by {
        if k < steps.len() {
            assert(longer[k] == steps[k]);
        }
    }
    assert forall|a: int, b: int| 0 <= a < b < longer.len() implies teardown_rank(
        #[trigger] longer[a],
    ) < teardown_rank(#[trigger] longer[b]) by {
        assert(longer[a] == steps[a]);
        if b < steps.len() {
            assert(longer[b] == steps[b]);
        }
    }
}

/// A shutdown takes its steps in one fixed order and takes none twice.
pub proof fn lemma_teardown_in_order(state: PipelineState, i: int, j: int)
    requires
        0 <= i < j < state.teardown_plan().len(),
    ensures
        teardown_rank(state.teardown_plan()[i]) < teardown_rank(state.teardown_plan()[j]),
{
    let encoder = ComponentKind::Encoder;
    let capture = ComponentKind::Capture;
    let t0 = Teardown::DisableConnection;
    let t1 = Teardown::DestroyConnection;
    let t2 = Teardown::DisableComponent { component: encoder };
    let t3 = Teardown::DisableComponent { component: capture };
    let t4 = Teardown::DisableControlPort { component: encoder };
    let t5 = Teardown::DisableControlPort { component: capture };
    let t6 = Teardown::DestroyPool;
    let t7 = Teardown::DestroyComponent { component: encoder };
    let t8 = Teardown::DestroyComponent { component: capture };
    let s0 = state.step_if_due(t0);
    let s1 = s0 + state.step_if_due(t1);
    let s2 = s1 + state.step_if_due(t2);
    let s3 = s2 + state.step_if_due(t3);
    let s4 = s3 + state.step_if_due(t4);
    let s5 = s4 + state.step_if_due(t5);
    let s6 = s5 + state.step_if_due(t6);
    let s7 = s6 + state.step_if_due(t7);
    let s8 = s7 + state.step_if_due(t8);
    assert(in_order_below(s0, 1));
    lemma_in_order_with(s0, state.step_if_due(t1), t1);
    lemma_in_order_with(s1, state.step_if_due(t2), t2);
    lemma_in_order_with(s2, state.step_if_due(t3), t3);
    lemma_in_order_with(s3, state.step_if_due(t4), t4);
    lemma_in_order_with(s4, state.step_if_due(t5), t5);
    lemma_in_order_with(s5, state.step_if_due(t6), t6);
    lemma_in_order_with(s6, state.step_if_due(t7), t7);
    lemma_in_order_with(s7, state.step_if_due(t8), t8);
    assert(state.teardown_plan() == s8);
}

/// A second shutdown has nothing to do: after the first, no step is left to
/// take, the state stays as the first left it, and no error has come up.
pub proof fn lemma_shutdown_is_idempotent(state: PipelineState)
    ensures
        state.shut_down().teardown_plan() =~= Seq::<Teardown>::empty(),
        state.shut_down().shut_down() == state.shut_down(),
        state.shut_down().error == state.error,
        state.shut_down().request_spec() == Request::Nothing,
{
}

/// The place in the plan at which a shutdown takes `step`.
pub open spec fn place_of(plan: Seq<Teardown>, step: Teardown) -> int {
    choose|k: int| 0 <= k < plan.len() && plan[k] == step
}

/// A connection that is enabled is disabled first of all, and a component
/// that is enabled is disabled before it is destroyed, and not before the
/// connection is.
pub proof fn lemma_teardown_disables_first(state: PipelineState, component: ComponentKind)
    ensures
        state.connection is Enabled ==> state.teardown_plan().len() > 0
            && state.teardown_plan()[0] == Teardown::DisableConnection,
        state.lifecycle_of(component) is Enabled ==> {
            let plan = state.teardown_plan();
            let disable = Teardown::DisableComponent { component };
            let destroy = Teardown::DestroyComponent { component };
            &&& plan.contains(disable)
            &&& plan.contains(destroy)
            &&& place_of(plan, disable) < place_of(plan, destroy)
            &&& state.connection is Enabled ==> 0 < place_of(plan, disable)
        },
{
    let plan = state.teardown_plan();
    let disable = Teardown::DisableComponent { component };
    let destroy = Teardown::DestroyComponent { component };
    lemma_plan_holds_what_is_due(state, Teardown::DisableConnection);
    lemma_plan_holds_what_is_due(state, disable);
    lemma_plan_holds_what_is_due(state, destroy);
    if state.connection is Enabled {
        let k = place_of(plan, Teardown::DisableConnection);
        if k > 0 {
            lemma_teardown_in_order(state, 0, k);
        }
    }
    if state.lifecycle_of(component) is Enabled {
        let i = place_of(plan, disable);
        let j = place_of(plan, destroy);
        if j < i {
            lemma_teardown_in_order(state, j, i);
        }
    }
}

impl PipelineState {
    /// The state before the first call, for a size that can be requested.
    pub fn new(width: u32, height: u32) -> (state: Option<PipelineState>)
        ensures
            state == if valid_dimensions(width, height) {
                Some(PipelineState::initial(width, height))
            } else {
                None
            },
            state matches Some(s) ==> s.wf(),
    {
        match crate::format::still_format(width, height) {
            Some(format) => {
                let mut still = Port::empty();
                still.format = format;
                Some(
                    PipelineState {
                        width,
                        height,
                        stage: Stage::CreateCapture,
                        error: None,
                        capture: Lifecycle::Absent,
                        encoder: Lifecycle::Absent,
                        connection: Lifecycle::Absent,
                        capture_control: false,
                        encoder_control: false,
                        pool_allocated: false,
                        still,
                        encoder_input: Port::empty(),
                        encoder_output: Port::empty(),
                    },
                )
            },
            None => None,
        }
    }

    /// Whether a call is waited on.
    pub fn is_building(&self) -> (building: bool)
        ensures
            building == self.building(),
    {
        self.error.is_none() && !matches!(self.stage, Stage::Ready | Stage::Closed)
    }

    /// Whether construction is complete.
    pub fn is_ready(&self) -> (ready: bool)
        ensures
            ready == self.ready(),
    {
        self.error.is_none() && matches!(self.stage, Stage::Ready)
    }

    /// Describes the call that the pipeline waits on.
    pub fn request(&self) -> (request: Request)
        ensures
            request == self.request_spec(),
            !self.building() ==> request == Request::Nothing,
    {
        if self.error.is_some() {
            return Request::Nothing;
        }
        match self.stage {
            Stage::CreateCapture => Request::CreateComponent { component: ComponentKind::Capture },
            Stage::SetCameraNum => Request::SetParameter {
                port: PortId::CaptureControl,
                parameter: Parameter::new(
                    ParameterId::CameraNum,
                    Payload::Int32(DEFAULT_CAMERA_NUM),
                ),
            },
            Stage::SetSensorMode => Request::SetParameter {
                port: PortId::CaptureControl,
                parameter: Parameter::new(
                    ParameterId::SensorMode,
                    Payload::Uint32(SENSOR_MODE_AUTO),
                ),
            },
            Stage::ApplyConfig => Request::SetParameter {
                port: PortId::CaptureControl,
                parameter: Parameter::new(
                    ParameterId::CameraConfig,
                    Payload::Config(capture_config(self.width, self.height)),
                ),
            },
            Stage::CommitStill => Request::CommitFormat {
                port: PortId::CaptureStill,
                format: self.still.format,
            },
            Stage::QueryStill => Request::QueryPort { port: PortId::CaptureStill },
            Stage::SizeStill => Request::ConfigureBuffers {
                port: PortId::CaptureStill,
                buffer_num: self.still.buffer_num,
                buffer_size: self.still.buffer_size,
            },
            Stage::EnableCapture => Request::EnableComponent { component: ComponentKind::Capture },
            Stage::CreateEncoder => Request::CreateComponent { component: ComponentKind::Encoder },
            Stage::QueryEncoderInput => Request::QueryPort { port: PortId::EncoderInput },
            Stage::QueryEncoderOutput => Request::QueryPort { port: PortId::EncoderOutput },
            Stage::SizeEncoderOutput => Request::ConfigureBuffers {
                port: PortId::EncoderOutput,
                buffer_num: self.encoder_output.buffer_num,
                buffer_size: self.encoder_output.buffer_size,
            },
            Stage::CommitEncoderOutput => Request::CommitFormat {
                port: PortId::EncoderOutput,
                format: self.encoder_output.format,
            },
            Stage::SetQuality => Request::SetParameter {
                port: PortId::EncoderOutput,
                parameter: Parameter::new(ParameterId::JpegQFactor, Payload::Uint32(JPEG_QUALITY)),
            },
            Stage::SetRestartInterval => Request::SetParameter {
                port: PortId::EncoderOutput,
                parameter: Parameter::new(
                    ParameterId::JpegRestartInterval,
                    Payload::Uint32(JPEG_RESTART_INTERVAL),
                ),
            },
            Stage::EnableEncoder => Request::EnableComponent { component: ComponentKind::Encoder },
            Stage::CreateConnection => Request::CreateConnection { connection: tunnel() },
            Stage::EnableConnection => Request::EnableConnection,
            Stage::DropConnection => Request::DestroyConnection,
            Stage::CreatePool => Request::CreatePool {
                port: PortId::EncoderOutput,
                buffer_num: self.encoder_output.buffer_num,
                buffer_size: self.encoder_output.buffer_size,
            },
            Stage::Ready => Request::Nothing,
            Stage::Closed => Request::Nothing,
        }
    }

    /// Records `error`: construction ends here.
    fn fail(&mut self, error: CameraError)
        ensures
            *final(self) == old(self).failed(error),
    {
        self.error = Some(error);
    }

    /// Takes the outcome of a call on the capture component.
    fn build_capture(&mut self, reply: Reply)
        ensures
            *final(self) == old(self).after_capture_reply(reply),
    {
        match self.stage {
            Stage::CreateCapture => match reply {
                Reply::Component { status, .. } if status == STATUS_SUCCESS => {
                    self.capture = Lifecycle::Created;
                    self.stage = Stage::SetCameraNum;
                },
                _ => self.fail(CameraError::ComponentCreateFailed),
            },
            Stage::SetCameraNum => if reply.is_acknowledged() {
                self.stage = Stage::SetSensorMode;
            } else {
                self.fail(CameraError::ParameterSetFailed { param: ParameterId::CameraNum });
            },
            Stage::SetSensorMode => if reply.is_acknowledged() {
                self.stage = Stage::ApplyConfig;
            } else {
                self.fail(CameraError::ParameterSetFailed { param: ParameterId::SensorMode });
            },
            Stage::ApplyConfig => if reply.is_acknowledged() {
                self.stage = Stage::CommitStill;
            } else {
                self.fail(CameraError::ConfigurationRejected);
            },
            Stage::CommitStill => if reply.is_acknowledged() {
                self.capture = Lifecycle::Configured;
                self.stage = Stage::QueryStill;
            } else {
                self.fail(CameraError::FormatCommitFailed);
            },
            Stage::QueryStill => match reply.port() {
                Some(port) => {
                    let mut still = port;
                    still.format = self.still.format;
                    still.ensure_buffer_num(MIN_STILL_BUFFERS);
                    self.still = still;
                    self.stage = Stage::SizeStill;
                },
                None => self.fail(CameraError::FormatCommitFailed),
            },
            Stage::SizeStill => {
                self.stage = Stage::EnableCapture;
            },
            Stage::EnableCapture => if reply.is_acknowledged() {
                self.capture = Lifecycle::Enabled;
                self.stage = Stage::CreateEncoder;
            } else {
                self.fail(CameraError::ComponentEnableFailed);
            },
            _ => {},
        }
    }

    /// Takes the outcome of a call on the encoder.
    fn build_encoder(&mut self, reply: Reply)
        ensures
            *final(self) == old(self).after_encoder_reply(reply),
    {
        match self.stage {
            Stage::CreateEncoder => match reply {
                Reply::Component { status, inputs, outputs } => {
                    if status != STATUS_SUCCESS {
                        self.fail(CameraError::ComponentCreateFailed);
                    } else if inputs >= 1 && outputs >= 1 {
                        self.encoder = Lifecycle::Created;
                        self.stage = Stage::QueryEncoderInput;
                    } else {
                        self.encoder = Lifecycle::Created;
                        self.fail(CameraError::InvalidComponentTopology);
                    }
                },
                _ => self.fail(CameraError::ComponentCreateFailed),
            },
            Stage::QueryEncoderInput => match reply.port() {
                Some(port) => {
                    self.encoder_input = port;
                    self.stage = Stage::QueryEncoderOutput;
                },
                None => self.fail(CameraError::InvalidComponentTopology),
            },
            Stage::QueryEncoderOutput => match reply.port() {
                Some(port) => {
                    let mut output = port;
                    output.format = self.encoder_input.format.with_encoding(ENCODING_JPEG);
                    output.use_recommended_buffers();
                    self.encoder_output = output;
                    self.stage = Stage::SizeEncoderOutput;
                },
                None => self.fail(CameraError::InvalidComponentTopology),
            },
            Stage::SizeEncoderOutput => {
                self.stage = Stage::CommitEncoderOutput;
            },
            Stage::CommitEncoderOutput => if reply.is_acknowledged() {
                self.encoder = Lifecycle::Configured;
                self.stage = Stage::SetQuality;
            } else {
                self.fail(CameraError::FormatCommitFailed);
            },
            Stage::SetQuality => if reply.is_acknowledged() {
                self.stage = Stage::SetRestartInterval;
            } else {
                self.fail(CameraError::ParameterSetFailed { param: ParameterId::JpegQFactor });
            },
            Stage::SetRestartInterval => if reply.is_acknowledged() {
                self.stage = Stage::EnableEncoder;
            } else {
                self.fail(
                    CameraError::ParameterSetFailed { param: ParameterId::JpegRestartInterval },
                );
            },
            Stage::EnableEncoder => if reply.is_acknowledged() {
                self.encoder = Lifecycle::Enabled;
                self.stage = Stage::CreateConnection;
            } else {
                self.fail(CameraError::ComponentEnableFailed);
            },
            _ => {},
        }
    }

    /// Takes the outcome of a call on the connection.
    fn connect(&mut self, reply: Reply)
        ensures
            *final(self) == old(self).after_connection_reply(reply),
    {
        match self.stage {
            Stage::CreateConnection => if reply.is_acknowledged() {
                self.connection = Lifecycle::Created;
                self.stage = Stage::EnableConnection;
            } else {
                self.fail(CameraError::ConnectionCreateFailed);
            },
            Stage::EnableConnection => if reply.is_acknowledged() {
                self.connection = Lifecycle::Enabled;
                self.stage = Stage::CreatePool;
            } else {
                self.stage = Stage::DropConnection;
            },
            Stage::DropConnection => {
                self.connection = Lifecycle::Destroyed;
                self.fail(CameraError::ConnectionEnableFailed);
            },
            _ => {},
        }
    }

    /// Takes the outcome of the pool's allocation.
    fn allocate_pool(&mut self, reply: Reply)
        ensures
            *final(self) == old(self).after_pool_reply(reply),
    {
        match self.stage {
            Stage::CreatePool => match reply {
                Reply::Pool { allocated } if allocated => {
                    self.pool_allocated = true;
                    self.stage = Stage::Ready;
                },
                _ => self.fail(CameraError::PoolAllocationFailed),
            },
            _ => {},
        }
    }

    /// Takes the outcome of the call that the pipeline waited on.
    pub fn advance(&mut self, reply: Reply)
        ensures
            *final(self) == old(self).after(reply),
            old(self).wf() ==> final(self).wf(),
    {
        proof {
            if self.wf() {
                lemma_after_keeps_wf(*self, reply);
            }
        }
        if !self.is_building() {
            return ;
        }
        match self.stage {
            Stage::CreateCapture
            | Stage::SetCameraNum
            | Stage::SetSensorMode
            | Stage::ApplyConfig
            | Stage::CommitStill
            | Stage::QueryStill
            | Stage::SizeStill
            | Stage::EnableCapture => self.build_capture(reply),
            Stage::CreateEncoder
            | Stage::QueryEncoderInput
            | Stage::QueryEncoderOutput
            | Stage::SizeEncoderOutput
            | Stage::CommitEncoderOutput
            | Stage::SetQuality
            | Stage::SetRestartInterval
            | Stage::EnableEncoder => self.build_encoder(reply),
            Stage::CreateConnection | Stage::EnableConnection | Stage::DropConnection => {
                self.connect(reply)
            },
            _ => self.allocate_pool(reply),
        }
    }
}

} // verus!
