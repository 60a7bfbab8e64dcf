//! The vocabulary between the library and the native layer.
//!
//! A [`Request`] describes one native call; a [`Reply`] carries what the call
//! gave back. A [`Teardown`] describes one release step; it needs no reply.

use crate::format::{Port, VideoFormat};
use vstd::prelude::*;

verus! {

/// The status every native call reports on success.
pub const STATUS_SUCCESS: u32 = 0;

/// Bytes taken by the `{id, size}` header of a parameter record.
pub const PARAMETER_HEADER_SIZE: u32 = 8;

/// Which sensor the capture component reads.
pub const DEFAULT_CAMERA_NUM: i32 = 0;

/// The sensor mode that lets the firmware choose.
pub const SENSOR_MODE_AUTO: u32 = 0;

/// Quality factor handed to the encoder, on a scale of 0 to 100.
pub const JPEG_QUALITY: u32 = 90;

/// Restart interval handed to the encoder; 0 switches restart markers off.
pub const JPEG_RESTART_INTERVAL: u32 = 0;

/// Preview frames the capture component keeps.
pub const PREVIEW_FRAMES: u32 = 1;

/// The two processing stages.
#[derive(Clone, Copy, Debug, PartialEq, Eq, Structural)]
pub enum ComponentKind {
    Capture,
    Encoder,
}

/// The ports the pipeline touches.
#[derive(Clone, Copy, Debug, PartialEq, Eq, Structural)]
pub enum PortId {
    CaptureControl,
    CaptureStill,
    EncoderControl,
    EncoderInput,
    EncoderOutput,
}

/// The parameters the pipeline sets.
#[derive(Clone, Copy, Debug, PartialEq, Eq, Structural)]
pub enum ParameterId {
    CameraNum,
    SensorMode,
    CameraConfig,
    JpegQFactor,
    JpegRestartInterval,
    Capture,
}

/// How the capture component stamps its frames.
#[derive(Clone, Copy, Debug, PartialEq, Eq, Structural)]
pub enum TimestampMode {
    Zero,
    RawStc,
    ResetStc,
}

/// The capture component's configuration record.
#[derive(Clone, Copy, Debug, PartialEq, Eq, Structural)]
pub struct CaptureConfig {
    pub max_stills_w: u32,
    pub max_stills_h: u32,
    pub stills_yuv422: bool,
    pub one_shot_stills: bool,
    pub max_preview_video_w: u32,
    pub max_preview_video_h: u32,
    pub num_preview_video_frames: u32,
    pub stills_capture_circular_buffer_height: u32,
    pub fast_preview_resume: bool,
    pub use_stc_timestamp: TimestampMode,
}

/// The typed value of a parameter.
#[derive(Clone, Copy, Debug, PartialEq, Eq, Structural)]
pub enum Payload {
    Int32(i32),
    Uint32(u32),
    Boolean(bool),
    Config(CaptureConfig),
}

/// The header that precedes every parameter's payload. `size` counts the
/// whole record, header included.
#[derive(Clone, Copy, Debug, PartialEq, Eq, Structural)]
pub struct ParameterHeader {
    pub id: ParameterId,
    pub size: u32,
}

/// One parameter as it is handed to a port.
#[derive(Clone, Copy, Debug, PartialEq, Eq, Structural)]
pub struct Parameter {
    pub header: ParameterHeader,
    pub payload: Payload,
}

/// What a connection is asked to do with the data it moves.
#[derive(Clone, Copy, Debug, PartialEq, Eq, Structural)]
pub struct ConnectionFlags {
    pub tunnelling: bool,
    pub allocation_on_input: bool,
    pub allocation_on_output: bool,
}

/// A link from one output port to one input port.
#[derive(Clone, Copy, Debug, PartialEq, Eq, Structural)]
pub struct Connection {
    pub source: PortId,
    pub sink: PortId,
    pub flags: ConnectionFlags,
}

/// One native call that the pipeline asks for while it is being built.
#[derive(Clone, Copy, Debug, PartialEq, Eq, Structural)]
pub enum Request {
    /// Look the component up by its registered name and create it.
    CreateComponent { component: ComponentKind },
    /// Set one parameter on a port.
    SetParameter { port: PortId, parameter: Parameter },
    /// Write the format to the port and commit it.
    CommitFormat { port: PortId, format: VideoFormat },
    /// Report the port's format and buffer figures as they stand.
    QueryPort { port: PortId },
    /// Write the buffer count and size to the port.
    ConfigureBuffers { port: PortId, buffer_num: u32, buffer_size: u32 },
    /// Enable the component.
    EnableComponent { component: ComponentKind },
    /// Create the connection.
    CreateConnection { connection: Connection },
    /// Enable the connection created last.
    EnableConnection,
    /// Destroy the connection created last.
    DestroyConnection,
    /// Allocate a pool of `buffer_num` buffers of `buffer_size` bytes for the port.
    CreatePool { port: PortId, buffer_num: u32, buffer_size: u32 },
    /// Nothing is asked for: the pipeline is ready, has failed or is shut down.
    Nothing,
}

/// What a native call gave back.
#[derive(Clone, Copy, Debug, PartialEq, Eq, Structural)]
pub enum Reply {
    /// The status of a call that returns nothing else.
    Status { status: u32 },
    /// The outcome of creating a component, with the number of its input and
    /// output ports.
    Component { status: u32, inputs: u32, outputs: u32 },
    /// A port as the native layer reports it.
    Port { status: u32, port: Port },
    /// Whether the allocation yielded a pool. The native call has no status
    /// for this: a null result is the only sign of failure.
    Pool { allocated: bool },
}

/// One release step of a shutdown. Its failure is logged by the caller and
/// changes nothing in what follows.
#[derive(Clone, Copy, Debug, PartialEq, Eq, Structural)]
pub enum Teardown {
    DisableConnection,
    DestroyConnection,
    DisableComponent { component: ComponentKind },
    DisableControlPort { component: ComponentKind },
    DestroyPool,
    DestroyComponent { component: ComponentKind },
}

impl PortId {
    /// The component that the port belongs to.
    pub open spec fn component(self) -> ComponentKind {
        match self {
            PortId::CaptureControl => ComponentKind::Capture,
            PortId::CaptureStill => ComponentKind::Capture,
            PortId::EncoderControl => ComponentKind::Encoder,
            PortId::EncoderInput => ComponentKind::Encoder,
            PortId::EncoderOutput => ComponentKind::Encoder,
        }
    }

    /// Data leaves its component through the port.
    pub open spec fn is_output(self) -> bool {
        self is CaptureStill || self is EncoderOutput
    }

    /// Data enters its component through the port.
    pub open spec fn is_input(self) -> bool {
        self is EncoderInput
    }
}

impl Connection {
    /// The connection leads from an output port into an input port of
    /// another component, and says which side allocates, if either.
    pub open spec fn well_formed(self) -> bool {
        &&& self.source.is_output()
        &&& self.sink.is_input()
        &&& self.source.component() != self.sink.component()
        &&& !(self.flags.allocation_on_input && self.flags.allocation_on_output)
    }
}

impl Payload {
    /// Bytes the payload takes in memory.
    pub open spec fn size_spec(self) -> u32 {
        match self {
            Payload::Int32(_) => 4,
            Payload::Uint32(_) => 4,
            Payload::Boolean(_) => 4,
            Payload::Config(_) => 40,
        }
    }

    /// Bytes the payload takes in memory: four for an integer or a boolean,
    /// forty for the ten fields of a configuration record.
    pub fn size(&self) -> (bytes: u32)
        ensures
            bytes == self.size_spec(),
    {
        match self {
            Payload::Int32(_) => 4,
            Payload::Uint32(_) => 4,
            Payload::Boolean(_) => 4,
            Payload::Config(_) => 40,
        }
    }
}

impl ParameterId {
    /// The parameter takes a payload of this shape.
    pub open spec fn accepts(self, payload: Payload) -> bool {
        match self {
            ParameterId::CameraNum => payload is Int32,
            ParameterId::SensorMode => payload is Uint32,
            ParameterId::CameraConfig => payload is Config,
            ParameterId::JpegQFactor => payload is Uint32,
            ParameterId::JpegRestartInterval => payload is Uint32,
            ParameterId::Capture => payload is Boolean,
        }
    }
}

impl Parameter {
    /// The record `id` with `payload`, its header sized for the whole record.
    pub open spec fn new_spec(id: ParameterId, payload: Payload) -> Parameter {
        Parameter {
            header: ParameterHeader {
                id,
                size: (PARAMETER_HEADER_SIZE + payload.size_spec()) as u32,
            },
            payload,
        }
    }

    /// The header's size is that of the header and the payload together, and
    /// the payload has the shape the parameter takes. A port rejects a
    /// record of which this does not hold.
    pub open spec fn well_formed(self) -> bool {
        &&& self.header.size == PARAMETER_HEADER_SIZE + self.payload.size_spec()
        &&& self.header.id.accepts(self.payload)
    }

    /// Builds the record for `id`, with the size the payload calls for.
    pub fn new(id: ParameterId, payload: Payload) -> (parameter: Parameter)
        ensures
            parameter == Parameter::new_spec(id, payload),
            parameter.header.size == 8 + payload.size_spec(),
            id.accepts(payload) ==> parameter.well_formed(),
    {
        let size: u32 = PARAMETER_HEADER_SIZE + payload.size();
        Parameter { header: ParameterHeader { id, size }, payload }
    }

    /// Whether a port would take the record: see [`Parameter::well_formed`].
    pub fn is_well_formed(&self) -> (ok: bool)
        ensures
            ok == self.well_formed(),
    {
        let shape_ok = match self.header.id {
            ParameterId::CameraNum => matches!(self.payload, Payload::Int32(_)),
            ParameterId::SensorMode => matches!(self.payload, Payload::Uint32(_)),
            ParameterId::CameraConfig => matches!(self.payload, Payload::Config(_)),
            ParameterId::JpegQFactor => matches!(self.payload, Payload::Uint32(_)),
            ParameterId::JpegRestartInterval => matches!(self.payload, Payload::Uint32(_)),
            ParameterId::Capture => matches!(self.payload, Payload::Boolean(_)),
        };
        shape_ok && self.header.size == PARAMETER_HEADER_SIZE + self.payload.size()
    }
}

/// The configuration of a capture component that takes single stills of
/// `width` by `height`: stills and preview limited to that size, one-shot
/// stills on, one preview frame, and the clock reset at start.
pub open spec fn capture_config_spec(width: u32, height: u32) -> CaptureConfig {
    CaptureConfig {
        max_stills_w: width,
        max_stills_h: height,
        stills_yuv422: false,
        one_shot_stills: true,
        max_preview_video_w: width,
        max_preview_video_h: height,
        num_preview_video_frames: PREVIEW_FRAMES,
        stills_capture_circular_buffer_height: 0,
        fast_preview_resume: false,
        use_stc_timestamp: TimestampMode::ResetStc,
    }
}

/// Builds the configuration record for stills of `width` by `height`.
pub fn capture_config(width: u32, height: u32) -> (config: CaptureConfig)
    ensures
        config == capture_config_spec(width, height),
{
    CaptureConfig {
        max_stills_w: width,
        max_stills_h: height,
        stills_yuv422: false,
        one_shot_stills: true,
        max_preview_video_w: width,
        max_preview_video_h: height,
        num_preview_video_frames: PREVIEW_FRAMES,
        stills_capture_circular_buffer_height: 0,
        fast_preview_resume: false,
        use_stc_timestamp: TimestampMode::ResetStc,
    }
}

/// The connection between the two stages: from the still port into the
/// encoder, tunnelled, with the buffers allocated on the input side.
pub open spec fn tunnel_spec() -> Connection {
    Connection {
        source: PortId::CaptureStill,
        sink: PortId::EncoderInput,
        flags: ConnectionFlags {
            tunnelling: true,
            allocation_on_input: true,
            allocation_on_output: false,
        },
    }
}

/// Describes the connection between the two stages.
pub fn tunnel() -> (connection: Connection)
    ensures
        connection == tunnel_spec(),
        connection.well_formed(),
{
    Connection {
        source: PortId::CaptureStill,
        sink: PortId::EncoderInput,
        flags: ConnectionFlags {
            tunnelling: true,
            allocation_on_input: true,
            allocation_on_output: false,
        },
    }
}

impl Reply {
    /// The reply is a bare status, and the status is success.
    pub open spec fn acknowledged(self) -> bool {
        self matches Reply::Status { status } && status == STATUS_SUCCESS
    }

    /// Whether the reply is a bare status that reports success.
    pub fn is_acknowledged(&self) -> (ok: bool)
        ensures
            ok == self.acknowledged(),
    {
        match self {
            Reply::Status { status } => *status == STATUS_SUCCESS,
            _ => false,
        }
    }

    /// The port the reply reports, where it reports one with success.
    pub open spec fn reported_port(self) -> Option<Port> {
        match self {
            Reply::Port { status, port } => if status == STATUS_SUCCESS {
                Some(port)
            } else {
                None
            },
            _ => None,
        }
    }

    /// The port that the native layer reports, unless the reply is of
    /// another kind or reports a failure.
    pub fn port(&self) -> (port: Option<Port>)
        ensures
            port == self.reported_port(),
    {
        match self {
            Reply::Port { status, port } => if *status == STATUS_SUCCESS {
                Some(*port)
            } else {
                None
            },
            _ => None,
        }
    }
}

} // verus!
