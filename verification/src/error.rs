//! What can go wrong while a pipeline is built or a still is taken.

use crate::protocol::ParameterId;
use vstd::prelude::*;

verus! {

/// A failure of construction or of one capture.
#[derive(Clone, Copy, Debug, PartialEq, Eq, Structural)]
pub enum CameraError {
    /// The registry has no component of the name asked for.
    ComponentCreateFailed,
    /// The encoder lacks an input or an output port.
    InvalidComponentTopology,
    /// A port refused the parameter.
    ParameterSetFailed { param: ParameterId },
    /// The capture component refused its configuration record, or the
    /// requested size cannot be configured at all.
    ConfigurationRejected,
    /// A port refused the format.
    FormatCommitFailed,
    /// The connection could not be created.
    ConnectionCreateFailed,
    /// The connection was created but could not be enabled.
    ConnectionEnableFailed,
    /// The allocation yielded no pool.
    PoolAllocationFailed,
    /// A component could not be enabled.
    ComponentEnableFailed,
    /// The capture could not be triggered.
    CaptureTriggerFailed,
    /// Not one buffer could be handed to the output port.
    NoBuffersAvailable,
}

impl CameraError {
    /// The text of [`CameraError::message`].
    pub open spec fn message_spec(self) -> Seq<char> {
        match self {
            CameraError::ComponentCreateFailed => "Unable to create component"@,
            CameraError::InvalidComponentTopology => "Encoder has no input or no output port"@,
            CameraError::ParameterSetFailed { param } => match param {
                ParameterId::CameraNum => "Unable to set camera number"@,
                ParameterId::SensorMode => "Unable to set sensor mode"@,
                ParameterId::CameraConfig => "Unable to set camera settings"@,
                ParameterId::JpegQFactor => "Unable to set JPEG quality"@,
                ParameterId::JpegRestartInterval => "Unable to set JPEG restart interval"@,
                ParameterId::Capture => "Unable to set capture parameter"@,
            },
            CameraError::ConfigurationRejected => "Unable to set camera settings"@,
            CameraError::FormatCommitFailed => "Unable to commit port format"@,
            CameraError::ConnectionCreateFailed => "Unable to create connection"@,
            CameraError::ConnectionEnableFailed => "Unable to enable connection"@,
            CameraError::PoolAllocationFailed => "Unable to allocate buffer pool"@,
            CameraError::ComponentEnableFailed => "Unable to enable component"@,
            CameraError::CaptureTriggerFailed => "Unable to start capture"@,
            CameraError::NoBuffersAvailable => "No buffers available"@,
        }
    }

    /// One line that names what failed and, for a parameter, which one.
    pub fn message(&self) -> (text: String)
        ensures
            text@ == self.message_spec(),
    {
        match self {
            CameraError::ComponentCreateFailed => "Unable to create component".to_owned(),
            CameraError::InvalidComponentTopology => {
                "Encoder has no input or no output port".to_owned()
            },
            CameraError::ParameterSetFailed { param } => match param {
                ParameterId::CameraNum => "Unable to set camera number".to_owned(),
                ParameterId::SensorMode => "Unable to set sensor mode".to_owned(),
                ParameterId::CameraConfig => "Unable to set camera settings".to_owned(),
                ParameterId::JpegQFactor => "Unable to set JPEG quality".to_owned(),
                ParameterId::JpegRestartInterval => {
                    "Unable to set JPEG restart interval".to_owned()
                },
                ParameterId::Capture => "Unable to set capture parameter".to_owned(),
            },
            CameraError::ConfigurationRejected => "Unable to set camera settings".to_owned(),
            CameraError::FormatCommitFailed => "Unable to commit port format".to_owned(),
            CameraError::ConnectionCreateFailed => "Unable to create connection".to_owned(),
            CameraError::ConnectionEnableFailed => "Unable to enable connection".to_owned(),
            CameraError::PoolAllocationFailed => "Unable to allocate buffer pool".to_owned(),
            CameraError::ComponentEnableFailed => "Unable to enable component".to_owned(),
            CameraError::CaptureTriggerFailed => "Unable to start capture".to_owned(),
            CameraError::NoBuffersAvailable => "No buffers available".to_owned(),
        }
    }

    /// The failure belongs to construction: it ends the attempt to build the
    /// pipeline. The others belong to a single capture and leave the
    /// pipeline standing.
    pub open spec fn is_fatal_spec(self) -> bool {
        !(self is CaptureTriggerFailed || self is NoBuffersAvailable)
    }

    /// Whether the failure ends the attempt to build the pipeline.
    pub fn is_fatal(&self) -> (fatal: bool)
        ensures
            fatal == self.is_fatal_spec(),
    {
        match self {
            CameraError::CaptureTriggerFailed => false,
            CameraError::NoBuffersAvailable => false,
            _ => true,
        }
    }
}

} // verus!
