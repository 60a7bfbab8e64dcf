use stillcam::protocol::ParameterId;
use stillcam::CameraError;

#[test]
fn every_error_has_its_own_line() {
    let cases = [
        (CameraError::ComponentCreateFailed, "Unable to create component"),
        (CameraError::InvalidComponentTopology, "Encoder has no input or no output port"),
        (
            CameraError::ParameterSetFailed { param: ParameterId::CameraNum },
            "Unable to set camera number",
        ),
        (
            CameraError::ParameterSetFailed { param: ParameterId::SensorMode },
            "Unable to set sensor mode",
        ),
        (
            CameraError::ParameterSetFailed { param: ParameterId::CameraConfig },
            "Unable to set camera settings",
        ),
        (
            CameraError::ParameterSetFailed { param: ParameterId::JpegQFactor },
            "Unable to set JPEG quality",
        ),
        (
            CameraError::ParameterSetFailed { param: ParameterId::JpegRestartInterval },
            "Unable to set JPEG restart interval",
        ),
        (
            CameraError::ParameterSetFailed { param: ParameterId::Capture },
            "Unable to set capture parameter",
        ),
        (CameraError::ConfigurationRejected, "Unable to set camera settings"),
        (CameraError::FormatCommitFailed, "Unable to commit port format"),
        (CameraError::ConnectionCreateFailed, "Unable to create connection"),
        (CameraError::ConnectionEnableFailed, "Unable to enable connection"),
        (CameraError::PoolAllocationFailed, "Unable to allocate buffer pool"),
        (CameraError::ComponentEnableFailed, "Unable to enable component"),
        (CameraError::CaptureTriggerFailed, "Unable to start capture"),
        (CameraError::NoBuffersAvailable, "No buffers available"),
    ];
    for (error, text) in cases {
        assert_eq!(error.message(), text);
    }
}

#[test]
fn only_the_errors_of_a_capture_leave_the_pipeline_standing() {
    assert!(!CameraError::CaptureTriggerFailed.is_fatal());
    assert!(!CameraError::NoBuffersAvailable.is_fatal());
    for error in [
        CameraError::ComponentCreateFailed,
        CameraError::InvalidComponentTopology,
        CameraError::ParameterSetFailed { param: ParameterId::CameraNum },
        CameraError::ConfigurationRejected,
        CameraError::FormatCommitFailed,
        CameraError::ConnectionCreateFailed,
        CameraError::ConnectionEnableFailed,
        CameraError::PoolAllocationFailed,
        CameraError::ComponentEnableFailed,
    ] {
        assert!(error.is_fatal());
    }
}
