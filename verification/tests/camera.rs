use stillcam::capture::{CaptureAction, CaptureEvent, CaptureFault, Phase};
use stillcam::format::{Port, Rational, Rect, VideoFormat, ENCODING_JPEG, ENCODING_OPAQUE};
use stillcam::pipeline::{Lifecycle, Stage};
use stillcam::protocol::{
    capture_config, tunnel, ComponentKind, Parameter, ParameterId, Payload, PortId, Reply,
    Request, Teardown,
};
use stillcam::{Camera, CameraError};

const OK: Reply = Reply::Status { status: 0 };
const REFUSED: Reply = Reply::Status { status: 1 };

fn port(num: u32, num_min: u32, num_rec: u32, size: u32, size_min: u32, size_rec: u32) -> Port {
    Port {
        format: VideoFormat::empty(),
        buffer_num: num,
        buffer_num_min: num_min,
        buffer_num_recommended: num_rec,
        buffer_size: size,
        buffer_size_min: size_min,
        buffer_size_recommended: size_rec,
    }
}

fn yuv(width: u32, height: u32) -> VideoFormat {
    VideoFormat {
        encoding: 0x3032_3449,
        width,
        height,
        crop: Rect { x: 0, y: 0, width: width as i32, height: height as i32 },
        frame_rate: Rational { num: 0, den: 1 },
    }
}

/// What a native layer replies when every call succeeds.
fn good_replies() -> Vec<Reply> {
    let mut encoder_input = port(1, 1, 1, 4096, 4096, 4096);
    encoder_input.format = yuv(800, 608);
    vec![
        Reply::Component { status: 0, inputs: 0, outputs: 3 },
        OK,
        OK,
        OK,
        OK,
        Reply::Port { status: 0, port: port(1, 1, 1, 737280, 737280, 737280) },
        OK,
        OK,
        Reply::Component { status: 0, inputs: 1, outputs: 1 },
        Reply::Port { status: 0, port: encoder_input },
        Reply::Port { status: 0, port: port(0, 1, 3, 0, 1024, 81920) },
        OK,
        OK,
        OK,
        OK,
        OK,
        OK,
        OK,
        Reply::Pool { allocated: true },
    ]
}

/// A camera that got the first `count` good replies.
fn camera_after(count: usize) -> Camera {
    let mut camera = Camera::new(800, 600).unwrap();
    for reply in good_replies().into_iter().take(count) {
        camera.step(reply);
    }
    camera
}

fn ready_camera() -> Camera {
    let camera = camera_after(good_replies().len());
    assert!(camera.is_ready());
    camera
}

/// A camera whose call number `index` (from zero) got `reply` after good
/// replies to the calls before.
fn camera_failing_at(index: usize, reply: Reply) -> Camera {
    let mut camera = camera_after(index);
    camera.step(reply);
    camera
}

#[test]
fn a_new_camera_has_nothing_and_waits_for_the_capture_component() {
    let camera = Camera::new(800, 600).unwrap();
    assert_eq!(camera.stage(), Stage::CreateCapture);
    assert_eq!(camera.error(), None);
    assert!(!camera.is_ready());
    assert_eq!(camera.pending(), Request::CreateComponent { component: ComponentKind::Capture });
    let state = camera.state();
    assert_eq!(state.width, 800);
    assert_eq!(state.height, 600);
    assert_eq!(state.capture, Lifecycle::Absent);
    assert_eq!(state.encoder, Lifecycle::Absent);
    assert_eq!(state.connection, Lifecycle::Absent);
    assert!(!state.capture_control);
    assert!(!state.encoder_control);
    assert!(!state.pool_allocated);
    assert_eq!(camera.pool().capacity(), 0);
    assert_eq!(camera.capture_phase(), None);
}

#[test]
fn a_size_that_cannot_be_requested_is_rejected() {
    assert_eq!(Camera::new(0, 600).err(), Some(CameraError::ConfigurationRejected));
    assert_eq!(Camera::new(800, 0).err(), Some(CameraError::ConfigurationRejected));
    assert_eq!(Camera::new(0x8000_0000, 600).err(), Some(CameraError::ConfigurationRejected));
    assert_eq!(Camera::new(800, u32::MAX).err(), Some(CameraError::ConfigurationRejected));
    assert!(Camera::new(1, 1).is_ok());
    assert!(Camera::new(0x7FFF_FFFF, 0x7FFF_FFFF).is_ok());
}

#[test]
fn construction_asks_for_each_call_in_turn() {
    let mut camera = Camera::new(800, 600).unwrap();
    let still_format = VideoFormat {
        encoding: ENCODING_OPAQUE,
        width: 800,
        height: 608,
        crop: Rect { x: 0, y: 0, width: 800, height: 600 },
        frame_rate: Rational { num: 0, den: 1 },
    };
    let jpeg_format = VideoFormat { encoding: ENCODING_JPEG, ..yuv(800, 608) };
    let expected = vec![
        Request::CreateComponent { component: ComponentKind::Capture },
        Request::SetParameter {
            port: PortId::CaptureControl,
            parameter: Parameter::new(ParameterId::CameraNum, Payload::Int32(0)),
        },
        Request::SetParameter {
            port: PortId::CaptureControl,
            parameter: Parameter::new(ParameterId::SensorMode, Payload::Uint32(0)),
        },
        Request::SetParameter {
            port: PortId::CaptureControl,
            parameter: Parameter::new(
                ParameterId::CameraConfig,
                Payload::Config(capture_config(800, 600)),
            ),
        },
        Request::CommitFormat { port: PortId::CaptureStill, format: still_format },
        Request::QueryPort { port: PortId::CaptureStill },
        Request::ConfigureBuffers { port: PortId::CaptureStill, buffer_num: 3, buffer_size: 737280 },
        Request::EnableComponent { component: ComponentKind::Capture },
        Request::CreateComponent { component: ComponentKind::Encoder },
        Request::QueryPort { port: PortId::EncoderInput },
        Request::QueryPort { port: PortId::EncoderOutput },
        Request::ConfigureBuffers { port: PortId::EncoderOutput, buffer_num: 3, buffer_size: 81920 },
        Request::CommitFormat { port: PortId::EncoderOutput, format: jpeg_format },
        Request::SetParameter {
            port: PortId::EncoderOutput,
            parameter: Parameter::new(ParameterId::JpegQFactor, Payload::Uint32(90)),
        },
        Request::SetParameter {
            port: PortId::EncoderOutput,
            parameter: Parameter::new(ParameterId::JpegRestartInterval, Payload::Uint32(0)),
        },
        Request::EnableComponent { component: ComponentKind::Encoder },
        Request::CreateConnection { connection: tunnel() },
        Request::EnableConnection,
        Request::CreatePool { port: PortId::EncoderOutput, buffer_num: 3, buffer_size: 81920 },
    ];
    let replies = good_replies();
    assert_eq!(expected.len(), replies.len());
    let mut request = camera.pending();
    for (wanted, reply) in expected.into_iter().zip(replies) {
        assert_eq!(request, wanted);
        assert_eq!(camera.pending(), wanted);
        if let Request::SetParameter { parameter, .. } = request {
            assert!(parameter.is_well_formed());
        }
        assert!(!camera.is_ready());
        request = camera.step(reply);
    }
    assert_eq!(request, Request::Nothing);
    assert_eq!(camera.pending(), Request::Nothing);
    assert!(camera.is_ready());
    assert_eq!(camera.stage(), Stage::Ready);
    assert_eq!(camera.error(), None);
}

#[test]
fn a_built_camera_has_everything_enabled_and_its_pool() {
    let camera = ready_camera();
    let state = camera.state();
    assert_eq!(state.capture, Lifecycle::Enabled);
    assert_eq!(state.encoder, Lifecycle::Enabled);
    assert_eq!(state.connection, Lifecycle::Enabled);
    assert!(state.pool_allocated);
    assert_eq!(camera.pool().capacity(), 3);
    assert_eq!(camera.pool().buffer_size(), 81920);
    assert_eq!(camera.pool().buffers_in_pool(), 3);
    assert_eq!(camera.pool().buffers_in_flight(), 0);
    assert_eq!(camera.encoder_input().format, yuv(800, 608));
}

#[test]
fn construct_with_800_by_600() {
    let camera = camera_after(5);
    let format = camera.still_port().format;
    assert_eq!(format.width, 800);
    assert_eq!(format.height, 608);
    assert_eq!(format.crop, Rect { x: 0, y: 0, width: 800, height: 600 });
    let camera = ready_camera();
    let format = camera.still_port().format;
    assert_eq!(format.width, 800);
    assert_eq!(format.height, 608);
    assert_eq!(format.crop, Rect { x: 0, y: 0, width: 800, height: 600 });
    assert_eq!(format.encoding, ENCODING_OPAQUE);
    assert_eq!(format.frame_rate, Rational { num: 0, den: 1 });
}

#[test]
fn committed_still_size_is_the_request_rounded_up() {
    for (width, height) in [(1u32, 1u32), (31, 15), (32, 16), (33, 17), (1920, 1080), (2592, 1944)] {
        let mut camera = Camera::new(width, height).unwrap();
        for reply in good_replies() {
            camera.step(reply);
        }
        assert!(camera.is_ready());
        let format = camera.still_port().format;
        assert_eq!(format.width % 32, 0);
        assert_eq!(format.height % 16, 0);
        assert!(format.width >= width && format.width - width < 32);
        assert!(format.height >= height && format.height - height < 16);
        assert_eq!(
            format.crop,
            Rect { x: 0, y: 0, width: width as i32, height: height as i32 }
        );
    }
}

#[test]
fn still_port_gets_at_least_three_buffers() {
    let camera = camera_after(6);
    assert_eq!(camera.still_port().buffer_num, 3);
    assert_eq!(camera.still_port().buffer_size, 737280);

    let mut camera = camera_after(5);
    let request = camera.step(Reply::Port { status: 0, port: port(5, 1, 1, 10, 10, 10) });
    assert_eq!(
        request,
        Request::ConfigureBuffers { port: PortId::CaptureStill, buffer_num: 5, buffer_size: 10 }
    );
    assert_eq!(camera.still_port().buffer_num, 5);
}

#[test]
fn encoder_output_with_recommendation_below_minimum() {
    let mut camera = camera_after(10);
    let request = camera.step(Reply::Port { status: 0, port: port(0, 2, 1, 0, 0, 0) });
    assert_eq!(
        request,
        Request::ConfigureBuffers { port: PortId::EncoderOutput, buffer_num: 2, buffer_size: 0 }
    );
    for reply in good_replies().into_iter().skip(11) {
        camera.step(reply);
    }
    assert!(camera.is_ready());
    assert_eq!(camera.encoder_output().buffer_num, 2);
    assert_eq!(camera.pool().capacity(), 2);
}

#[test]
fn encoder_output_meets_its_minimums_whatever_is_reported() {
    for num_min in 0u32..4 {
        for num_rec in 0u32..4 {
            for (size_min, size_rec) in [(0u32, 0u32), (4096, 1024), (1024, 4096), (7, 7)] {
                let mut camera = camera_after(10);
                camera.step(Reply::Port {
                    status: 0,
                    port: port(9, num_min, num_rec, 9, size_min, size_rec),
                });
                for reply in good_replies().into_iter().skip(11) {
                    camera.step(reply);
                }
                assert!(camera.is_ready());
                let output = camera.encoder_output();
                assert!(output.buffer_num >= output.buffer_num_min);
                assert!(output.buffer_size >= output.buffer_size_min);
                assert_eq!(output.buffer_num, num_rec.max(num_min));
                assert_eq!(output.buffer_size, size_rec.max(size_min));
                assert_eq!(camera.pool().capacity(), output.buffer_num as usize);
                assert_eq!(camera.pool().buffer_size(), output.buffer_size);
            }
        }
    }
}

#[test]
fn encoder_output_takes_the_format_of_its_input() {
    let camera = camera_after(11);
    let output = camera.encoder_output().format;
    assert_eq!(output.encoding, ENCODING_JPEG);
    assert_eq!(output.width, 800);
    assert_eq!(output.height, 608);
    assert_eq!(output.crop, Rect { x: 0, y: 0, width: 800, height: 608 });
    assert_eq!(output.frame_rate, Rational { num: 0, den: 1 });
}

#[test]
fn each_refusal_has_its_error() {
    let cases: Vec<(usize, Reply, CameraError)> = vec![
        (0, Reply::Component { status: 1, inputs: 0, outputs: 3 }, CameraError::ComponentCreateFailed),
        (0, OK, CameraError::ComponentCreateFailed),
        (1, REFUSED, CameraError::ParameterSetFailed { param: ParameterId::CameraNum }),
        (2, REFUSED, CameraError::ParameterSetFailed { param: ParameterId::SensorMode }),
        (3, REFUSED, CameraError::ConfigurationRejected),
        (4, REFUSED, CameraError::FormatCommitFailed),
        (5, Reply::Port { status: 1, port: Port::empty() }, CameraError::FormatCommitFailed),
        (5, OK, CameraError::FormatCommitFailed),
        (7, REFUSED, CameraError::ComponentEnableFailed),
        (8, Reply::Component { status: 1, inputs: 1, outputs: 1 }, CameraError::ComponentCreateFailed),
        (8, REFUSED, CameraError::ComponentCreateFailed),
        (8, Reply::Component { status: 0, inputs: 0, outputs: 1 }, CameraError::InvalidComponentTopology),
        (8, Reply::Component { status: 0, inputs: 1, outputs: 0 }, CameraError::InvalidComponentTopology),
        (9, Reply::Port { status: 1, port: Port::empty() }, CameraError::InvalidComponentTopology),
        (10, OK, CameraError::InvalidComponentTopology),
        (12, REFUSED, CameraError::FormatCommitFailed),
        (13, REFUSED, CameraError::ParameterSetFailed { param: ParameterId::JpegQFactor }),
        (14, REFUSED, CameraError::ParameterSetFailed { param: ParameterId::JpegRestartInterval }),
        (15, REFUSED, CameraError::ComponentEnableFailed),
        (16, REFUSED, CameraError::ConnectionCreateFailed),
        (18, Reply::Pool { allocated: false }, CameraError::PoolAllocationFailed),
        (18, OK, CameraError::PoolAllocationFailed),
    ];
    for (index, reply, error) in cases {
        let before = camera_after(index);
        let mut camera = camera_failing_at(index, reply);
        assert_eq!(camera.error(), Some(error), "call {}", index);
        assert!(error.is_fatal());
        assert_eq!(camera.stage(), before.stage());
        assert!(!camera.is_ready());
        assert_eq!(camera.pending(), Request::Nothing);
        // Construction has ended: later replies change nothing.
        let state = camera.state();
        assert_eq!(camera.step(OK), Request::Nothing);
        assert_eq!(camera.step(Reply::Pool { allocated: true }), Request::Nothing);
        assert_eq!(camera.state(), state);
    }
}

#[test]
fn a_connection_that_cannot_be_enabled_is_destroyed_first() {
    let mut camera = camera_after(17);
    assert_eq!(camera.pending(), Request::EnableConnection);
    assert_eq!(camera.step(REFUSED), Request::DestroyConnection);
    assert_eq!(camera.error(), None);
    assert_eq!(camera.stage(), Stage::DropConnection);
    assert_eq!(camera.state().connection, Lifecycle::Created);
    assert_eq!(camera.step(OK), Request::Nothing);
    assert_eq!(camera.error(), Some(CameraError::ConnectionEnableFailed));
    assert_eq!(camera.state().connection, Lifecycle::Destroyed);
    let plan = camera.shutdown();
    assert!(!plan.contains(&Teardown::DestroyConnection));
    assert!(!plan.contains(&Teardown::DisableConnection));
}

#[test]
fn the_connection_is_gone_even_if_its_destruction_fails() {
    let mut camera = camera_after(17);
    camera.step(REFUSED);
    assert_eq!(camera.step(REFUSED), Request::Nothing);
    assert_eq!(camera.error(), Some(CameraError::ConnectionEnableFailed));
    assert_eq!(camera.state().connection, Lifecycle::Destroyed);
}

#[test]
fn an_encoder_without_ports_exists_and_is_released() {
    let mut camera =
        camera_failing_at(8, Reply::Component { status: 0, inputs: 0, outputs: 0 });
    assert_eq!(camera.error(), Some(CameraError::InvalidComponentTopology));
    assert_eq!(camera.state().encoder, Lifecycle::Created);
    assert_eq!(
        camera.shutdown(),
        vec![
            Teardown::DisableComponent { component: ComponentKind::Capture },
            Teardown::DestroyComponent { component: ComponentKind::Encoder },
            Teardown::DestroyComponent { component: ComponentKind::Capture },
        ]
    );
}

#[test]
fn no_pool_no_capture() {
    let mut camera = camera_failing_at(18, Reply::Pool { allocated: false });
    assert_eq!(camera.error(), Some(CameraError::PoolAllocationFailed));
    assert!(!camera.is_ready());
    assert!(!camera.state().pool_allocated);
    assert_eq!(camera.pool().capacity(), 0);
    assert_eq!(camera.begin_capture(), None);
    assert_eq!(camera.capture_phase(), None);
    assert_eq!(camera.capture_pending(), CaptureAction::Nothing);
    assert_eq!(
        camera.capture_step(CaptureEvent::PortEnabled { status: 0 }),
        CaptureAction::Nothing
    );
    assert_eq!(camera.capture_phase(), None);
    let plan = camera.shutdown();
    assert!(!plan.contains(&Teardown::DestroyPool));
}

#[test]
fn a_camera_under_construction_takes_no_capture() {
    for count in 0..good_replies().len() {
        let mut camera = camera_after(count);
        assert_eq!(camera.begin_capture(), None);
        assert_eq!(
            camera.capture_step(CaptureEvent::BufferDelivered { id: 0, end_of_frame: true }),
            CaptureAction::Nothing
        );
        assert_eq!(camera.capture_phase(), None);
    }
}

#[test]
fn shutdown_of_a_built_camera() {
    let mut camera = ready_camera();
    let plan = camera.shutdown();
    assert_eq!(
        plan,
        vec![
            Teardown::DisableConnection,
            Teardown::DestroyConnection,
            Teardown::DisableComponent { component: ComponentKind::Encoder },
            Teardown::DisableComponent { component: ComponentKind::Capture },
            Teardown::DestroyPool,
            Teardown::DestroyComponent { component: ComponentKind::Encoder },
            Teardown::DestroyComponent { component: ComponentKind::Capture },
        ]
    );
    let state = camera.state();
    assert_eq!(state.stage, Stage::Closed);
    assert_eq!(state.capture, Lifecycle::Destroyed);
    assert_eq!(state.encoder, Lifecycle::Destroyed);
    assert_eq!(state.connection, Lifecycle::Destroyed);
    assert!(!state.pool_allocated);
    assert_eq!(camera.pool().capacity(), 0);
    assert!(!camera.is_ready());
    assert_eq!(camera.pending(), Request::Nothing);
}

#[test]
fn shutdown_with_control_ports_enabled() {
    let mut camera = ready_camera();
    assert!(camera.mark_control_port_enabled(ComponentKind::Capture));
    assert!(camera.mark_control_port_enabled(ComponentKind::Encoder));
    assert!(camera.state().capture_control);
    assert!(camera.state().encoder_control);
    assert_eq!(
        camera.shutdown(),
        vec![
            Teardown::DisableConnection,
            Teardown::DestroyConnection,
            Teardown::DisableComponent { component: ComponentKind::Encoder },
            Teardown::DisableComponent { component: ComponentKind::Capture },
            Teardown::DisableControlPort { component: ComponentKind::Encoder },
            Teardown::DisableControlPort { component: ComponentKind::Capture },
            Teardown::DestroyPool,
            Teardown::DestroyComponent { component: ComponentKind::Encoder },
            Teardown::DestroyComponent { component: ComponentKind::Capture },
        ]
    );
    assert!(!camera.state().capture_control);
    assert!(!camera.state().encoder_control);
}

#[test]
fn a_control_port_needs_its_component() {
    let mut camera = Camera::new(800, 600).unwrap();
    assert!(!camera.mark_control_port_enabled(ComponentKind::Capture));
    assert!(!camera.mark_control_port_enabled(ComponentKind::Encoder));
    assert!(!camera.state().capture_control);
    let mut camera = camera_after(1);
    assert!(camera.mark_control_port_enabled(ComponentKind::Capture));
    assert!(!camera.mark_control_port_enabled(ComponentKind::Encoder));
    assert_eq!(
        camera.shutdown(),
        vec![
            Teardown::DisableControlPort { component: ComponentKind::Capture },
            Teardown::DestroyComponent { component: ComponentKind::Capture },
        ]
    );
    assert!(!camera.mark_control_port_enabled(ComponentKind::Capture));
}

#[test]
fn a_second_shutdown_does_nothing() {
    for count in 0..=good_replies().len() {
        let mut camera = camera_after(count);
        camera.mark_control_port_enabled(ComponentKind::Capture);
        camera.shutdown();
        let state = camera.state();
        assert_eq!(camera.shutdown(), vec![]);
        assert_eq!(camera.state(), state);
        assert_eq!(camera.shutdown(), vec![]);
        assert_eq!(camera.state(), state);
        assert_eq!(camera.error(), None);
    }
}

#[test]
fn shutdown_keeps_the_error_of_a_failed_construction() {
    let mut camera = camera_failing_at(4, REFUSED);
    assert_eq!(
        camera.shutdown(),
        vec![Teardown::DestroyComponent { component: ComponentKind::Capture }]
    );
    assert_eq!(camera.error(), Some(CameraError::FormatCommitFailed));
    assert_eq!(camera.shutdown(), vec![]);
    assert_eq!(camera.error(), Some(CameraError::FormatCommitFailed));
}

#[test]
fn shutdown_releases_exactly_what_exists() {
    let capture = ComponentKind::Capture;
    let encoder = ComponentKind::Encoder;
    let cases: Vec<(usize, Vec<Teardown>)> = vec![
        (0, vec![]),
        (1, vec![Teardown::DestroyComponent { component: capture }]),
        (7, vec![Teardown::DestroyComponent { component: capture }]),
        (
            8,
            vec![
                Teardown::DisableComponent { component: capture },
                Teardown::DestroyComponent { component: capture },
            ],
        ),
        (
            9,
            vec![
                Teardown::DisableComponent { component: capture },
                Teardown::DestroyComponent { component: encoder },
                Teardown::DestroyComponent { component: capture },
            ],
        ),
        (
            16,
            vec![
                Teardown::DisableComponent { component: encoder },
                Teardown::DisableComponent { component: capture },
                Teardown::DestroyComponent { component: encoder },
                Teardown::DestroyComponent { component: capture },
            ],
        ),
        (
            17,
            vec![
                Teardown::DestroyConnection,
                Teardown::DisableComponent { component: encoder },
                Teardown::DisableComponent { component: capture },
                Teardown::DestroyComponent { component: encoder },
                Teardown::DestroyComponent { component: capture },
            ],
        ),
        (
            18,
            vec![
                Teardown::DisableConnection,
                Teardown::DestroyConnection,
                Teardown::DisableComponent { component: encoder },
                Teardown::DisableComponent { component: capture },
                Teardown::DestroyComponent { component: encoder },
                Teardown::DestroyComponent { component: capture },
            ],
        ),
    ];
    for (count, plan) in cases {
        let mut camera = camera_after(count);
        assert_eq!(camera.shutdown(), plan, "after {} replies", count);
        assert_eq!(camera.stage(), Stage::Closed);
    }
}

#[test]
fn nothing_is_destroyed_before_everything_is_disabled() {
    for count in 0..=good_replies().len() {
        let mut camera = camera_after(count);
        camera.mark_control_port_enabled(ComponentKind::Encoder);
        let plan = camera.shutdown();
        let first_destroyed_component = plan
            .iter()
            .position(|step| matches!(step, Teardown::DestroyComponent { .. }));
        let last_disable = plan.iter().rposition(|step| {
            matches!(
                step,
                Teardown::DisableConnection
                    | Teardown::DisableComponent { .. }
                    | Teardown::DisableControlPort { .. }
            )
        });
        if let (Some(destroy), Some(disable)) = (first_destroyed_component, last_disable) {
            assert!(disable < destroy);
        }
    }
}

#[test]
fn a_closed_camera_builds_nothing_and_captures_nothing() {
    let mut camera = ready_camera();
    camera.shutdown();
    assert_eq!(camera.step(OK), Request::Nothing);
    assert_eq!(camera.stage(), Stage::Closed);
    assert_eq!(camera.begin_capture(), None);
    assert_eq!(
        camera.capture_step(CaptureEvent::PortEnabled { status: 0 }),
        CaptureAction::Nothing
    );
}

#[test]
fn a_ready_camera_ignores_replies() {
    let mut camera = ready_camera();
    let state = camera.state();
    assert_eq!(camera.step(REFUSED), Request::Nothing);
    assert_eq!(camera.step(Reply::Pool { allocated: false }), Request::Nothing);
    assert_eq!(camera.state(), state);
    assert_eq!(camera.pool().capacity(), 3);
}

#[test]
fn one_capture_from_start_to_end() {
    let mut camera = ready_camera();
    assert_eq!(camera.begin_capture(), Some(CaptureAction::EnablePort));
    assert_eq!(camera.capture_phase(), Some(Phase::Idle));
    assert_eq!(camera.capture_pending(), CaptureAction::EnablePort);
    assert_eq!(
        camera.capture_step(CaptureEvent::PortEnabled { status: 0 }),
        CaptureAction::SendBuffer { id: 0 }
    );
    assert_eq!(
        camera.capture_step(CaptureEvent::BufferSent { status: 0 }),
        CaptureAction::SendBuffer { id: 1 }
    );
    assert_eq!(
        camera.capture_step(CaptureEvent::BufferSent { status: 0 }),
        CaptureAction::SendBuffer { id: 2 }
    );
    let trigger = camera.capture_step(CaptureEvent::BufferSent { status: 0 });
    assert_eq!(
        trigger,
        CaptureAction::Trigger {
            port: PortId::CaptureStill,
            parameter: Parameter::new(ParameterId::Capture, Payload::Boolean(true)),
        }
    );
    assert_eq!(camera.pool().buffers_in_flight(), 3);
    assert_eq!(camera.capture_step(CaptureEvent::Triggered { status: 0 }), CaptureAction::Wait);
    assert_eq!(
        camera.capture_step(CaptureEvent::BufferDelivered { id: 0, end_of_frame: false }),
        CaptureAction::Recycle { id: 0, release: true, signal: false }
    );
    assert_eq!(camera.capture_pending(), CaptureAction::Wait);
    assert_eq!(
        camera.capture_step(CaptureEvent::BufferDelivered { id: 1, end_of_frame: false }),
        CaptureAction::Recycle { id: 1, release: true, signal: false }
    );
    assert_eq!(camera.capture_pending(), CaptureAction::Wait);
    assert_eq!(
        camera.capture_step(CaptureEvent::BufferDelivered { id: 2, end_of_frame: true }),
        CaptureAction::Recycle { id: 2, release: true, signal: true }
    );
    assert_eq!(camera.capture_pending(), CaptureAction::DisablePort);
    assert_eq!(camera.pool().buffers_in_pool(), 3);
    assert_eq!(
        camera.capture_step(CaptureEvent::PortDisabled { status: 0 }),
        CaptureAction::Finalize
    );
    assert_eq!(
        camera.capture_step(CaptureEvent::Finalized { status: 0 }),
        CaptureAction::Nothing
    );
    assert_eq!(camera.capture_phase(), Some(Phase::Complete));
    assert!(camera.is_ready());
}

#[test]
fn no_capture_begins_while_one_is_under_way() {
    let mut camera = ready_camera();
    assert_eq!(camera.begin_capture(), Some(CaptureAction::EnablePort));
    assert_eq!(camera.begin_capture(), None);
    camera.capture_step(CaptureEvent::PortEnabled { status: 0 });
    assert_eq!(camera.begin_capture(), None);
    assert_eq!(camera.capture_phase(), Some(Phase::Sending { id: 0, remaining: 2, any_sent: false }));
    camera.capture_step(CaptureEvent::BufferSent { status: 0 });
    camera.capture_step(CaptureEvent::BufferSent { status: 0 });
    camera.capture_step(CaptureEvent::BufferSent { status: 0 });
    camera.capture_step(CaptureEvent::Triggered { status: 0 });
    assert_eq!(camera.begin_capture(), None);
    camera.capture_step(CaptureEvent::BufferDelivered { id: 0, end_of_frame: true });
    assert_eq!(camera.begin_capture(), None);
    camera.capture_step(CaptureEvent::BufferDelivered { id: 1, end_of_frame: false });
    camera.capture_step(CaptureEvent::BufferDelivered { id: 2, end_of_frame: false });
    camera.capture_step(CaptureEvent::PortDisabled { status: 0 });
    assert_eq!(camera.begin_capture(), None);
    camera.capture_step(CaptureEvent::Finalized { status: 0 });
    assert_eq!(camera.begin_capture(), Some(CaptureAction::EnablePort));
    assert_eq!(camera.capture_phase(), Some(Phase::Idle));
    assert_eq!(camera.pool().buffers_in_pool(), 3);
}

#[test]
fn a_failed_capture_leaves_the_camera_ready_for_another() {
    let mut camera = ready_camera();
    camera.begin_capture();
    camera.capture_step(CaptureEvent::PortEnabled { status: 0 });
    camera.capture_step(CaptureEvent::BufferSent { status: 0 });
    camera.capture_step(CaptureEvent::BufferSent { status: 0 });
    camera.capture_step(CaptureEvent::BufferSent { status: 0 });
    assert_eq!(
        camera.capture_step(CaptureEvent::Triggered { status: 1 }),
        CaptureAction::Nothing
    );
    assert_eq!(
        camera.capture_phase(),
        Some(Phase::Failed { fault: CaptureFault::CaptureTriggerFailed })
    );
    assert!(camera.is_ready());
    assert_eq!(camera.error(), None);
    // The port still holds the buffers; they come back as it gives them up.
    for id in 0..3 {
        assert_eq!(
            camera.capture_step(CaptureEvent::BufferDelivered { id, end_of_frame: false }),
            CaptureAction::Recycle { id, release: true, signal: false }
        );
    }
    assert_eq!(camera.pool().buffers_in_pool(), 3);
    assert_eq!(camera.begin_capture(), Some(CaptureAction::EnablePort));
}

#[test]
fn shutdown_ends_the_capture_under_way() {
    let mut camera = ready_camera();
    camera.begin_capture();
    camera.capture_step(CaptureEvent::PortEnabled { status: 0 });
    camera.shutdown();
    assert_eq!(camera.capture_phase(), None);
    assert_eq!(camera.capture_pending(), CaptureAction::Nothing);
    assert_eq!(camera.pool().capacity(), 0);
}
