//! One capture: arming the output port, triggering the sensor, collecting
//! the frame and finishing.
//!
//! A [`CaptureSession`] lives for one request. The caller performs the
//! action the session asks for, tells the session what came of it, and is
//! told the next action. Buffers that the port delivers are told to the
//! session as they come, in whatever phase it is.

use crate::error::CameraError;
use crate::pool::{BufferPool, PoolView};
use crate::protocol::{Parameter, ParameterId, Payload, PortId, STATUS_SUCCESS};
use vstd::prelude::*;

verus! {

/// The states a capture goes through.
#[derive(Clone, Copy, Debug, PartialEq, Eq, Structural)]
pub enum CaptureState {
    Idle,
    Armed,
    Capturing,
    Draining,
    Complete,
    Error,
}

/// The native call during which a capture failed.
#[derive(Clone, Copy, Debug, PartialEq, Eq, Structural)]
pub enum CaptureContext {
    EnablePort,
    DisablePort,
    Finalize,
}

/// Why a capture failed.
#[derive(Clone, Copy, Debug, PartialEq, Eq, Structural)]
pub enum CaptureFault {
    /// Not one buffer could be handed to the output port.
    NoBuffersAvailable,
    /// The trigger was refused. The pipeline stands; the caller may try again.
    CaptureTriggerFailed,
    /// Another native call reported `status`.
    Native { status: u32, context: CaptureContext },
}

/// Where a capture stands, with what it has to remember there.
#[derive(Clone, Copy, Debug, PartialEq, Eq, Structural)]
pub enum Phase {
    /// Nothing done yet: the output port is to be enabled.
    Idle,
    /// The port is enabled and is being primed. Buffer `id` has been offered
    /// to it; `remaining` more wait to be offered; `any_sent` tells whether
    /// the port has taken one so far.
    Sending { id: usize, remaining: usize, any_sent: bool },
    /// The port holds buffers: the capture is to be triggered.
    Armed,
    /// Triggered: the frame is on its way.
    Capturing,
    /// The frame is complete: the port is to be disabled.
    Draining,
    /// The port is disabled: the output is to be flushed and finalized.
    Finalizing,
    /// The capture is done.
    Complete,
    /// The capture failed.
    Failed { fault: CaptureFault },
}

/// What the caller reports to the session.
#[derive(Clone, Copy, Debug, PartialEq, Eq, Structural)]
pub enum CaptureEvent {
    /// The output port was asked to start, with the completion callback.
    PortEnabled { status: u32 },
    /// The buffer offered last was sent to the port.
    BufferSent { status: u32 },
    /// The capture parameter was set.
    Triggered { status: u32 },
    /// The port gave buffer `id` to the callback.
    BufferDelivered { id: usize, end_of_frame: bool },
    /// The output port was asked to stop.
    PortDisabled { status: u32 },
    /// The output was flushed and finalized.
    Finalized { status: u32 },
}

/// What the session asks of the caller.
#[derive(Clone, Copy, Debug, PartialEq, Eq, Structural)]
pub enum CaptureAction {
    /// Enable the encoder's output port and register the completion callback.
    EnablePort,
    /// Send buffer `id` to the output port.
    SendBuffer { id: usize },
    /// Set the parameter on the port: this starts the capture.
    Trigger { port: PortId, parameter: Parameter },
    /// Block until the completion signal is posted.
    Wait,
    /// Hand the payload of buffer `id` to the output. Where `release` is set
    /// the buffer is back in the pool: release its handle. Where `signal` is
    /// set the frame is complete: post the completion signal.
    Recycle { id: usize, release: bool, signal: bool },
    /// Disable the encoder's output port.
    DisablePort,
    /// Flush what is written of the output and finalize it.
    Finalize,
    /// Nothing: the capture is over, or the event does not belong here.
    Nothing,
}

impl CaptureFault {
    /// The fault as an error of the library, where it is one.
    pub open spec fn error_spec(self) -> Option<CameraError> {
        match self {
            CaptureFault::NoBuffersAvailable => Some(CameraError::NoBuffersAvailable),
            CaptureFault::CaptureTriggerFailed => Some(CameraError::CaptureTriggerFailed),
            CaptureFault::Native { .. } => None,
        }
    }

    /// The fault as an error of the library. A status of another native call
    /// is no such error.
    pub fn error(&self) -> (error: Option<CameraError>)
        ensures
            error == self.error_spec(),
    {
        match self {
            CaptureFault::NoBuffersAvailable => Some(CameraError::NoBuffersAvailable),
            CaptureFault::CaptureTriggerFailed => Some(CameraError::CaptureTriggerFailed),
            CaptureFault::Native { .. } => None,
        }
    }
}

/// The parameter that starts a capture.
pub open spec fn trigger_parameter() -> Parameter {
    Parameter::new_spec(ParameterId::Capture, Payload::Boolean(true))
}

impl Phase {
    /// The state the phase belongs to. Priming is part of arming, so a
    /// session that sends buffers is still idle; flushing is part of draining.
    pub open spec fn state(self) -> CaptureState {
        match self {
            Phase::Idle => CaptureState::Idle,
            Phase::Sending { .. } => CaptureState::Idle,
            Phase::Armed => CaptureState::Armed,
            Phase::Capturing => CaptureState::Capturing,
            Phase::Draining => CaptureState::Draining,
            Phase::Finalizing => CaptureState::Draining,
            Phase::Complete => CaptureState::Complete,
            Phase::Failed { .. } => CaptureState::Error,
        }
    }

    /// The action a session in this phase waits on.
    pub open spec fn pending(self) -> CaptureAction {
        match self {
            Phase::Idle => CaptureAction::EnablePort,
            Phase::Sending { id, .. } => CaptureAction::SendBuffer { id },
            Phase::Armed => CaptureAction::Trigger {
                port: PortId::CaptureStill,
                parameter: trigger_parameter(),
            },
            Phase::Capturing => CaptureAction::Wait,
            Phase::Draining => CaptureAction::DisablePort,
            Phase::Finalizing => CaptureAction::Finalize,
            Phase::Complete => CaptureAction::Nothing,
            Phase::Failed { .. } => CaptureAction::Nothing,
        }
    }

    /// The phase after a delivered buffer: the first end of frame that
    /// arrives while capturing completes the frame; nothing else moves.
    pub open spec fn after_delivery(self, end_of_frame: bool) -> Phase {
        if self is Capturing && end_of_frame {
            Phase::Draining
        } else {
            self
        }
    }
}

/// Priming, one buffer on: while buffers remain to be offered and one waits
/// in the pool, the next is taken and offered. Otherwise priming is over:
/// the session is armed if the port took at least one buffer, and has
/// failed for want of buffers if it took none.
pub open spec fn next_offer(pool: PoolView, remaining: usize, any_sent: bool) -> (Phase, PoolView) {
    if remaining > 0 && pool.queue.len() > 0 {
        (
            Phase::Sending {
                id: pool.queue[0] as usize,
                remaining: (remaining - 1) as usize,
                any_sent,
            },
            pool.acquire(),
        )
    } else if any_sent {
        (Phase::Armed, pool)
    } else {
        (Phase::Failed { fault: CaptureFault::NoBuffersAvailable }, pool)
    }
}

/// The session and the pool after `event`.
///
/// - A delivered buffer goes back to the pool in every phase. It completes
///   the frame if it carries the end-of-frame flag while the session is
///   capturing.
/// - Every other event counts only in the phase that waits for it, and is
///   ignored elsewhere.
/// - A buffer that the port refuses goes back to the pool and is not
///   offered again in this capture.
/// - A refused trigger fails the capture as such; any other refused call
///   fails it with the status and the call.
pub open spec fn step_spec(phase: Phase, pool: PoolView, event: CaptureEvent) -> (Phase, PoolView) {
    match event {
        CaptureEvent::BufferDelivered { id, end_of_frame } => (
            phase.after_delivery(end_of_frame),
            pool.release(id as int),
        ),
        CaptureEvent::PortEnabled { status } => if phase is Idle {
            if status == STATUS_SUCCESS {
                next_offer(pool, pool.queue.len() as usize, false)
            } else {
                (
                    Phase::Failed {
                        fault: CaptureFault::Native { status, context: CaptureContext::EnablePort },
                    },
                    pool,
                )
            }
        } else {
            (phase, pool)
        },
        CaptureEvent::BufferSent { status } => match phase {
            Phase::Sending { id, remaining, any_sent } => if status == STATUS_SUCCESS {
                next_offer(pool, remaining, true)
            } else {
                next_offer(pool.release(id as int), remaining, any_sent)
            },
            _ => (phase, pool),
        },
        CaptureEvent::Triggered { status } => if phase is Armed {
            if status == STATUS_SUCCESS {
                (Phase::Capturing, pool)
            } else {
                (Phase::Failed { fault: CaptureFault::CaptureTriggerFailed }, pool)
            }
        } else {
            (phase, pool)
        },
        CaptureEvent::PortDisabled { status } => if phase is Draining {
            if status == STATUS_SUCCESS {
                (Phase::Finalizing, pool)
            } else {
                (
                    Phase::Failed {
                        fault: CaptureFault::Native { status, context: CaptureContext::DisablePort },
                    },
                    pool,
                )
            }
        } else {
            (phase, pool)
        },
        CaptureEvent::Finalized { status } => if phase is Finalizing {
            if status == STATUS_SUCCESS {
                (Phase::Complete, pool)
            } else {
                (
                    Phase::Failed {
                        fault: CaptureFault::Native { status, context: CaptureContext::Finalize },
                    },
                    pool,
                )
            }
        } else {
            (phase, pool)
        },
    }
}

/// The event belongs to the phase: it is a delivered buffer, or the answer
/// to the action the phase waits on.
pub open spec fn expected(phase: Phase, event: CaptureEvent) -> bool {
    match event {
        CaptureEvent::BufferDelivered { .. } => true,
        CaptureEvent::PortEnabled { .. } => phase is Idle,
        CaptureEvent::BufferSent { .. } => phase is Sending,
        CaptureEvent::Triggered { .. } => phase is Armed,
        CaptureEvent::PortDisabled { .. } => phase is Draining,
        CaptureEvent::Finalized { .. } => phase is Finalizing,
    }
}

/// What the caller is told after `event`: for a delivered buffer, what to do
/// with it; for an answer the session waited on, the next action; for
/// anything else, nothing.
pub open spec fn action_spec(phase: Phase, pool: PoolView, event: CaptureEvent) -> CaptureAction {
    match event {
        CaptureEvent::BufferDelivered { id, end_of_frame } => CaptureAction::Recycle {
            id,
            release: pool.in_flight.contains(id as int),
            signal: phase is Capturing && end_of_frame,
        },
        _ => if expected(phase, event) {
            step_spec(phase, pool, event).0.pending()
        } else {
            CaptureAction::Nothing
        },
    }
}

/// No event loses a buffer or makes one up: a well-formed pool stays
/// well-formed, with the capacity and the buffer size it had.
pub proof fn lemma_step_keeps_pool(phase: Phase, pool: PoolView, event: CaptureEvent)
    requires
        pool.wf(),
    ensures
        step_spec(phase, pool, event).1.wf(),
        step_spec(phase, pool, event).1.capacity == pool.capacity,
        step_spec(phase, pool, event).1.buffer_size == pool.buffer_size,
{
    match event {
        CaptureEvent::BufferDelivered { id, .. } => {
            crate::pool::lemma_release_keeps_wf(pool, id as int);
        },
        CaptureEvent::PortEnabled { .. } => {
            if pool.queue.len() > 0 {
                crate::pool::lemma_acquire_keeps_wf(pool);
            }
        },
        CaptureEvent::BufferSent { .. } => {
            if let Phase::Sending { id, .. } = phase {
                crate::pool::lemma_release_keeps_wf(pool, id as int);
                if pool.release(id as int).queue.len() > 0 {
                    crate::pool::lemma_acquire_keeps_wf(pool.release(id as int));
                }
                if pool.queue.len() > 0 {
                    crate::pool::lemma_acquire_keeps_wf(pool);
                }
            }
        },
        _ => {},
    }
}

/// The parameter that starts a capture is fit to be handed to a port.
pub proof fn lemma_trigger_is_well_formed()
    ensures
        trigger_parameter().well_formed(),
{
}

/// Whether the action posts the completion signal.
pub open spec fn posts_signal(action: CaptureAction) -> bool {
    action matches CaptureAction::Recycle { signal, .. } && signal
}

/// The event is a delivered buffer that ends the frame.
pub open spec fn ends_frame(event: CaptureEvent) -> bool {
    event matches CaptureEvent::BufferDelivered { end_of_frame, .. } && end_of_frame
}

/// Every one of `events` is a delivered buffer.
pub open spec fn deliveries_only(events: Seq<CaptureEvent>) -> bool {
    forall|k: int| 0 <= k < events.len() ==> #[trigger] events[k] is BufferDelivered
}

/// Every one of `events` tells that the port took the buffer offered.
pub open spec fn all_sent(events: Seq<CaptureEvent>) -> bool {
    forall|k: int|
        0 <= k < events.len() ==> #[trigger] events[k] == (CaptureEvent::BufferSent {
            status: STATUS_SUCCESS,
        })
}

/// The deliveries of one frame: any number of buffers without the
/// end-of-frame flag, then one buffer with it.
pub open spec fn one_frame(events: Seq<CaptureEvent>) -> bool {
    &&& events.len() > 0
    &&& deliveries_only(events)
    &&& ends_frame(events.last())
    &&& forall|k: int| 0 <= k < events.len() - 1 ==> !ends_frame(#[trigger] events[k])
}

/// The frame of the capture is complete, or the capture has failed: no
/// signal is to come.
pub open spec fn past_capture(phase: Phase) -> bool {
    phase is Draining || phase is Finalizing || phase is Complete || phase is Failed
}

/// The session and the pool after each of `events` in turn.
pub open spec fn run(phase: Phase, pool: PoolView, events: Seq<CaptureEvent>) -> (Phase, PoolView)
    decreases events.len(),
{
    if events.len() == 0 {
        (phase, pool)
    } else {
        run(
            step_spec(phase, pool, events[0]).0,
            step_spec(phase, pool, events[0]).1,
            events.drop_first(),
        )
    }
}

/// How often the completion signal is posted while a session that starts in
/// `phase` is told `events`, in that order.
pub open spec fn signals_in(phase: Phase, pool: PoolView, events: Seq<CaptureEvent>) -> nat
    decreases events.len(),
{
    if events.len() == 0 {
        0
    } else {
        let posted: nat = if posts_signal(action_spec(phase, pool, events[0])) {
            1
        } else {
            0
        };
        posted + signals_in(
            step_spec(phase, pool, events[0]).0,
            step_spec(phase, pool, events[0]).1,
            events.drop_first(),
        )
    }
}

/// Priming goes through the pool: a session that has offered one buffer and
/// has `remaining` more to offer is armed once the port has taken them
/// all, and by then that many buffers have left the pool's queue for the
/// port.
pub proof fn lemma_priming_sends_what_waits(
    id: usize,
    remaining: usize,
    any_sent: bool,
    pool: PoolView,
    events: Seq<CaptureEvent>,
)
    requires
        pool.wf(),
        remaining <= pool.queue.len(),
        events.len() == remaining + 1,
        all_sent(events),
    ensures
        run(Phase::Sending { id, remaining, any_sent }, pool, events).0 == Phase::Armed,
        run(Phase::Sending { id, remaining, any_sent }, pool, events).1.wf(),
        run(Phase::Sending { id, remaining, any_sent }, pool, events).1.capacity == pool.capacity,
        run(Phase::Sending { id, remaining, any_sent }, pool, events).1.queue.len()
            == pool.queue.len() - remaining,
    decreases remaining,
{
    let phase = Phase::Sending { id, remaining, any_sent };
    let rest = events.drop_first();
    assert(events[0] == CaptureEvent::BufferSent { status: STATUS_SUCCESS });
    let next = step_spec(phase, pool, events[0]);
    if remaining == 0 {
        assert(rest.len() == 0);
        assert(run(next.0, next.1, rest) == next);
    } else {
        crate::pool::lemma_acquire_keeps_wf(pool);
        assert forall|k: int| 0 <= k < rest.len() implies #[trigger] rest[k]
            == (CaptureEvent::BufferSent { status: STATUS_SUCCESS }) by {
            assert(rest[k] == events[k + 1]);
        }
        lemma_priming_sends_what_waits(
            pool.queue[0] as usize,
            (remaining - 1) as usize,
            true,
            pool.acquire(),
            rest,
        );
    }
}

/// Arming sends every buffer that waits: once the port is enabled and has
/// taken each buffer offered, the session is armed, no buffer waits any
/// more, and the port holds them all.
pub proof fn lemma_arming_sends_every_buffer(pool: PoolView, events: Seq<CaptureEvent>)
    requires
        pool.wf(),
        0 < pool.queue.len() <= usize::MAX,
        events.len() == pool.queue.len() + 1,
        events[0] == (CaptureEvent::PortEnabled { status: STATUS_SUCCESS }),
        all_sent(events.drop_first()),
    ensures
        run(Phase::Idle, pool, events).0 == Phase::Armed,
        run(Phase::Idle, pool, events).1.wf(),
        run(Phase::Idle, pool, events).1.capacity == pool.capacity,
        run(Phase::Idle, pool, events).1.queue.len() == 0,
        run(Phase::Idle, pool, events).1.in_flight.len() == pool.capacity,
{
    let waiting = pool.queue.len() as usize;
    crate::pool::lemma_acquire_keeps_wf(pool);
    lemma_priming_sends_what_waits(
        pool.queue[0] as usize,
        (waiting - 1) as usize,
        false,
        pool.acquire(),
        events.drop_first(),
    );
    crate::pool::lemma_pool_accounts_for_every_buffer(run(Phase::Idle, pool, events).1);
}

/// Once the frame is complete or the capture has failed, nothing that the
/// session is told posts the signal.
pub proof fn lemma_no_signal_past_capture(phase: Phase, pool: PoolView, events: Seq<CaptureEvent>)
    requires
        past_capture(phase),
    ensures
        signals_in(phase, pool, events) == 0,
        past_capture(run(phase, pool, events).0),
    decreases events.len(),
{
    if events.len() > 0 {
        lemma_no_signal_past_capture(
            step_spec(phase, pool, events[0]).0,
            step_spec(phase, pool, events[0]).1,
            events.drop_first(),
        );
    }
}

/// In the life of a session the completion signal is posted at most once,
/// whatever the session is told, in whatever order.
pub proof fn lemma_one_signal_per_session(phase: Phase, pool: PoolView, events: Seq<CaptureEvent>)
    ensures
        signals_in(phase, pool, events) <= 1,
        signals_in(phase, pool, events) == 1 ==> past_capture(run(phase, pool, events).0),
    decreases events.len(),
{
    if events.len() > 0 {
        let next = step_spec(phase, pool, events[0]);
        if posts_signal(action_spec(phase, pool, events[0])) {
            lemma_no_signal_past_capture(next.0, next.1, events.drop_first());
        } else {
            lemma_one_signal_per_session(next.0, next.1, events.drop_first());
        }
    }
}

/// Buffers that are delivered to a session that is not capturing post no
/// signal and leave the session in its phase.
pub proof fn lemma_no_signal_outside_capture(phase: Phase, pool: PoolView, events: Seq<CaptureEvent>)
    requires
        !(phase is Capturing),
        deliveries_only(events),
    ensures
        signals_in(phase, pool, events) == 0,
        run(phase, pool, events).0 == phase,
    decreases events.len(),
{
    if events.len() > 0 {
        let rest = events.drop_first();
        assert(events[0] is BufferDelivered);
        assert forall|k: int| 0 <= k < rest.len() implies #[trigger] rest[k]
            is BufferDelivered by {
            assert(rest[k] == events[k + 1]);
        }
        lemma_no_signal_outside_capture(phase, step_spec(phase, pool, events[0]).1, rest);
    }
}

/// While buffers are delivered, the completion signal is posted if and only
/// if the session is capturing and one of the buffers ends the frame.
pub proof fn lemma_signal_needs_end_of_frame(phase: Phase, pool: PoolView, events: Seq<CaptureEvent>)
    requires
        deliveries_only(events),
    ensures
        signals_in(phase, pool, events) == 1 <==> phase is Capturing && exists|k: int|
            0 <= k < events.len() && ends_frame(#[trigger] events[k]),
        signals_in(phase, pool, events) == 1 ==> run(phase, pool, events).0 is Draining,
    decreases events.len(),
{
    lemma_one_signal_per_session(phase, pool, events);
    if events.len() > 0 {
        let rest = events.drop_first();
        let next = step_spec(phase, pool, events[0]);
        assert(events[0] is BufferDelivered);
        assert forall|k: int| 0 <= k < rest.len() implies #[trigger] rest[k]
            is BufferDelivered by {
            assert(rest[k] == events[k + 1]);
        }
        if phase is Capturing && !ends_frame(events[0]) {
            lemma_signal_needs_end_of_frame(phase, next.1, rest);
            if exists|k: int| 0 <= k < rest.len() && ends_frame(#[trigger] rest[k]) {
                let k = choose|k: int| 0 <= k < rest.len() && ends_frame(#[trigger] rest[k]);
                assert(ends_frame(events[k + 1]));
            }
            if exists|k: int| 0 <= k < events.len() && ends_frame(#[trigger] events[k]) {
                let k = choose|k: int| 0 <= k < events.len() && ends_frame(#[trigger] events[k]);
                assert(ends_frame(rest[k - 1]));
            }
        } else if phase is Capturing {
            lemma_no_signal_outside_capture(Phase::Draining, next.1, rest);
            assert(ends_frame(events[0]));
        } else {
            lemma_no_signal_outside_capture(phase, next.1, rest);
        }
    }
}

/// In a triggered capture the completion signal is posted exactly once,
/// however many buffers come before the one that ends the frame. No
/// delivery before the last posts it: until then the session keeps
/// capturing. After the last the session drains.
pub proof fn lemma_signal_exactly_once(pool: PoolView, events: Seq<CaptureEvent>)
    requires
        one_frame(events),
    ensures
        signals_in(Phase::Capturing, pool, events) == 1,
        signals_in(Phase::Capturing, pool, events.drop_last()) == 0,
        run(Phase::Capturing, pool, events.drop_last()).0 is Capturing,
        run(Phase::Capturing, pool, events).0 is Draining,
    decreases events.len(),
{
    let rest = events.drop_first();
    let next = step_spec(Phase::Capturing, pool, events[0]);
    assert(events[0] is BufferDelivered);
    if events.len() == 1 {
        assert(ends_frame(events[0]));
        assert(rest.len() == 0);
        assert(events.drop_last().len() == 0);
        lemma_no_signal_past_capture(next.0, next.1, rest);
        assert(run(next.0, next.1, rest) == next);
    } else {
        assert(!ends_frame(events[0]));
        assert(rest.last() == events.last());
        assert forall|k: int| 0 <= k < rest.len() implies #[trigger] rest[k]
            is BufferDelivered by {
            assert(rest[k] == events[k + 1]);
        }
        assert forall|k: int| 0 <= k < rest.len() - 1 implies !ends_frame(
            #[trigger] rest[k],
        ) by {
            assert(rest[k] == events[k + 1]);
        }
        lemma_signal_exactly_once(next.1, rest);
        assert(events.drop_last().drop_first() =~= rest.drop_last());
        assert(events.drop_last()[0] == events[0]);
    }
}

/// Telling a session `first` and then `then` is telling it the two in one:
/// it ends in the same phase with the same pool, and the signals of both
/// parts add up.
pub proof fn lemma_run_in_parts(
    phase: Phase,
    pool: PoolView,
    first: Seq<CaptureEvent>,
    then: Seq<CaptureEvent>,
)
    ensures
        run(phase, pool, first + then) == run(
            run(phase, pool, first).0,
            run(phase, pool, first).1,
            then,
        ),
        signals_in(phase, pool, first + then) == signals_in(phase, pool, first) + signals_in(
            run(phase, pool, first).0,
            run(phase, pool, first).1,
            then,
        ),
    decreases first.len(),
{
    if first.len() == 0 {
        assert(first + then =~= then);
    } else {
        assert((first + then).drop_first() =~= first.drop_first() + then);
        assert((first + then)[0] == first[0]);
        lemma_run_in_parts(
            step_spec(phase, pool, first[0]).0,
            step_spec(phase, pool, first[0]).1,
            first.drop_first(),
            then,
        );
    }
}

/// Only a delivered buffer posts the signal: events of any other kind post
/// none.
pub proof fn lemma_no_signal_without_delivery(
    phase: Phase,
    pool: PoolView,
    events: Seq<CaptureEvent>,
)
    requires
        forall|k: int| 0 <= k < events.len() ==> !(#[trigger] events[k] is BufferDelivered),
    ensures
        signals_in(phase, pool, events) == 0,
    decreases events.len(),
{
    if events.len() > 0 {
        let rest = events.drop_first();
        assert(!(events[0] is BufferDelivered));
        assert forall|k: int| 0 <= k < rest.len() implies !(#[trigger] rest[k]
            is BufferDelivered) by {
            assert(rest[k] == events[k + 1]);
        }
        lemma_no_signal_without_delivery(
            step_spec(phase, pool, events[0]).0,
            step_spec(phase, pool, events[0]).1,
            rest,
        );
    }
}

/// A capture in which every call succeeds runs to its end: the port is
/// enabled and takes every buffer that waits, the capture is triggered,
/// the frame is delivered, the port is disabled and the output finalized.
/// The session is then complete, the signal has been posted exactly once,
/// and no buffer is lost.
pub proof fn lemma_capture_completes(
    pool: PoolView,
    arming: Seq<CaptureEvent>,
    frame: Seq<CaptureEvent>,
)
    requires
        pool.wf(),
        0 < pool.queue.len() <= usize::MAX,
        arming.len() == pool.queue.len() + 1,
        arming[0] == (CaptureEvent::PortEnabled { status: STATUS_SUCCESS }),
        all_sent(arming.drop_first()),
        one_frame(frame),
    ensures
        ({
            let events = arming + seq![CaptureEvent::Triggered { status: STATUS_SUCCESS }] + frame
                + seq![
                CaptureEvent::PortDisabled { status: STATUS_SUCCESS },
                CaptureEvent::Finalized { status: STATUS_SUCCESS },
            ];
            &&& run(Phase::Idle, pool, events).0 == Phase::Complete
            &&& signals_in(Phase::Idle, pool, events) == 1
            &&& run(Phase::Idle, pool, events).1.wf()
            &&& run(Phase::Idle, pool, events).1.capacity == pool.capacity
        }),
{
    let trigger = seq![CaptureEvent::Triggered { status: STATUS_SUCCESS }];
    let tail = seq![
        CaptureEvent::PortDisabled { status: STATUS_SUCCESS },
        CaptureEvent::Finalized { status: STATUS_SUCCESS },
    ];
    let armed = run(Phase::Idle, pool, arming);
    lemma_arming_sends_every_buffer(pool, arming);
    assert forall|k: int| 0 <= k < arming.len() implies !(#[trigger] arming[k]
        is BufferDelivered) by {
        if k > 0 {
            assert(arming.drop_first()[k - 1] == arming[k]);
        }
    }
    lemma_no_signal_without_delivery(Phase::Idle, pool, arming);

    let triggered = run(armed.0, armed.1, trigger);
    assert(trigger.drop_first().len() == 0);
    assert(triggered == (Phase::Capturing, armed.1)) by {
        let next = step_spec(armed.0, armed.1, trigger[0]);
        assert(run(next.0, next.1, trigger.drop_first()) == next);
    }
    lemma_no_signal_without_delivery(armed.0, armed.1, trigger);

    let drained = run(triggered.0, triggered.1, frame);
    lemma_signal_exactly_once(triggered.1, frame);
    lemma_deliveries_keep_queue(triggered.0, triggered.1, frame, 0);
    assert(drained.0 == Phase::Draining) by {
        lemma_signal_needs_end_of_frame(triggered.0, triggered.1, frame);
    }

    let done = run(drained.0, drained.1, tail);
    assert(done == (Phase::Complete, drained.1)) by {
        let one = step_spec(drained.0, drained.1, tail[0]);
        let rest = tail.drop_first();
        assert(rest[0] == tail[1]);
        let two = step_spec(one.0, one.1, rest[0]);
        assert(rest.drop_first().len() == 0);
        assert(run(two.0, two.1, rest.drop_first()) == two);
        assert(run(one.0, one.1, rest) == two);
    }
    lemma_no_signal_without_delivery(drained.0, drained.1, tail);

    lemma_run_in_parts(Phase::Idle, pool, arming, trigger);
    lemma_run_in_parts(Phase::Idle, pool, arming + trigger, frame);
    lemma_run_in_parts(Phase::Idle, pool, arming + trigger + frame, tail);
}

/// A buffer that waits in the pool still waits after any deliveries.
pub proof fn lemma_deliveries_keep_queue(
    phase: Phase,
    pool: PoolView,
    events: Seq<CaptureEvent>,
    id: int,
)
    requires
        pool.wf(),
        deliveries_only(events),
    ensures
        run(phase, pool, events).1.wf(),
        run(phase, pool, events).1.capacity == pool.capacity,
        pool.queue.contains(id) ==> run(phase, pool, events).1.queue.contains(id),
    decreases events.len(),
{
    if events.len() > 0 {
        let rest = events.drop_first();
        let next = step_spec(phase, pool, events[0]);
        assert(events[0] is BufferDelivered);
        lemma_step_keeps_pool(phase, pool, events[0]);
        assert forall|k: int| 0 <= k < rest.len() implies #[trigger] rest[k]
            is BufferDelivered by {
            assert(rest[k] == events[k + 1]);
        }
        if pool.queue.contains(id) {
            let i = choose|i: int| 0 <= i < pool.queue.len() && pool.queue[i] == id;
            assert(next.1.queue[i] == id);
        }
        lemma_deliveries_keep_queue(next.0, next.1, rest, id);
    }
}

/// Every buffer of the pool that is delivered is back in the pool
/// afterwards, whatever else is delivered before and after it.
pub proof fn lemma_delivered_buffers_return(
    phase: Phase,
    pool: PoolView,
    events: Seq<CaptureEvent>,
    k: int,
)
    requires
        pool.wf(),
        deliveries_only(events),
        0 <= k < events.len(),
    ensures
        run(phase, pool, events).1.wf(),
        run(phase, pool, events).1.capacity == pool.capacity,
        events[k] matches CaptureEvent::BufferDelivered { id, .. } && (id < pool.capacity ==> run(
            phase,
            pool,
            events,
        ).1.queue.contains(id as int)),
    decreases events.len(),
{
    let rest = events.drop_first();
    let next = step_spec(phase, pool, events[0]);
    assert(events[0] is BufferDelivered);
    assert(events[k] is BufferDelivered);
    lemma_step_keeps_pool(phase, pool, events[0]);
    assert forall|j: int| 0 <= j < rest.len() implies #[trigger] rest[j] is BufferDelivered by {
        assert(rest[j] == events[j + 1]);
    }
    if k > 0 {
        lemma_delivered_buffers_return(next.0, next.1, rest, k - 1);
        assert(rest[k - 1] == events[k]);
    } else {
        let id = events[0]->BufferDelivered_id as int;
        lemma_deliveries_keep_queue(next.0, next.1, rest, id);
        if 0 <= id < pool.capacity {
            if pool.in_flight.contains(id) {
                assert(next.1.queue[pool.queue.len() as int] == id);
            }
            assert(next.1.queue.contains(id));
        }
    }
}

/// The state of one capture request.
#[derive(Debug)]
pub struct CaptureSession {
    phase: Phase,
}

impl View for CaptureSession {
    type V = Phase;

    closed spec fn view(&self) -> Phase {
        self.phase
    }
}

impl CaptureSession {
    /// A session for a new request: idle, with nothing done.
    pub fn new() -> (session: CaptureSession)
        ensures
            session@ == Phase::Idle,
    {
        CaptureSession { phase: Phase::Idle }
    }

    /// Where the capture stands.
    pub fn phase(&self) -> (phase: Phase)
        ensures
            phase == self@,
    {
        self.phase
    }

    /// The state the capture is in.
    pub fn state(&self) -> (state: CaptureState)
        ensures
            state == self@.state(),
    {
        match self.phase {
            Phase::Idle => CaptureState::Idle,
            Phase::Sending { .. } => CaptureState::Idle,
            Phase::Armed => CaptureState::Armed,
            Phase::Capturing => CaptureState::Capturing,
            Phase::Draining => CaptureState::Draining,
            Phase::Finalizing => CaptureState::Draining,
            Phase::Complete => CaptureState::Complete,
            Phase::Failed { .. } => CaptureState::Error,
        }
    }

    /// Why the capture failed, if it did.
    pub fn fault(&self) -> (fault: Option<CaptureFault>)
        ensures
            fault == match self@ {
                Phase::Failed { fault } => Some(fault),
                _ => None,
            },
    {
        match self.phase {
            Phase::Failed { fault } => Some(fault),
            _ => None,
        }
    }

    /// The action the session waits on.
    pub fn pending(&self) -> (action: CaptureAction)
        ensures
            action == self@.pending(),
    {
        match self.phase {
            Phase::Idle => CaptureAction::EnablePort,
            Phase::Sending { id, .. } => CaptureAction::SendBuffer { id },
            Phase::Armed => CaptureAction::Trigger {
                port: PortId::CaptureStill,
                parameter: Parameter::new(ParameterId::Capture, Payload::Boolean(true)),
            },
            Phase::Capturing => CaptureAction::Wait,
            Phase::Draining => CaptureAction::DisablePort,
            Phase::Finalizing => CaptureAction::Finalize,
            Phase::Complete => CaptureAction::Nothing,
            Phase::Failed { .. } => CaptureAction::Nothing,
        }
    }

    /// Offers the next buffer to the port, or ends priming.
    fn offer_next(&mut self, pool: &mut BufferPool, remaining: usize, any_sent: bool)
        requires
            old(pool).wf(),
        ensures
            final(pool).wf(),
            final(self)@ == next_offer(old(pool)@, remaining, any_sent).0,
            final(pool)@ == next_offer(old(pool)@, remaining, any_sent).1,
    {
        if remaining > 0 {
            if let Some(id) = pool.acquire() {
                self.phase = Phase::Sending { id, remaining: remaining - 1, any_sent };
                return ;
            }
        }
        if any_sent {
            self.phase = Phase::Armed;
        } else {
            self.phase = Phase::Failed { fault: CaptureFault::NoBuffersAvailable };
        }
    }

    /// The completion callback: takes a delivered buffer back into the pool
    /// and tells whether it completes the frame.
    ///
    /// The buffer is released in every phase, so none is leaked, and only
    /// if the port holds it, so none is released twice. The signal is asked
    /// for only while the session is capturing and only by a buffer that
    /// ends the frame; the session then starts draining, so no later
    /// buffer can ask for it again.
    pub fn camera_port_callback(&mut self, pool: &mut BufferPool, id: usize, end_of_frame: bool) -> (action:
        CaptureAction)
        requires
            old(pool).wf(),
        ensures
            final(pool).wf(),
            final(self)@ == old(self)@.after_delivery(end_of_frame),
            final(pool)@ == old(pool)@.release(id as int),
            action == (CaptureAction::Recycle {
                id,
                release: old(pool)@.in_flight.contains(id as int),
                signal: old(self)@ is Capturing && end_of_frame,
            }),
    {
        let release = pool.release(id);
        let signal = match self.phase {
            Phase::Capturing => end_of_frame,
            _ => false,
        };
        if signal {
            self.phase = Phase::Draining;
        }
        CaptureAction::Recycle { id, release, signal }
    }

    /// Takes the capture one step on: `event` tells what came of the action
    /// the session waited on, or that the port delivered a buffer. Returns
    /// what the caller is to do next.
    pub fn step(&mut self, pool: &mut BufferPool, event: CaptureEvent) -> (action: CaptureAction)
        requires
            old(pool).wf(),
        ensures
            final(pool).wf(),
            final(self)@ == step_spec(old(self)@, old(pool)@, event).0,
            final(pool)@ == step_spec(old(self)@, old(pool)@, event).1,
            action == action_spec(old(self)@, old(pool)@, event),
    {
        let phase = self.phase;
        match event {
            CaptureEvent::BufferDelivered { id, end_of_frame } => {
                return self.camera_port_callback(pool, id, end_of_frame);
            },
            CaptureEvent::PortEnabled { status } => match phase {
                Phase::Idle => {
                    if status == STATUS_SUCCESS {
                        let waiting = pool.buffers_in_pool();
                        self.offer_next(pool, waiting, false);
                    } else {
                        self.phase = Phase::Failed {
                            fault: CaptureFault::Native {
                                status,
                                context: CaptureContext::EnablePort,
                            },
                        };
                    }
                },
                _ => {
                    return CaptureAction::Nothing;
                },
            },
            CaptureEvent::BufferSent { status } => match phase {
                Phase::Sending { id, remaining, any_sent } => {
                    if status == STATUS_SUCCESS {
                        self.offer_next(pool, remaining, true);
                    } else {
                        pool.release(id);
                        self.offer_next(pool, remaining, any_sent);
                    }
                },
                _ => {
                    return CaptureAction::Nothing;
                },
            },
            CaptureEvent::Triggered { status } => match phase {
                Phase::Armed => {
                    if status == STATUS_SUCCESS {
                        self.phase = Phase::Capturing;
                    } else {
                        self.phase = Phase::Failed { fault: CaptureFault::CaptureTriggerFailed };
                    }
                },
                _ => {
                    return CaptureAction::Nothing;
                },
            },
            CaptureEvent::PortDisabled { status } => match phase {
                Phase::Draining => {
                    if status == STATUS_SUCCESS {
                        self.phase = Phase::Finalizing;
                    } else {
                        self.phase = Phase::Failed {
                            fault: CaptureFault::Native {
                                status,
                                context: CaptureContext::DisablePort,
                            },
                        };
                    }
                },
                _ => {
                    return CaptureAction::Nothing;
                },
            },
            CaptureEvent::Finalized { status } => match phase {
                Phase::Finalizing => {
                    if status == STATUS_SUCCESS {
                        self.phase = Phase::Complete;
                    } else {
                        self.phase = Phase::Failed {
                            fault: CaptureFault::Native {
                                status,
                                context: CaptureContext::Finalize,
                            },
                        };
                    }
                },
                _ => {
                    return CaptureAction::Nothing;
                },
            },
        }
        self.pending()
    }
}

} // verus!
