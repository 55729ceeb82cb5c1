//! The computation worker's loop logic: drain a batch of input events, fold
//! them into the UI model, and recompute the output at most once per batch.
//!
//! The worker owns the UI model on its own thread. The surrounding loop
//! performs the channel operations; every decision it takes — when to block,
//! when to recompute, what to send, when to terminate — is computed here.

use vstd::prelude::*;

use crate::clock::Clock;
use crate::events::{Key, UiInputEvent};
use crate::frame::RenderFrame;
use crate::telemetry::TelemetryReadings;

verus! {

/// The UI state model, owned by the computation worker's thread alone.
#[derive(Clone, Copy, Debug)]
pub struct UiModel {
    /// The wall-clock reading shown; refreshed on every recompute.
    pub clock: Clock,
    /// Window width the layout targets.
    pub width: u32,
    /// Window height the layout targets.
    pub height: u32,
    /// The key most recently pressed.
    pub last_key: Option<Key>,
    /// Timestamp carried by the device input most recently applied.
    pub last_device_ms: Option<u64>,
    /// Whether a window-close notice was applied.
    pub close_seen: bool,
}

impl UiModel {
    /// How one input event moves the model.
    pub open spec fn spec_apply(self, event: UiInputEvent) -> UiModel {
        match event {
            UiInputEvent::Heartbeat => self,
            UiInputEvent::DeviceInput(t) => UiModel { last_device_ms: Some(t), ..self },
            UiInputEvent::WindowResized { width, height } => UiModel { width, height, ..self },
            UiInputEvent::WindowClosed => UiModel { close_seen: true, ..self },
            UiInputEvent::KeyPress(k) => UiModel { last_key: Some(k), ..self },
        }
    }

    /// The frame one recompute of this model produces, given the telemetry
    /// sample read for it.
    pub open spec fn spec_render(self, sample: crate::telemetry::TelemetrySample) -> RenderFrame {
        RenderFrame {
            hour: self.clock.hour,
            minute: self.clock.minute,
            second: self.clock.second,
            width: self.width,
            height: self.height,
            telemetry: sample,
        }
    }

    /// A fresh model for a window of the given size.
    pub fn new(clock: Clock, width: u32, height: u32) -> (r: UiModel)
        ensures
            r.clock == clock,
            r.width == width,
            r.height == height,
            r.last_key is None,
            r.last_device_ms is None,
            !r.close_seen,
    {
        UiModel { clock, width, height, last_key: None, last_device_ms: None, close_seen: false }
    }

    /// Applies one input event to the model.
    pub fn apply(&mut self, event: &UiInputEvent)
        ensures
            *final(self) == old(self).spec_apply(*event),
    {
        match *event {
            UiInputEvent::Heartbeat => {},
            UiInputEvent::DeviceInput(t) => {
                self.last_device_ms = Some(t);
            },
            UiInputEvent::WindowResized { width, height } => {
                self.width = width;
                self.height = height;
            },
            UiInputEvent::WindowClosed => {
                self.close_seen = true;
            },
            UiInputEvent::KeyPress(k) => {
                self.last_key = Some(k);
            },
        }
    }
}

/// The model after applying a whole batch of events, in order.
pub open spec fn spec_apply_all(m: UiModel, events: Seq<UiInputEvent>) -> UiModel
    decreases events.len(),
{
    if events.len() == 0 {
        m
    } else {
        spec_apply_all(m.spec_apply(events[0]), events.drop_first())
    }
}

/// What a blocking receive on the input channel came back with.
#[derive(Clone, Copy, Debug)]
pub enum RecvOutcome {
    /// A message arrived.
    Message(UiInputEvent),
    /// The sender is gone and the channel reports end of stream.
    Closed,
}

/// What one worker iteration decided.
#[derive(Clone, Copy, Debug)]
pub enum WorkerStep {
    /// The input channel closed: the worker's loop ends, gracefully.
    Terminated,
    /// Keep looping; `frame` holds newly computed output to send, if any.
    Continue { frame: Option<RenderFrame> },
}

/// How many frames one step asks to send: never more than one.
pub open spec fn spec_frames_of(step: WorkerStep) -> nat {
    match step {
        WorkerStep::Terminated => 0,
        WorkerStep::Continue { frame } => if frame is Some {
            1nat
        } else {
            0nat
        },
    }
}

/// The worker's whole private state between iterations.
#[derive(Clone, Copy, Debug)]
pub struct WorkerState {
    /// The UI model.
    pub model: UiModel,
    /// Whether a recomputation is pending from the previous iteration, as
    /// widgets may need one more pass to settle after input; set at startup
    /// so the first output is always computed.
    pub needs_update: bool,
    /// The frame most recently sent, for suppressing unchanged output.
    pub last_sent: Option<RenderFrame>,
}

impl WorkerState {
    /// The state the worker starts with.
    pub fn new(model: UiModel) -> (r: WorkerState)
        ensures
            r.model == model,
            r.needs_update,
            r.last_sent is None,
    {
        WorkerState { model, needs_update: true, last_sent: None }
    }

    /// Whether the next iteration, having drained `drained_len` events, must
    /// block on the channel: only when it has nothing at all to do.
    pub open spec fn spec_must_block(self, drained_len: nat) -> bool {
        drained_len == 0 && !self.needs_update
    }
}

/// The recompute tail of an iteration: refresh the model's clock, render a
/// frame from the model and the telemetry sample, and offer it for sending
/// only when it differs from the frame last sent.
pub open spec fn spec_recompute(state: WorkerState, now: Clock, readings: TelemetryReadings) -> (
    WorkerState,
    WorkerStep,
) {
    let model = UiModel { clock: now, ..state.model };
    let frame = model.spec_render(readings.spec_normalize());
    let fresh = state.last_sent != Some(frame);
    (
        WorkerState { model, needs_update: true, last_sent: Some(frame) },
        WorkerStep::Continue { frame: if fresh {
            Some(frame)
        } else {
            None
        } },
    )
}

/// One whole worker iteration over the drained batch, the outcome of the
/// blocking receive where one was needed, and the collaborators' inputs for
/// a recompute: the clock reading and the telemetry readings.
pub open spec fn spec_worker_iteration(
    state: WorkerState,
    drained: Seq<UiInputEvent>,
    blocked: Option<RecvOutcome>,
    now: Clock,
    readings: TelemetryReadings,
) -> (WorkerState, WorkerStep) {
    let must_block = state.spec_must_block(drained.len());
    if must_block && blocked == Some(RecvOutcome::Closed) {
        (state, WorkerStep::Terminated)
    } else {
        let batch = if must_block {
            match blocked {
                Some(RecvOutcome::Message(e)) => seq![e],
                _ => Seq::empty(),
            }
        } else {
            drained
        };
        let model = spec_apply_all(state.model, batch);
        if batch.len() > 0 {
            spec_recompute(WorkerState { model, ..state }, now, readings)
        } else {
            (WorkerState { model, needs_update: false, ..state }, WorkerStep::Continue { frame: None })
        }
    }
}

/// Applying a one-event batch is applying the one event.
proof fn lemma_apply_all_singleton(m: UiModel, e: UiInputEvent)
    ensures
        spec_apply_all(m, seq![e]) == m.spec_apply(e),
{
    assert(seq![e].drop_first() =~= Seq::<UiInputEvent>::empty());
    assert(spec_apply_all(m.spec_apply(e), Seq::<UiInputEvent>::empty()) == m.spec_apply(e));
}

/// Whether a frame equal to `b` was already sent as `a`.
fn same_frame(a: &Option<RenderFrame>, b: &RenderFrame) -> (r: bool)
    ensures
        r == (*a == Some(*b)),
{
    match a {
        Some(f) => *f == *b,
        None => false,
    }
}

fn recompute(state: &mut WorkerState, now: Clock, readings: &TelemetryReadings) -> (r: WorkerStep)
    ensures
        (*final(state), r) == spec_recompute(*old(state), now, *readings),
{
    state.model.clock = now;
    let sample = readings.normalize();
    let frame = RenderFrame {
        hour: state.model.clock.hour,
        minute: state.model.clock.minute,
        second: state.model.clock.second,
        width: state.model.width,
        height: state.model.height,
        telemetry: sample,
    };
    let fresh = !same_frame(&state.last_sent, &frame);
    state.needs_update = true;
    state.last_sent = Some(frame);
    WorkerStep::Continue { frame: if fresh {
        Some(frame)
    } else {
        None
    } }
}

/// One iteration of the worker's loop. `drained` holds everything a
/// non-blocking drain of the input channel produced, in arrival order;
/// `blocked` holds the outcome of the one blocking receive, which the caller
/// performs exactly when the iteration has nothing to do (empty batch, no
/// recomputation pending). The worker recomputes at most once per batch,
/// however many events the batch holds, and a closed channel terminates it
/// within this one receive, as a graceful end, never as an error.
pub fn worker_iteration(
    state: &mut WorkerState,
    drained: &Vec<UiInputEvent>,
    blocked: Option<RecvOutcome>,
    now: Clock,
    readings: &TelemetryReadings,
) -> (r: WorkerStep)
    requires
        blocked is Some <==> old(state).spec_must_block(drained@.len()),
    ensures
        (*final(state), r) == spec_worker_iteration(*old(state), drained@, blocked, now, *readings),
        (blocked matches Some(RecvOutcome::Closed)) ==> (r is Terminated && *final(state) == *old(
            state,
        )),
        r is Terminated ==> (blocked matches Some(RecvOutcome::Closed)),
        spec_frames_of(r) <= 1,
{
    let must_block = drained.len() == 0 && !state.needs_update;
    if must_block {
        match blocked {
            Some(RecvOutcome::Closed) => WorkerStep::Terminated,
            Some(RecvOutcome::Message(e)) => {
                proof {
                    lemma_apply_all_singleton(state.model, e);
                }
                state.model.apply(&e);
                recompute(state, now, readings)
            },
            None => WorkerStep::Continue { frame: None },
        }
    } else {
        let ghost s0 = *state;
        let n = drained.len();
        let mut i: usize = 0;
        proof {
            assert(drained@.skip(0) =~= drained@);
        }
        while i < n
            invariant
                i <= n,
                n == drained@.len(),
                spec_apply_all(state.model, drained@.skip(i as int)) == spec_apply_all(
                    s0.model,
                    drained@,
                ),
                state.needs_update == s0.needs_update,
                state.last_sent == s0.last_sent,
            decreases n - i,
        {
            proof {
                assert(drained@.skip(i as int).drop_first() =~= drained@.skip(i as int + 1));
                assert(drained@.skip(i as int)[0] == drained@[i as int]);
                assert(spec_apply_all(state.model, drained@.skip(i as int)) == spec_apply_all(
                    state.model.spec_apply(drained@[i as int]),
                    drained@.skip(i as int + 1),
                ));
            }
            let e = drained[i];
            state.model.apply(&e);
            i += 1;
        }
        proof {
            assert(drained@.skip(n as int) =~= Seq::<UiInputEvent>::empty());
        }
        if n > 0 {
            recompute(state, now, readings)
        } else {
            state.needs_update = false;
            WorkerStep::Continue { frame: None }
        }
    }
}

/// The rule the worker's loop applies after offering a frame: a failed send
/// means the render channel's receiver is gone, and a failed wakeup of the
/// dispatcher's platform wait means the same, so either one ends the worker,
/// gracefully.
pub fn should_terminate_after_send(send_ok: bool, wakeup_ok: bool) -> (r: bool)
    ensures
        r == (!send_ok || !wakeup_ok),
{
    !send_ok || !wakeup_ok
}

/// After the dispatcher's shutdown pair — a heartbeat followed directly by a
/// close request, which forwards the heartbeat and then drops the sender —
/// the worker computes at most one further frame: the batch holding the
/// heartbeat yields at most one, the settle pass after it yields none, and
/// the closed channel then terminates the worker.
pub proof fn lemma_shutdown_bounds_renders(
    state: WorkerState,
    now: Clock,
    readings: TelemetryReadings,
)
    ensures
        ({
            let (s1, step1) = spec_worker_iteration(
                state,
                seq![UiInputEvent::Heartbeat],
                None,
                now,
                readings,
            );
            let (s2, step2) = spec_worker_iteration(s1, Seq::empty(), None, now, readings);
            let (s3, step3) = spec_worker_iteration(
                s2,
                Seq::empty(),
                Some(RecvOutcome::Closed),
                now,
                readings,
            );
            spec_frames_of(step1) + spec_frames_of(step2) + spec_frames_of(step3) <= 1
                && step3 is Terminated
        }),
{
    lemma_apply_all_singleton(state.model, UiInputEvent::Heartbeat);
    let (s1, step1) = spec_worker_iteration(
        state,
        seq![UiInputEvent::Heartbeat],
        None,
        now,
        readings,
    );
    assert(spec_apply_all(s1.model, Seq::<UiInputEvent>::empty()) == s1.model);
    let (s2, step2) = spec_worker_iteration(s1, Seq::empty(), None, now, readings);
    assert(s2.spec_must_block(0));
}

} // verus!
