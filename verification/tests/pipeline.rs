use klok_core::clock::Clock;
use klok_core::dispatcher::dispatch_event;
use klok_core::events::{Key, RawEvent, UiInputEvent};
use klok_core::frame::{latest_frame, RenderFrame};
use klok_core::gesture::DoubleClicker;
use klok_core::telemetry::{TelemetryReadings, TelemetrySample};
use klok_core::worker::{RecvOutcome, UiModel, WorkerState, WorkerStep, worker_iteration};

fn no_readings() -> TelemetryReadings {
    TelemetryReadings {
        memory_used_bytes: None,
        memory_free_bytes: None,
        memory_total_bytes: None,
        memory_utilization_pct: None,
        gpu_utilization_pct: None,
        temperature_c: None,
        fan_speed_pct: None,
        power_usage_mw: None,
        memory_clock_mhz: None,
        graphics_clock_mhz: None,
        video_clock_mhz: None,
    }
}

fn zero_sample() -> TelemetrySample {
    no_readings().normalize()
}

fn frame(second: u8) -> RenderFrame {
    RenderFrame {
        hour: 12,
        minute: 0,
        second,
        width: 720,
        height: 1080,
        telemetry: zero_sample(),
    }
}

fn noon(second: u8) -> Clock {
    Clock { hour: 12, minute: 0, second }
}

fn fresh_state() -> WorkerState {
    WorkerState::new(UiModel::new(noon(0), 720, 1080))
}

#[test]
fn consumer_draws_only_the_newest_frame() {
    // Three frames accumulate before the consumer runs: it draws the third
    // and the first two are never seen.
    let pending = vec![frame(1), frame(2), frame(3)];
    assert_eq!(latest_frame(&pending), Some(frame(3)));
    assert_eq!(latest_frame(&Vec::new()), None);
    assert_eq!(latest_frame(&vec![frame(7)]), Some(frame(7)));
}

#[test]
fn closed_channel_terminates_the_worker() {
    let mut state = fresh_state();
    // The first pass works off the startup recompute; after it the worker
    // has nothing pending, so the next pass blocks — and the channel
    // reports closed.
    let step = worker_iteration(&mut state, &Vec::new(), None, noon(0), &no_readings());
    assert!(matches!(step, WorkerStep::Continue { .. }));
    let step = worker_iteration(
        &mut state,
        &Vec::new(),
        Some(RecvOutcome::Closed),
        noon(1),
        &no_readings(),
    );
    assert!(matches!(step, WorkerStep::Terminated));
}

#[test]
fn one_batch_recomputes_at_most_once() {
    let mut state = fresh_state();
    let batch = vec![
        UiInputEvent::Heartbeat,
        UiInputEvent::KeyPress(Key::Other(30)),
        UiInputEvent::DeviceInput(123),
        UiInputEvent::WindowResized { width: 800, height: 600 },
    ];
    let step = worker_iteration(&mut state, &batch, None, noon(5), &no_readings());
    match step {
        WorkerStep::Continue { frame: Some(f) } => {
            assert_eq!(f.second, 5);
            assert_eq!(f.width, 800);
            assert_eq!(f.height, 600);
            assert_eq!(f.telemetry, zero_sample());
        }
        other => panic!("expected one frame, got {:?}", other),
    }
    assert_eq!(state.model.last_device_ms, Some(123));
    assert_eq!(state.model.last_key, Some(Key::Other(30)));
}

#[test]
fn unchanged_output_is_not_resent() {
    let mut state = fresh_state();
    let batch = vec![UiInputEvent::Heartbeat];
    let step = worker_iteration(&mut state, &batch, None, noon(9), &no_readings());
    assert!(matches!(step, WorkerStep::Continue { frame: Some(_) }));
    // The same input at the same clock reading computes the same frame,
    // which is suppressed rather than resent.
    let step = worker_iteration(&mut state, &batch, None, noon(9), &no_readings());
    assert!(matches!(step, WorkerStep::Continue { frame: None }));
    // A new clock reading changes the frame, which is sent again.
    let step = worker_iteration(&mut state, &batch, None, noon(10), &no_readings());
    assert!(matches!(step, WorkerStep::Continue { frame: Some(_) }));
}

#[test]
fn heartbeat_then_close_renders_at_most_once_more() {
    // End to end: the dispatcher forwards a heartbeat, then a close request
    // sets its termination flag without forwarding, and the input channel
    // closes. The worker computes at most one more frame before it ends.
    let mut clicker = DoubleClicker::default();
    let mut channel: Vec<UiInputEvent> = Vec::new();

    channel.push(UiInputEvent::Heartbeat);
    let act = dispatch_event(&mut clicker, &RawEvent::CloseRequested);
    if let Some(ev) = act.forward {
        channel.push(ev);
    }
    assert!(act.terminate);
    assert_eq!(channel.len(), 1);

    let mut state = fresh_state();
    let mut frames_after_close = 0;
    let step = worker_iteration(&mut state, &channel, None, noon(3), &no_readings());
    if let WorkerStep::Continue { frame: Some(_) } = step {
        frames_after_close += 1;
    }
    // The settle pass after the batch computes nothing new.
    let step = worker_iteration(&mut state, &Vec::new(), None, noon(3), &no_readings());
    if let WorkerStep::Continue { frame: Some(_) } = step {
        frames_after_close += 1;
    }
    // The dropped sender now reads as end of stream.
    let step = worker_iteration(
        &mut state,
        &Vec::new(),
        Some(RecvOutcome::Closed),
        noon(3),
        &no_readings(),
    );
    assert!(matches!(step, WorkerStep::Terminated));
    assert!(frames_after_close <= 1);
}

#[test]
fn window_close_notice_marks_the_model() {
    let mut state = fresh_state();
    let batch = vec![UiInputEvent::WindowClosed];
    worker_iteration(&mut state, &batch, None, noon(0), &no_readings());
    assert!(state.model.close_seen);
}

#[test]
fn blocked_worker_wakes_on_one_message() {
    let mut state = fresh_state();
    // Work off the startup recompute so the worker would block.
    worker_iteration(&mut state, &Vec::new(), None, noon(0), &no_readings());
    let step = worker_iteration(
        &mut state,
        &Vec::new(),
        Some(RecvOutcome::Message(UiInputEvent::Heartbeat)),
        noon(4),
        &no_readings(),
    );
    match step {
        WorkerStep::Continue { frame: Some(f) } => assert_eq!(f.second, 4),
        other => panic!("expected a frame, got {:?}", other),
    }
}
