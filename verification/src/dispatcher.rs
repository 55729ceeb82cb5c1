//! The input dispatcher's loop logic: classify each polled platform event,
//! merge in a periodic heartbeat, and pace the loop.
//!
//! The dispatcher owns the platform event source, the gesture detector and
//! the termination flag on the drawing thread. The surrounding loop performs
//! the polling, sending, drawing and sleeping; every decision — what to
//! forward, when to toggle fullscreen, when to draw out of turn, when to
//! terminate, when a heartbeat is due and how long to sleep — is computed
//! here.

use vstd::prelude::*;

use crate::events::{ElementState, Key, RawEvent, UiInputEvent};
use crate::gesture::{ClickEvent, DoubleClicker};

verus! {

/// Heartbeat interval: the UI recomputes at least this often, in
/// milliseconds, even with no user input.
pub const HEARTBEAT_INTERVAL_MS: u64 = 500;

/// Minimum spacing between loop iterations, in milliseconds.
pub const POLL_RATE_MS: u64 = 250;

/// Everything one polled event asks the dispatcher's loop to do.
#[derive(Clone, Copy, Debug)]
pub struct DispatchAction {
    /// The abstract input event to send on the input channel, if the raw
    /// event has UI meaning.
    pub forward: Option<UiInputEvent>,
    /// Toggle fullscreen, a synchronous side effect on this thread's window.
    pub toggle_fullscreen: bool,
    /// Draw one pending frame right away, bypassing pacing; platforms can
    /// block the event loop during a resize, and a stale frame would stay
    /// frozen on screen.
    pub draw_now: bool,
    /// Set the termination flag: the loop ends after this iteration and the
    /// input channel's sender is dropped.
    pub terminate: bool,
}

/// Whether a raw event ends the dispatcher's life: a close request or an
/// escape-key release. Such an event governs the loop itself and is not
/// forwarded as input.
pub open spec fn spec_terminates(event: RawEvent) -> bool {
    match event {
        RawEvent::CloseRequested => true,
        RawEvent::Keyboard { key, action } => key is Escape && action is Released,
        _ => false,
    }
}

/// Best-effort conversion of a raw event to an abstract input event; events
/// with no UI meaning convert to nothing and are dropped.
pub open spec fn spec_convert(event: RawEvent) -> Option<UiInputEvent> {
    match event {
        RawEvent::Pointer(p) => Some(UiInputEvent::DeviceInput(p.time_ms)),
        RawEvent::Keyboard { key, action } => if action is Pressed {
            Some(UiInputEvent::KeyPress(key))
        } else {
            None
        },
        RawEvent::Resized { width, height } => Some(UiInputEvent::WindowResized { width, height }),
        _ => None,
    }
}

/// What one polled event does: the gesture detector sees it first and a
/// double click toggles fullscreen, as does a release of the F key; a
/// terminating event sets the flag and is not forwarded; a resize forces an
/// immediate draw; everything else is forwarded best-effort.
pub open spec fn spec_dispatch(clicker: DoubleClicker, event: RawEvent) -> (
    DoubleClicker,
    DispatchAction,
) {
    let (c2, click) = clicker.spec_update(event);
    let double = click == Some(ClickEvent::DoubleClick);
    if spec_terminates(event) {
        (
            c2,
            DispatchAction {
                forward: None,
                toggle_fullscreen: double,
                draw_now: false,
                terminate: true,
            },
        )
    } else {
        let fullscreen_key = match event {
            RawEvent::Keyboard { key, action } => key is LetterF && action is Released,
            _ => false,
        };
        (
            c2,
            DispatchAction {
                forward: spec_convert(event),
                toggle_fullscreen: double || fullscreen_key,
                draw_now: event matches RawEvent::Resized { .. },
                terminate: false,
            },
        )
    }
}

/// Converts a raw event to the abstract input event it forwards, if any.
pub fn convert_event(event: &RawEvent) -> (r: Option<UiInputEvent>)
    ensures
        r == spec_convert(*event),
{
    match *event {
        RawEvent::Pointer(p) => Some(UiInputEvent::DeviceInput(p.time_ms)),
        RawEvent::Keyboard { key, action } => match action {
            ElementState::Pressed => Some(UiInputEvent::KeyPress(key)),
            ElementState::Released => None,
        },
        RawEvent::Resized { width, height } => Some(UiInputEvent::WindowResized { width, height }),
        _ => None,
    }
}

/// Runs one polled event through the gesture detector and classifies it
/// into the actions the loop must take. A terminating event — close request
/// or escape release — is never forwarded; every other event is forwarded
/// exactly as `convert_event` has it.
pub fn dispatch_event(clicker: &mut DoubleClicker, event: &RawEvent) -> (r: DispatchAction)
    ensures
        (*final(clicker), r) == spec_dispatch(*old(clicker), *event),
        r.terminate == spec_terminates(*event),
        r.terminate ==> r.forward is None,
{
    let click = clicker.update(event);
    let double = match click {
        Some(ClickEvent::DoubleClick) => true,
        _ => false,
    };
    let terminate = match *event {
        RawEvent::CloseRequested => true,
        RawEvent::Keyboard { key: Key::Escape, action: ElementState::Released } => true,
        _ => false,
    };
    if terminate {
        DispatchAction { forward: None, toggle_fullscreen: double, draw_now: false, terminate: true }
    } else {
        let fullscreen_key = match *event {
            RawEvent::Keyboard { key: Key::LetterF, action: ElementState::Released } => true,
            _ => false,
        };
        let draw_now = match *event {
            RawEvent::Resized { .. } => true,
            _ => false,
        };
        DispatchAction {
            forward: convert_event(event),
            toggle_fullscreen: double || fullscreen_key,
            draw_now,
            terminate: false,
        }
    }
}

/// A heartbeat is due when at least a full interval has elapsed since the
/// reference point.
pub open spec fn spec_heartbeat_due(last_beat: int, now: int) -> bool {
    now - last_beat >= HEARTBEAT_INTERVAL_MS
}

/// The dispatcher's heartbeat clock: remembers when the last heartbeat was
/// enqueued.
#[derive(Clone, Copy, Debug)]
pub struct HeartbeatClock {
    /// When the last heartbeat was enqueued, in milliseconds.
    pub last_beat_ms: u64,
}

impl HeartbeatClock {
    /// A heartbeat clock starting its first interval now.
    pub fn new(now_ms: u64) -> (r: HeartbeatClock)
        ensures
            r.last_beat_ms == now_ms,
    {
        HeartbeatClock { last_beat_ms: now_ms }
    }

    /// One polling pass's heartbeat check: reports whether a heartbeat is
    /// due, and on emission resets the reference point to now, so the next
    /// heartbeat comes no less than a full interval later.
    pub fn poll(&mut self, now_ms: u64) -> (emit: bool)
        requires
            old(self).last_beat_ms <= now_ms,
        ensures
            emit == spec_heartbeat_due(old(self).last_beat_ms as int, now_ms as int),
            final(self).last_beat_ms == (if emit {
                now_ms
            } else {
                old(self).last_beat_ms
            }),
    {
        if now_ms - self.last_beat_ms >= HEARTBEAT_INTERVAL_MS {
            self.last_beat_ms = now_ms;
            true
        } else {
            false
        }
    }
}

/// How many heartbeats a run of polling passes at the given instants emits,
/// starting from a reference point.
pub open spec fn spec_beats(last_beat: int, polls: Seq<int>) -> nat
    decreases polls.len(),
{
    if polls.len() == 0 {
        0
    } else if spec_heartbeat_due(last_beat, polls[0]) {
        1 + spec_beats(polls[0], polls.drop_first())
    } else {
        spec_beats(last_beat, polls.drop_first())
    }
}

/// Polling instants on the regular pacing grid: one every `step`
/// milliseconds after `start`.
pub open spec fn spec_poll_grid(start: int, step: int, n: nat) -> Seq<int> {
    Seq::new(n, |i: int| start + step * (i + 1))
}

/// During an idle stretch polled on the pacing grid, exactly one heartbeat
/// is emitted per heartbeat interval elapsed — not multiple and not zero:
/// over `2 * n` polls spaced half an interval apart, exactly `n` heartbeats
/// fire.
pub proof fn lemma_one_heartbeat_per_interval(start: int, n: nat)
    ensures
        spec_beats(start, spec_poll_grid(start, POLL_RATE_MS as int, 2 * n)) == n,
    decreases n,
{
    let step = POLL_RATE_MS as int;
    let g = spec_poll_grid(start, step, 2 * n);
    if n == 0 {
        assert(g.len() == 0);
        assert(spec_beats(start, g) == 0);
    } else {
        let g1 = g.drop_first();
        let rest = g1.drop_first();
        assert(g[0] == start + step);
        assert(!spec_heartbeat_due(start, g[0]));
        assert(spec_beats(start, g) == spec_beats(start, g1));
        assert(g1[0] == g[1]);
        assert(g[1] == start + step * 2);
        assert(spec_heartbeat_due(start, g1[0]));
        assert(spec_beats(start, g1) == 1 + spec_beats(g1[0], rest));
        let mid = start + step * 2;
        assert(rest =~= spec_poll_grid(mid, step, (2 * (n - 1)) as nat)) by {
            assert forall|i: int| 0 <= i < rest.len() implies rest[i] == mid + step * (i + 1) by {
                assert(rest[i] == g[i + 2]);
            }
        }
        lemma_one_heartbeat_per_interval(mid, (n - 1) as nat);
        assert(spec_beats(mid, rest) == n - 1);
    }
}

/// How long the loop still has to sleep to keep iterations at least a
/// pacing interval apart: the unslept remainder of the interval, however
/// long the iteration's own work took.
pub fn pacing_sleep_ms(now_ms: u64, last_update_ms: u64) -> (r: u64)
    requires
        last_update_ms <= now_ms,
    ensures
        r == (if now_ms - last_update_ms < POLL_RATE_MS {
            POLL_RATE_MS - (now_ms - last_update_ms)
        } else {
            0
        }),
{
    let elapsed = now_ms - last_update_ms;
    if elapsed < POLL_RATE_MS {
        POLL_RATE_MS - elapsed
    } else {
        0
    }
}

} // verus!
