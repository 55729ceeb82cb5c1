//! Render frames and the frame consumer's backpressure policy: of all
//! frames queued while the consumer was busy, only the newest is drawn and
//! the stale ones are discarded. Frames are self-contained snapshots, so
//! dropping one has no side effect.

use vstd::prelude::*;

use crate::telemetry::TelemetrySample;

verus! {

/// One immutable snapshot of drawable output, produced by one recompute of
/// the UI model and safe to move across threads.
#[derive(Clone, Copy, Debug, PartialEq, Eq, Structural)]
pub struct RenderFrame {
    /// Clock display, hour of day.
    pub hour: u8,
    /// Clock display, minute.
    pub minute: u8,
    /// Clock display, second.
    pub second: u8,
    /// Window width the layout was computed for.
    pub width: u32,
    /// Window height the layout was computed for.
    pub height: u32,
    /// Normalized device telemetry shown beside the clock.
    pub telemetry: TelemetrySample,
}

/// Picks the frame to draw from everything pending on the render channel,
/// in send order: the newest pending frame, or nothing when none is
/// pending. Every earlier frame is discarded undrawn.
pub fn latest_frame(pending: &Vec<RenderFrame>) -> (r: Option<RenderFrame>)
    ensures
        pending@.len() == 0 ==> r is None,
        pending@.len() > 0 ==> r == Some(pending@.last()),
{
    if pending.len() == 0 {
        None
    } else {
        Some(pending[pending.len() - 1])
    }
}

} // verus!
