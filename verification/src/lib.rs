//! Control core of a continuously-redrawn interactive display.
//!
//! Two threads cooperate through one-way channels: an input dispatcher that
//! polls platform events, classifies pointer gestures and emits a periodic
//! heartbeat, and a computation worker that folds input events into a UI
//! model and produces render frames. A frame consumer on the dispatcher
//! thread draws only the newest pending frame, discarding stale ones.

use vstd::prelude::*;

pub mod clock;
pub mod dispatcher;
pub mod events;
pub mod frame;
pub mod gesture;
pub mod telemetry;
pub mod worker;

verus! {

/// Window width at startup.
pub const WIN_W: u32 = 720;

/// Window height at startup.
pub const WIN_H: u32 = 1080;

} // verus!
