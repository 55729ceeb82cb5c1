//! Event types shared by the input dispatcher, the gesture detector and the
//! computation worker.
//!
//! Time is carried as a millisecond reading of the dispatcher's monotonic
//! clock, stamped onto each raw event when it is polled.

use vstd::prelude::*;

verus! {

/// Whether a button or key went down or came up.
#[derive(Clone, Copy, Debug, PartialEq, Eq, Structural)]
pub enum ElementState {
    Pressed,
    Released,
}

/// Identity of a pointer button; only the primary (left) button takes part
/// in gesture detection.
#[derive(Clone, Copy, Debug, PartialEq, Eq, Structural)]
pub enum PointerButton {
    Left,
    Right,
    Middle,
}

/// One raw pointer event as the platform source delivers it.
#[derive(Clone, Copy, Debug, PartialEq, Eq, Structural)]
pub struct RawPointerEvent {
    pub button: PointerButton,
    pub action: ElementState,
    /// Millisecond reading of the dispatcher's clock when the event arrived.
    pub time_ms: u64,
}

/// A key on the keyboard; only the keys the dispatcher reacts to are named.
#[derive(Clone, Copy, Debug, PartialEq, Eq, Structural)]
pub enum Key {
    Escape,
    LetterF,
    Other(u32),
}

/// One raw platform event as one polling pass of the dispatcher sees it.
#[derive(Clone, Copy, Debug, PartialEq, Eq, Structural)]
pub enum RawEvent {
    /// A pointer button changed state.
    Pointer(RawPointerEvent),
    /// The user asked to close the window.
    CloseRequested,
    /// A key changed state.
    Keyboard { key: Key, action: ElementState },
    /// The window took a new size.
    Resized { width: u32, height: u32 },
    /// The cross-thread wakeup fired; it carries no input meaning and only
    /// ends a blocking platform wait.
    Awakened,
    /// Any other platform event; it has no meaning for the UI.
    Other,
}

/// One abstract input event, sent from the dispatcher to the computation
/// worker over the input channel. Ownership moves with the message.
#[derive(Clone, Copy, Debug, PartialEq, Eq, Structural)]
pub enum UiInputEvent {
    /// Synthetic periodic event: recompute even when no user input arrives.
    Heartbeat,
    /// Device input; the payload is the millisecond timestamp of the raw
    /// event it was converted from.
    DeviceInput(u64),
    /// The window took a new size.
    WindowResized { width: u32, height: u32 },
    /// The window is going away.
    WindowClosed,
    /// A key went down.
    KeyPress(Key),
}

} // verus!
