//! Gesture detection: a pure state machine that classifies raw press/release
//! pairs of the primary pointer button into clicks and double clicks.
//!
//! The detector is owned by the input dispatcher's thread alone and is fed
//! every raw platform event in chronological order.

use vstd::prelude::*;

use crate::events::{ElementState, PointerButton, RawEvent, RawPointerEvent};

verus! {

/// Outcome of one gesture evaluation that recognized a click.
#[derive(Clone, Copy, Debug, PartialEq, Eq, Structural)]
pub enum ClickEvent {
    Click,
    DoubleClick,
}

/// Largest press-to-release gap, in milliseconds, that still counts as a
/// click; a slower release is a drag, not a click.
pub const CLICK_THRESHOLD_MS: u64 = 115;

/// Largest click-to-click gap, in milliseconds, within which a second click
/// counts as a double click.
pub const DOUBLE_CLICK_THRESHOLD_MS: u64 = 500;

/// Timing state of the gesture detector. A `None` timestamp means that the
/// corresponding event has not happened yet, so no click can be recognized
/// against it; this is what guards a fresh detector against a release whose
/// press it never saw.
#[derive(Clone, Copy, Debug)]
pub struct DoubleClicker {
    /// Press-to-release threshold, in milliseconds.
    pub between_pressed_released: u64,
    /// Click-to-click threshold, in milliseconds.
    pub between_clicks: u64,
    /// When the previous click was recognized.
    pub prev_click: Option<u64>,
    /// When the primary button last went down.
    pub prev_pressed: Option<u64>,
    /// When the primary button last came up.
    pub prev_released: Option<u64>,
}

impl DoubleClicker {
    /// A press/release pair is on record whose gap is under the threshold:
    /// the pair is a click.
    pub open spec fn spec_is_click(self) -> bool {
        match (self.prev_pressed, self.prev_released) {
            (Some(p), Some(r)) => p < r && r - p < self.between_pressed_released,
            _ => false,
        }
    }

    /// A previous click is on record and `now_ms` still falls inside its
    /// double-click window.
    pub open spec fn spec_is_double_click(self, now_ms: u64) -> bool {
        match self.prev_click {
            Some(c) => now_ms < c + self.between_clicks,
            None => false,
        }
    }

    /// How one raw event moves the timing fields: a press or release of the
    /// primary button is recorded under its timestamp and reported relevant;
    /// every other event leaves the state untouched.
    pub open spec fn spec_handle_event(self, event: RawEvent) -> (DoubleClicker, bool) {
        match event {
            RawEvent::Pointer(p) => match (p.button, p.action) {
                (PointerButton::Left, ElementState::Pressed) => (
                    DoubleClicker { prev_pressed: Some(p.time_ms), ..self },
                    true,
                ),
                (PointerButton::Left, ElementState::Released) => (
                    DoubleClicker { prev_released: Some(p.time_ms), ..self },
                    true,
                ),
                _ => (self, false),
            },
            _ => (self, false),
        }
    }

    /// Full evaluation of one raw event: record its timestamp, then, only
    /// on a release of the primary button, test whether the recorded
    /// press/release pair is a click, classify it against the previous
    /// click's window and remember it as the new previous click. A press
    /// only records its time and never yields a click.
    pub open spec fn spec_update(self, event: RawEvent) -> (DoubleClicker, Option<ClickEvent>) {
        let s1 = self.spec_handle_event(event).0;
        match event {
            RawEvent::Pointer(p) => if p.button is Left && p.action is Released
                && s1.spec_is_click() {
                let outcome = if s1.spec_is_double_click(p.time_ms) {
                    ClickEvent::DoubleClick
                } else {
                    ClickEvent::Click
                };
                (DoubleClicker { prev_click: Some(p.time_ms), ..s1 }, Some(outcome))
            } else {
                (s1, None)
            },
            _ => (s1, None),
        }
    }

    /// Records a press or release of the primary button under the event's
    /// timestamp; returns `Some` exactly for those events and leaves the
    /// state unchanged for every other event.
    pub fn handle_event(&mut self, event: &RawEvent) -> (r: Option<()>)
        ensures
            *final(self) == old(self).spec_handle_event(*event).0,
            r is Some <==> old(self).spec_handle_event(*event).1,
            r is Some ==> ((*event) matches RawEvent::Pointer(p) && p.button is Left),
    {
        match *event {
            RawEvent::Pointer(p) => match (p.button, p.action) {
                (PointerButton::Left, ElementState::Pressed) => {
                    self.prev_pressed = Some(p.time_ms);
                    Some(())
                },
                (PointerButton::Left, ElementState::Released) => {
                    self.prev_released = Some(p.time_ms);
                    Some(())
                },
                _ => None,
            },
            _ => None,
        }
    }

    /// Whether the recorded press/release pair is a click: the press strictly
    /// precedes the release and the gap is under the threshold.
    pub fn is_click(&self) -> (r: bool)
        ensures
            r == self.spec_is_click(),
    {
        match (self.prev_pressed, self.prev_released) {
            (Some(p), Some(rel)) => p < rel && rel - p < self.between_pressed_released,
            _ => false,
        }
    }

    /// Whether `now_ms` falls inside the double-click window of the previous
    /// click.
    pub fn is_double_click(&self, now_ms: u64) -> (r: bool)
        ensures
            r == self.spec_is_double_click(now_ms),
    {
        match self.prev_click {
            Some(c) => {
                if now_ms < c {
                    true
                } else {
                    now_ms - c < self.between_clicks
                }
            },
            None => false,
        }
    }

    /// Evaluates one raw event: records its timestamp, and on a release
    /// that completes a click, classifies it as a single or double click.
    /// A press alone never yields a click, whatever is on record.
    pub fn update(&mut self, event: &RawEvent) -> (r: Option<ClickEvent>)
        ensures
            *final(self) == old(self).spec_update(*event).0,
            r == old(self).spec_update(*event).1,
    {
        if self.handle_event(event).is_some() {
            if let RawEvent::Pointer(p) = *event {
                if let ElementState::Released = p.action {
                    if self.is_click() {
                        let outcome = if self.is_double_click(p.time_ms) {
                            ClickEvent::DoubleClick
                        } else {
                            ClickEvent::Click
                        };
                        self.prev_click = Some(p.time_ms);
                        return Some(outcome);
                    }
                }
            }
        }
        None
    }
}

/// A release of the primary button that strictly follows the recorded press
/// by less than the press-release threshold yields a click — at least a
/// single click, whatever the double-click window says.
pub proof fn lemma_quick_release_is_click(s: DoubleClicker, ev: RawPointerEvent)
    requires
        ev.button is Left,
        ev.action is Released,
        (s.prev_pressed matches Some(p) && p < ev.time_ms && ev.time_ms - p
            < s.between_pressed_released),
    ensures
        s.spec_update(RawEvent::Pointer(ev)).1 is Some,
        s.spec_update(RawEvent::Pointer(ev)).0.prev_click == Some(ev.time_ms),
{
}

/// A press alone never yields a click: it records the press time and
/// leaves the release and previous-click fields unchanged, whatever is on
/// record.
pub proof fn lemma_press_yields_none(s: DoubleClicker, ev: RawPointerEvent)
    requires
        ev.button is Left,
        ev.action is Pressed,
    ensures
        s.spec_update(RawEvent::Pointer(ev)).1 is None,
        s.spec_update(RawEvent::Pointer(ev)).0 == (DoubleClicker {
            prev_pressed: Some(ev.time_ms),
            ..s
        }),
{
}

/// Evaluating a press and, strictly later but within the threshold, its
/// release yields no click on the press and a click on the release.
pub proof fn lemma_press_then_quick_release(
    s: DoubleClicker,
    pr: RawPointerEvent,
    re: RawPointerEvent,
)
    requires
        pr.button is Left,
        pr.action is Pressed,
        re.button is Left,
        re.action is Released,
        pr.time_ms < re.time_ms,
        re.time_ms - pr.time_ms < s.between_pressed_released,
    ensures
        s.spec_update(RawEvent::Pointer(pr)).1 is None,
        s.spec_update(RawEvent::Pointer(pr)).0.spec_update(RawEvent::Pointer(re)).1 is Some,
{
    let s1 = s.spec_update(RawEvent::Pointer(pr)).0;
    lemma_quick_release_is_click(s1, re);
}

/// A release whose gap from the recorded press reaches the press-release
/// threshold yields no click: a slow press is a drag.
pub proof fn lemma_slow_release_is_none(s: DoubleClicker, ev: RawPointerEvent)
    requires
        ev.button is Left,
        ev.action is Released,
        (s.prev_pressed matches Some(p) && ev.time_ms - p >= s.between_pressed_released),
    ensures
        s.spec_update(RawEvent::Pointer(ev)).1 is None,
{
}

/// A release with no press on record yields no click, whenever it comes:
/// this is what protects a fresh detector.
pub proof fn lemma_release_without_press_is_none(s: DoubleClicker, ev: RawPointerEvent)
    requires
        ev.action is Released,
        s.prev_pressed is None,
    ensures
        s.spec_update(RawEvent::Pointer(ev)).1 is None,
{
}

/// A release that completes a click is classified against the previous
/// click alone: a double click exactly when it falls inside that click's
/// window, a single click otherwise; and either way it replaces the
/// previous click, so a third rapid click is measured against this one.
pub proof fn lemma_double_click_window(s: DoubleClicker, ev: RawPointerEvent)
    requires
        ev.button is Left,
        ev.action is Released,
        (s.prev_pressed matches Some(p) && p < ev.time_ms && ev.time_ms - p
            < s.between_pressed_released),
    ensures
        s.spec_is_double_click(ev.time_ms) ==> s.spec_update(RawEvent::Pointer(ev)).1 == Some(
            ClickEvent::DoubleClick,
        ),
        !s.spec_is_double_click(ev.time_ms) ==> s.spec_update(RawEvent::Pointer(ev)).1 == Some(
            ClickEvent::Click,
        ),
        s.spec_update(RawEvent::Pointer(ev)).0.prev_click == Some(ev.time_ms),
{
}

impl Default for DoubleClicker {
    /// A fresh detector: standard thresholds and no press, release or click
    /// on record, so that no event before the first real press can be taken
    /// for a click.
    fn default() -> (r: DoubleClicker)
        ensures
            r.between_pressed_released == CLICK_THRESHOLD_MS,
            r.between_clicks == DOUBLE_CLICK_THRESHOLD_MS,
            r.prev_click is None,
            r.prev_pressed is None,
            r.prev_released is None,
    {
        DoubleClicker {
            between_pressed_released: CLICK_THRESHOLD_MS,
            between_clicks: DOUBLE_CLICK_THRESHOLD_MS,
            prev_click: None,
            prev_pressed: None,
            prev_released: None,
        }
    }
}

} // verus!
