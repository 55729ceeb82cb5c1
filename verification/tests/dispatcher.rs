use klok_core::dispatcher::{
    dispatch_event, pacing_sleep_ms, HeartbeatClock, HEARTBEAT_INTERVAL_MS, POLL_RATE_MS,
};
use klok_core::events::{ElementState, Key, PointerButton, RawEvent, RawPointerEvent, UiInputEvent};
use klok_core::gesture::DoubleClicker;

fn pointer(action: ElementState, time_ms: u64) -> RawEvent {
    RawEvent::Pointer(RawPointerEvent { button: PointerButton::Left, action, time_ms })
}

#[test]
fn close_request_terminates_and_forwards_nothing() {
    let mut d = DoubleClicker::default();
    let act = dispatch_event(&mut d, &RawEvent::CloseRequested);
    assert!(act.terminate);
    assert_eq!(act.forward, None);
    assert!(!act.draw_now);
}

#[test]
fn escape_release_terminates_and_forwards_nothing() {
    let mut d = DoubleClicker::default();
    let act = dispatch_event(
        &mut d,
        &RawEvent::Keyboard { key: Key::Escape, action: ElementState::Released },
    );
    assert!(act.terminate);
    assert_eq!(act.forward, None);
}

#[test]
fn escape_press_is_forwarded_as_key_press() {
    let mut d = DoubleClicker::default();
    let act = dispatch_event(
        &mut d,
        &RawEvent::Keyboard { key: Key::Escape, action: ElementState::Pressed },
    );
    assert!(!act.terminate);
    assert_eq!(act.forward, Some(UiInputEvent::KeyPress(Key::Escape)));
}

#[test]
fn f_release_toggles_fullscreen() {
    let mut d = DoubleClicker::default();
    let act = dispatch_event(
        &mut d,
        &RawEvent::Keyboard { key: Key::LetterF, action: ElementState::Released },
    );
    assert!(act.toggle_fullscreen);
    assert!(!act.terminate);
    assert_eq!(act.forward, None);
}

#[test]
fn resize_forwards_and_draws_out_of_turn() {
    let mut d = DoubleClicker::default();
    let act = dispatch_event(&mut d, &RawEvent::Resized { width: 800, height: 600 });
    assert!(act.draw_now);
    assert!(!act.terminate);
    assert_eq!(act.forward, Some(UiInputEvent::WindowResized { width: 800, height: 600 }));
}

#[test]
fn awakened_and_other_are_dropped() {
    let mut d = DoubleClicker::default();
    let a1 = dispatch_event(&mut d, &RawEvent::Awakened);
    assert_eq!(a1.forward, None);
    assert!(!a1.terminate && !a1.draw_now && !a1.toggle_fullscreen);
    let a2 = dispatch_event(&mut d, &RawEvent::Other);
    assert_eq!(a2.forward, None);
    assert!(!a2.terminate && !a2.draw_now && !a2.toggle_fullscreen);
}

#[test]
fn double_click_toggles_fullscreen() {
    let mut d = DoubleClicker::default();
    assert!(!dispatch_event(&mut d, &pointer(ElementState::Pressed, 1000)).toggle_fullscreen);
    let first = dispatch_event(&mut d, &pointer(ElementState::Released, 1050));
    assert!(!first.toggle_fullscreen);
    assert!(first.forward.is_some());
    dispatch_event(&mut d, &pointer(ElementState::Pressed, 1200));
    let second = dispatch_event(&mut d, &pointer(ElementState::Released, 1250));
    assert!(second.toggle_fullscreen);
}

#[test]
fn idle_two_seconds_gives_four_heartbeats() {
    // Two seconds of idle polling on the 250 ms pacing grid: exactly one
    // heartbeat per 500 ms elapsed, so four in all.
    let mut hb = HeartbeatClock::new(0);
    let mut beats = 0;
    let mut t = 0;
    for _ in 0..8 {
        t += POLL_RATE_MS;
        if hb.poll(t) {
            beats += 1;
        }
    }
    assert_eq!(beats, 4);
    assert_eq!(t, 2000);
}

#[test]
fn heartbeat_fires_once_per_interval_not_twice() {
    let mut hb = HeartbeatClock::new(0);
    assert!(hb.poll(HEARTBEAT_INTERVAL_MS + 100));
    assert!(!hb.poll(HEARTBEAT_INTERVAL_MS + 200));
    assert!(hb.poll(2 * HEARTBEAT_INTERVAL_MS + 150));
}

#[test]
fn heartbeat_waits_for_a_full_interval() {
    let mut hb = HeartbeatClock::new(1000);
    assert!(!hb.poll(1499));
    assert!(hb.poll(1500));
    assert_eq!(hb.last_beat_ms, 1500);
}

#[test]
fn pacing_sleeps_the_unslept_remainder() {
    assert_eq!(pacing_sleep_ms(1100, 1000), 150);
    assert_eq!(pacing_sleep_ms(1000, 1000), POLL_RATE_MS);
    assert_eq!(pacing_sleep_ms(1250, 1000), 0);
    assert_eq!(pacing_sleep_ms(1400, 1000), 0);
}
