use rinertia::input_codes::{
    RawEvent, ABS_X, ABS_Y, BTN_TOOL_DOUBLETAP, BTN_TOOL_FINGER, BTN_TOOL_QUADTAP, EV_ABS, EV_KEY,
    EV_REL, REL_X,
};
use rinertia::touchpad::{
    decode_touch_event, timestamp_to_us, Listener, ListenerAction, ListenerState, PointerSample,
    RingBuffer, ScrollSample, TouchEvent, TouchInput,
};

fn ev(input: TouchInput, ts: u64) -> TouchEvent {
    TouchEvent { input, timestamp_us: ts }
}

#[test]
fn ring_velocity_uses_last_four_samples() {
    let mut r = RingBuffer::new();
    assert_eq!(r.compute_velocity(), None);
    r.push(5, 1_000);
    assert_eq!(r.compute_velocity(), None);
    r.push(7, 3_000);
    // the first sample only opens the time span
    assert_eq!(r.compute_velocity(), Some(ScrollSample { total_delta: 7, dt_us: 2_000 }));
    r.push(-2, 4_000);
    r.push(10, 9_000);
    r.push(1, 10_000);
    // window: (7,3000) (-2,4000) (10,9000) (1,10000)
    assert_eq!(r.compute_velocity(), Some(ScrollSample { total_delta: 9, dt_us: 7_000 }));
}

#[test]
fn ring_keeps_last_eight_and_wraps() {
    let mut r = RingBuffer::new();
    for i in 0..20u64 {
        r.push(i as i64, i * 100);
    }
    // last four: 16..19 at 1600..1900
    assert_eq!(r.compute_velocity(), Some(ScrollSample { total_delta: 17 + 18 + 19, dt_us: 300 }));
    r.clear();
    assert_eq!(r.compute_velocity(), None);
}

#[test]
fn cleared_ring_acts_like_new() {
    let mut r = RingBuffer::new();
    for i in 0..11i64 {
        r.push(100 * i, (i as u64) * 1000);
    }
    r.clear();
    let mut q = RingBuffer::new();
    for (d, t) in [(3, 50_000u64), (4, 51_000), (5, 53_000)] {
        r.push(d, t);
        q.push(d, t);
        assert_eq!(r.compute_velocity(), q.compute_velocity());
    }
    assert_eq!(r.compute_velocity(), Some(ScrollSample { total_delta: 9, dt_us: 3_000 }));

    let pushes: Vec<(i64, u64)> = (0..12i64).map(|i| (i, (i as u64) * 10)).collect();
    let mut a = RingBuffer::new();
    a.push(999, 1);
    a.clear();
    a.push_all(&pushes);
    let mut b = RingBuffer::new();
    b.push_all(&pushes);
    assert_eq!(a.compute_velocity(), b.compute_velocity());
    assert_eq!(a.compute_velocity(), Some(ScrollSample { total_delta: 9 + 10 + 11, dt_us: 30 }));
}

#[test]
fn ring_no_time_no_velocity() {
    let mut r = RingBuffer::new();
    r.push(3, 500);
    r.push(4, 500);
    assert_eq!(r.compute_velocity(), None);
    let mut r = RingBuffer::new();
    r.push(3, 900);
    r.push(4, 500);
    // a clock that went back counts as no time
    assert_eq!(r.compute_velocity(), None);
}

#[test]
fn two_finger_scroll_release_reports_velocity() {
    let mut l = Listener::new(true, false, 500);
    assert_eq!(l.handle_event(ev(TouchInput::AbsY(100), 0)), ListenerAction::Nothing);
    assert_eq!(l.handle_event(ev(TouchInput::ToolDoubleTap(1), 10)), ListenerAction::Stop);
    assert_eq!(l.state(), ListenerState::TwoFingerScroll);
    l.handle_event(ev(TouchInput::AbsY(110), 1_000));
    l.handle_event(ev(TouchInput::AbsY(130), 2_000));
    l.handle_event(ev(TouchInput::AbsX(5), 2_000));
    l.handle_event(ev(TouchInput::AbsY(160), 3_000));
    assert_eq!(l.end_of_batch(), ListenerAction::Nothing);
    // second finger lifts: the finger tool reports one finger first
    assert_eq!(l.handle_event(ev(TouchInput::ToolFinger(1), 3_500)), ListenerAction::Nothing);
    assert_eq!(l.state(), ListenerState::TwoFingerScroll);
    let a = l.handle_event(ev(TouchInput::ToolDoubleTap(0), 3_500));
    assert_eq!(
        a,
        ListenerAction::ScrollRelease {
            y: Some(ScrollSample { total_delta: 50, dt_us: 2_000 }),
            x: None,
        }
    );
    assert_eq!(l.state(), ListenerState::Idle);
    // the scroll momentum just started goes on: no stop at the batch end
    assert_eq!(l.end_of_batch(), ListenerAction::Nothing);
}

#[test]
fn one_finger_touch_stops_momentum() {
    let mut l = Listener::new(true, true, 500);
    assert_eq!(l.handle_event(ev(TouchInput::AbsX(10), 100)), ListenerAction::Nothing);
    assert_eq!(l.handle_event(ev(TouchInput::ToolFinger(1), 100)), ListenerAction::Nothing);
    assert_eq!(l.end_of_batch(), ListenerAction::Stop);
    // the next batch of motion asks for nothing
    l.handle_event(ev(TouchInput::AbsX(20), 200));
    assert_eq!(l.end_of_batch(), ListenerAction::Nothing);
    // three fingers down then back to one: the one-finger report also stops
    l.handle_event(ev(TouchInput::ToolMultiTap(1), 300));
    assert_eq!(l.end_of_batch(), ListenerAction::Nothing);
    l.handle_event(ev(TouchInput::ToolFinger(1), 400));
    l.handle_event(ev(TouchInput::ToolMultiTap(0), 400));
    assert_eq!(l.end_of_batch(), ListenerAction::Stop);
}

#[test]
fn scroll_disabled_gives_no_release() {
    let mut l = Listener::new(false, true, 500);
    l.handle_event(ev(TouchInput::ToolDoubleTap(1), 0));
    l.handle_event(ev(TouchInput::AbsY(10), 100));
    l.handle_event(ev(TouchInput::AbsY(20), 200));
    assert_eq!(l.handle_event(ev(TouchInput::ToolDoubleTap(0), 300)), ListenerAction::Nothing);
}

#[test]
fn pointer_release_after_motion() {
    let mut l = Listener::new(false, true, 500);
    // positions are ignored while no finger is down
    l.handle_event(ev(TouchInput::AbsX(50), 990_000));
    assert_eq!(l.handle_event(ev(TouchInput::ToolFinger(1), 1_000_000)), ListenerAction::Nothing);
    assert_eq!(l.state(), ListenerState::OneFingerMove);
    l.handle_event(ev(TouchInput::AbsX(100), 1_000_000));
    l.handle_event(ev(TouchInput::AbsY(200), 1_000_000));
    // no time has passed since the touch: no velocity yet
    l.end_of_batch();
    assert_eq!(l.handle_event(ev(TouchInput::Other, 1_000_000)), ListenerAction::Nothing);
    l.handle_event(ev(TouchInput::AbsX(130), 1_010_000));
    l.handle_event(ev(TouchInput::AbsY(180), 1_010_000));
    l.end_of_batch();
    let a = l.handle_event(ev(TouchInput::ToolFinger(0), 1_020_000));
    assert_eq!(
        a,
        ListenerAction::PointerRelease(Some(PointerSample { dx: 30, dy: -20, dt_us: 10_000 }))
    );
    assert_eq!(l.state(), ListenerState::Idle);
}

#[test]
fn pointer_release_without_motion_has_zero_velocity() {
    let mut l = Listener::new(true, true, 0);
    l.handle_event(ev(TouchInput::ToolFinger(1), 5));
    l.end_of_batch();
    assert_eq!(l.handle_event(ev(TouchInput::ToolFinger(0), 9)), ListenerAction::PointerRelease(None));
}

#[test]
fn pointer_release_ignored_during_cooldown() {
    let mut l = Listener::new(true, true, 500);
    l.handle_event(ev(TouchInput::ToolMultiTap(1), 1_000_000));
    assert_eq!(l.handle_event(ev(TouchInput::ToolMultiTap(0), 1_100_000)), ListenerAction::Nothing);
    l.handle_event(ev(TouchInput::ToolFinger(1), 1_200_000));
    // 400 ms after the multi-finger gesture ended
    assert_eq!(l.handle_event(ev(TouchInput::ToolFinger(0), 1_500_000)), ListenerAction::Nothing);
    assert_eq!(l.state(), ListenerState::Idle);
    l.handle_event(ev(TouchInput::ToolFinger(1), 1_600_000));
    // 600 ms after
    assert_eq!(l.handle_event(ev(TouchInput::ToolFinger(0), 1_700_000)), ListenerAction::PointerRelease(None));
}

#[test]
fn three_fingers_stop() {
    let mut l = Listener::new(true, true, 500);
    l.handle_event(ev(TouchInput::ToolFinger(1), 0));
    assert_eq!(l.handle_event(ev(TouchInput::ToolMultiTap(1), 10)), ListenerAction::Stop);
    assert_eq!(l.state(), ListenerState::Idle);
}

#[test]
fn decoding_raw_events() {
    let t = 42;
    let d = |event_type, code, value| decode_touch_event(&RawEvent { event_type, code, value }, t);
    assert_eq!(d(EV_ABS, ABS_X, 7), ev(TouchInput::AbsX(7), t));
    assert_eq!(d(EV_ABS, ABS_Y, -3), ev(TouchInput::AbsY(-3), t));
    assert_eq!(d(EV_KEY, BTN_TOOL_FINGER, 1), ev(TouchInput::ToolFinger(1), t));
    assert_eq!(d(EV_KEY, BTN_TOOL_DOUBLETAP, 0), ev(TouchInput::ToolDoubleTap(0), t));
    assert_eq!(d(EV_KEY, BTN_TOOL_QUADTAP, 1), ev(TouchInput::ToolMultiTap(1), t));
    assert_eq!(d(EV_REL, REL_X, 1), ev(TouchInput::Other, t));
}

#[test]
fn timestamps_in_microseconds() {
    assert_eq!(timestamp_to_us(Some((1, 5))), 1_000_005);
    assert_eq!(timestamp_to_us(Some((1_700_000_000, 123_456))), 1_700_000_000_123_456);
    assert_eq!(timestamp_to_us(None), 0);
    assert_eq!(timestamp_to_us(Some((u64::MAX, 0))), u64::MAX.wrapping_mul(1_000_000));
}
