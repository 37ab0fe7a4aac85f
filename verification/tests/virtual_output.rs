use rinertia::input_codes::{
    RawEvent, BTN_LEFT, EV_REL, EV_SYN, REL_HWHEEL, REL_HWHEEL_HI_RES, REL_WHEEL,
    REL_WHEEL_HI_RES, REL_X, REL_Y, SYN_REPORT,
};
use rinertia::virtual_device::{device_keys, pointer_events, relative_axes, scroll_events};
use rinertia::ScrollAxis;

fn rel(code: u16, value: i32) -> RawEvent {
    RawEvent { event_type: EV_REL, code, value }
}

const SYN: RawEvent = RawEvent { event_type: EV_SYN, code: SYN_REPORT, value: 0 };

#[test]
fn scroll_steps() {
    assert_eq!(scroll_events(ScrollAxis::Vertical, 30), vec![rel(REL_WHEEL_HI_RES, 30), SYN]);
    assert_eq!(
        scroll_events(ScrollAxis::Vertical, 250),
        vec![rel(REL_WHEEL_HI_RES, 250), rel(REL_WHEEL, 2), SYN]
    );
    assert_eq!(
        scroll_events(ScrollAxis::Horizontal, -130),
        vec![rel(REL_HWHEEL_HI_RES, -130), rel(REL_HWHEEL, -1), SYN]
    );
    assert_eq!(scroll_events(ScrollAxis::Horizontal, -119), vec![rel(REL_HWHEEL_HI_RES, -119), SYN]);
}

#[test]
fn pointer_steps() {
    assert_eq!(pointer_events(3, -4), vec![rel(REL_X, 3), rel(REL_Y, -4), SYN]);
}

#[test]
fn declared_capabilities() {
    assert_eq!(relative_axes(true, false), vec![REL_WHEEL, REL_HWHEEL, REL_WHEEL_HI_RES, REL_HWHEEL_HI_RES]);
    assert_eq!(relative_axes(false, true), vec![REL_X, REL_Y]);
    assert_eq!(relative_axes(true, true).len(), 6);
    assert!(relative_axes(false, false).is_empty());
    assert_eq!(device_keys(), vec![BTN_LEFT]);
}
