//! What the virtual output device declares and the events it is sent.
//!
//! Scrolling goes out as a high-resolution wheel event (120 units per detent),
//! followed by a classic wheel event when the motion spans at least one whole
//! detent, then a synchronization marker. Pointer motion goes out as x and y
//! motion and a marker.

use vstd::prelude::*;

use crate::input_codes::{
    RawEvent, BTN_LEFT, EV_REL, EV_SYN, REL_HWHEEL, REL_HWHEEL_HI_RES, REL_WHEEL,
    REL_WHEEL_HI_RES, REL_X, REL_Y, SYN_REPORT,
};
use crate::ScrollAxis;

verus! {

/// The name the virtual device is created with.
pub const DEVICE_NAME: &'static str = "rinertia Virtual Device";

/// High-resolution wheel units in one detent.
pub const HIRES_PER_DETENT: i32 = 120;

/// Integer division rounding toward zero, as Rust's `/` does.
pub open spec fn div_toward_zero(a: int, b: int) -> int {
    if a >= 0 {
        a / b
    } else {
        -((-a) / b)
    }
}

/// The relative axes the device declares: the four wheels for scrolling, x and
/// y for the pointer.
pub open spec fn declared_axes(enable_scroll: bool, enable_pointer: bool) -> Seq<u16> {
    (if enable_scroll {
        seq![REL_WHEEL, REL_HWHEEL, REL_WHEEL_HI_RES, REL_HWHEEL_HI_RES]
    } else {
        Seq::empty()
    }) + (if enable_pointer {
        seq![REL_X, REL_Y]
    } else {
        Seq::empty()
    })
}

/// The relative axes the device declares (see [`declared_axes`]).
pub fn relative_axes(enable_scroll: bool, enable_pointer: bool) -> (res: Vec<u16>)
    ensures
        res@ == declared_axes(enable_scroll, enable_pointer),
{
    let mut axes: Vec<u16> = Vec::new();
    if enable_scroll {
        axes.push(REL_WHEEL);
        axes.push(REL_HWHEEL);
        axes.push(REL_WHEEL_HI_RES);
        axes.push(REL_HWHEEL_HI_RES);
    }
    if enable_pointer {
        axes.push(REL_X);
        axes.push(REL_Y);
    }
    assert(axes@ =~= declared_axes(enable_scroll, enable_pointer));
    axes
}

/// The keys the device declares: the left button.
pub fn device_keys() -> (res: Vec<u16>)
    ensures
        res@ == seq![BTN_LEFT],
{
    let mut keys: Vec<u16> = Vec::new();
    keys.push(BTN_LEFT);
    assert(keys@ =~= seq![BTN_LEFT]);
    keys
}

/// The events of one scroll step.
pub open spec fn scroll_event_seq(axis: ScrollAxis, hires: i32) -> Seq<RawEvent> {
    let (hires_axis, lores_axis) = match axis {
        ScrollAxis::Vertical => (REL_WHEEL_HI_RES, REL_WHEEL),
        ScrollAxis::Horizontal => (REL_HWHEEL_HI_RES, REL_HWHEEL),
    };
    let lores = div_toward_zero(hires as int, HIRES_PER_DETENT as int);
    let first = seq![RawEvent { event_type: EV_REL, code: hires_axis, value: hires }];
    let middle = if lores != 0 {
        seq![RawEvent { event_type: EV_REL, code: lores_axis, value: lores as i32 }]
    } else {
        Seq::empty()
    };
    first + middle + seq![RawEvent { event_type: EV_SYN, code: SYN_REPORT, value: 0 }]
}

/// The events of one scroll step of `hires` units along `axis`.
pub fn scroll_events(axis: ScrollAxis, hires: i32) -> (res: Vec<RawEvent>)
    ensures
        res@ == scroll_event_seq(axis, hires),
{
    let (hires_axis, lores_axis) = match axis {
        ScrollAxis::Vertical => (REL_WHEEL_HI_RES, REL_WHEEL),
        ScrollAxis::Horizontal => (REL_HWHEEL_HI_RES, REL_HWHEEL),
    };
    let mut events: Vec<RawEvent> = Vec::new();
    events.push(RawEvent { event_type: EV_REL, code: hires_axis, value: hires });
    let lores: i32 = hires / HIRES_PER_DETENT;
    if lores != 0 {
        events.push(RawEvent { event_type: EV_REL, code: lores_axis, value: lores });
    }
    events.push(RawEvent { event_type: EV_SYN, code: SYN_REPORT, value: 0 });
    assert(events@ =~= scroll_event_seq(axis, hires));
    events
}

/// The events of one pointer step.
pub open spec fn pointer_event_seq(dx: i32, dy: i32) -> Seq<RawEvent> {
    seq![
        RawEvent { event_type: EV_REL, code: REL_X, value: dx },
        RawEvent { event_type: EV_REL, code: REL_Y, value: dy },
        RawEvent { event_type: EV_SYN, code: SYN_REPORT, value: 0 },
    ]
}

/// The events of one pointer step of `(dx, dy)`.
pub fn pointer_events(dx: i32, dy: i32) -> (res: Vec<RawEvent>)
    ensures
        res@ == pointer_event_seq(dx, dy),
{
    let mut events: Vec<RawEvent> = Vec::new();
    events.push(RawEvent { event_type: EV_REL, code: REL_X, value: dx });
    events.push(RawEvent { event_type: EV_REL, code: REL_Y, value: dy });
    events.push(RawEvent { event_type: EV_SYN, code: SYN_REPORT, value: 0 });
    assert(events@ =~= pointer_event_seq(dx, dy));
    events
}

/// A scroll step always ends with a synchronization marker, starts with the
/// high-resolution motion, and carries a classic wheel event exactly when the
/// motion spans a whole detent.
pub proof fn law_scroll_step_shape(axis: ScrollAxis, hires: i32)
    ensures
        ({
            let s = scroll_event_seq(axis, hires);
            &&& s.last() == (RawEvent { event_type: EV_SYN, code: SYN_REPORT, value: 0 })
            &&& s[0].value == hires
            &&& (s.len() == 3) == (hires >= HIRES_PER_DETENT || hires <= -HIRES_PER_DETENT)
        }),
{
}

} // verus!
