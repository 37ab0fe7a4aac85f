//! Which devices interrupt momentum, and which of their events do.
//!
//! Keyboards and external mice are watched; a key press, a mouse button press
//! or mouse motion stops momentum. The touchpad's own auxiliary interfaces and
//! the daemon's virtual device are left out.

use vstd::prelude::*;

use crate::input_codes::{
    RawEvent, BTN_LEFT, BTN_MIDDLE, BTN_RIGHT, EV_KEY, EV_REL, KEY_ESC, KEY_MICMUTE, REL_X, REL_Y,
};
use crate::text::{chars_of, contains, has_prefix, has_substring, same_text, starts_with};

verus! {

/// What a device reports it can send, as far as the choice of devices needs.
#[derive(Debug, Clone, Copy, PartialEq, Eq, Structural)]
pub struct DeviceCaps {
    pub has_key_a: bool,
    pub has_key_z: bool,
    pub has_btn_left: bool,
    pub has_btn_tool_finger: bool,
    pub has_rel_x: bool,
}

/// A keyboard has the keys A and Z.
pub open spec fn keyboard(caps: DeviceCaps) -> bool {
    caps.has_key_a && caps.has_key_z
}

/// An external mouse has a left button and horizontal motion, and is no
/// touchpad (it has no finger tool).
pub open spec fn external_mouse(caps: DeviceCaps) -> bool {
    caps.has_btn_left && caps.has_rel_x && !caps.has_btn_tool_finger
}

/// The device is a keyboard.
pub fn is_keyboard(caps: &DeviceCaps) -> (res: bool)
    ensures
        res == keyboard(*caps),
{
    caps.has_key_a && caps.has_key_z
}

/// The device is an external mouse.
pub fn is_external_mouse(caps: &DeviceCaps) -> (res: bool)
    ensures
        res == external_mouse(*caps),
{
    if !caps.has_btn_left {
        return false;
    }
    if !caps.has_rel_x {
        return false;
    }
    !caps.has_btn_tool_finger
}

/// The file name is that of an event device node (`event*`).
pub fn is_event_node(file_name: &str) -> (res: bool)
    ensures
        res == has_prefix(file_name@, "event"@),
{
    let n = chars_of(file_name);
    let p = chars_of("event");
    starts_with(n.as_slice(), p.as_slice())
}

/// Whether a device is watched for interrupts: not the daemon's own virtual
/// device (its name mentions "rinertia"), not an interface of the touchpad's
/// physical device, and a keyboard or an external mouse.
pub open spec fn monitored(
    name: Option<Seq<char>>,
    phys: Option<Seq<char>>,
    touchpad_phys: Option<Seq<char>>,
    caps: DeviceCaps,
) -> bool {
    let own = match name {
        Some(n) => has_substring(n, "rinertia"@),
        None => false,
    };
    let touchpad_sibling = match (touchpad_phys, phys) {
        (Some(t), Some(p)) => p == t,
        _ => false,
    };
    !own && !touchpad_sibling && (keyboard(caps) || external_mouse(caps))
}

/// Decides whether a device is watched for interrupts (see [`monitored`]).
pub fn should_monitor(
    name: Option<&str>,
    phys: Option<&str>,
    touchpad_phys: Option<&str>,
    caps: &DeviceCaps,
) -> (res: bool)
    ensures
        res == monitored(
            match name {
                Some(n) => Some(n@),
                None => None,
            },
            match phys {
                Some(p) => Some(p@),
                None => None,
            },
            match touchpad_phys {
                Some(t) => Some(t@),
                None => None,
            },
            *caps,
        ),
{
    let own = match name {
        Some(n) => {
            let cs = chars_of(n);
            let tag = chars_of("rinertia");
            contains(cs.as_slice(), tag.as_slice())
        },
        None => false,
    };
    if own {
        return false;
    }
    let sibling = match (touchpad_phys, phys) {
        (Some(t), Some(p)) => {
            let tc = chars_of(t);
            let pc = chars_of(p);
            same_text(pc.as_slice(), tc.as_slice())
        },
        _ => false,
    };
    if sibling {
        return false;
    }
    is_keyboard(caps) || is_external_mouse(caps)
}

/// An event interrupts momentum when it is the press of a mouse button (left,
/// right, middle) or of a keyboard key (`KEY_ESC` up to `KEY_MICMUTE`), or
/// relative motion along x or y. Releases and auto-repeats do not interrupt.
pub open spec fn interrupting(ev: RawEvent) -> bool {
    if ev.event_type == EV_KEY {
        ev.value == 1 && (ev.code == BTN_LEFT || ev.code == BTN_RIGHT || ev.code == BTN_MIDDLE || (
        KEY_ESC <= ev.code && ev.code <= KEY_MICMUTE))
    } else if ev.event_type == EV_REL {
        ev.code == REL_X || ev.code == REL_Y
    } else {
        false
    }
}

/// Decides whether an event interrupts momentum (see [`interrupting`]).
pub fn is_interrupt_event(ev: &RawEvent) -> (res: bool)
    ensures
        res == interrupting(*ev),
{
    if ev.event_type == EV_KEY {
        if ev.value != 1 {
            return false;
        }
        ev.code == BTN_LEFT || ev.code == BTN_RIGHT || ev.code == BTN_MIDDLE || (KEY_ESC <= ev.code
            && ev.code <= KEY_MICMUTE)
    } else if ev.event_type == EV_REL {
        ev.code == REL_X || ev.code == REL_Y
    } else {
        false
    }
}

/// Some event of the batch interrupts momentum.
pub fn any_interrupt(events: &[RawEvent]) -> (res: bool)
    ensures
        res == exists|i: int| 0 <= i < events@.len() && interrupting(#[trigger] events@[i]),
{
    let mut i: usize = 0;
    while i < events.len()
        invariant
            i <= events@.len(),
            forall|k: int| 0 <= k < i ==> !interrupting(#[trigger] events@[k]),
        decreases events.len() - i,
    {
        if is_interrupt_event(&events[i]) {
            return true;
        }
        i = i + 1;
    }
    false
}

/// What polling said of one watched device.
#[derive(Debug, Clone, Copy, PartialEq, Eq, Structural)]
pub enum PollOutcome {
    /// Nothing to do for this device.
    Quiet,
    /// The device reported an error or hang-up: stop watching it.
    Gone,
    /// Events are waiting: read them.
    Readable,
}

/// What to do with a device after a poll: nothing when it reported no
/// events; drop it on an error or hang-up (even with input waiting); read it
/// when input is waiting.
pub fn classify_revents(reported: bool, error_or_hangup: bool, input_ready: bool) -> (res:
    PollOutcome)
    ensures
        res == if !reported {
            PollOutcome::Quiet
        } else if error_or_hangup {
            PollOutcome::Gone
        } else if input_ready {
            PollOutcome::Readable
        } else {
            PollOutcome::Quiet
        },
{
    if !reported {
        PollOutcome::Quiet
    } else if error_or_hangup {
        PollOutcome::Gone
    } else if input_ready {
        PollOutcome::Readable
    } else {
        PollOutcome::Quiet
    }
}

/// What to do once a ready device has been read.
#[derive(Debug, Clone, Copy, PartialEq, Eq, Structural)]
pub enum ReadDecision {
    /// The read failed: stop watching the device.
    DropDevice,
    /// Its events interrupt momentum: ask for a stop.
    SendStop,
    /// Nothing to do.
    Nothing,
}

/// Decides what to do once a ready device has been read: a failed read drops
/// the device, a batch with an interrupting event asks for a stop.
pub fn after_read(read_ok: bool, interrupted: bool) -> (res: ReadDecision)
    ensures
        res == if !read_ok {
            ReadDecision::DropDevice
        } else if interrupted {
            ReadDecision::SendStop
        } else {
            ReadDecision::Nothing
        },
{
    if !read_ok {
        ReadDecision::DropDevice
    } else if interrupted {
        ReadDecision::SendStop
    } else {
        ReadDecision::Nothing
    }
}

/// The watched devices after dropping the one at `i` (the last one takes its
/// place).
pub open spec fn without_device<T>(devices: Seq<T>, i: int) -> Seq<T> {
    devices.update(i, devices.last()).drop_last()
}

/// Ends a round of polling. When sending a stop failed (the engine is gone),
/// watching ends and the devices stay as they are. Otherwise a device that
/// failed is dropped, and watching goes on while some device is left.
pub fn end_round<T>(devices: &mut Vec<T>, dropped: Option<usize>, send_failed: bool) -> (keep_watching: bool)
    requires
        dropped matches Some(i) ==> i < old(devices)@.len(),
    ensures
        send_failed ==> !keep_watching && final(devices)@ == old(devices)@,
        !send_failed && dropped is None ==> keep_watching && final(devices)@ == old(devices)@,
        !send_failed ==> (dropped matches Some(i) ==> final(devices)@ == without_device(
            old(devices)@,
            i as int,
        ) && keep_watching == (final(devices)@.len() > 0)),
{
    if send_failed {
        return false;
    }
    match dropped {
        Some(i) => {
            devices.swap_remove(i);
            devices.len() > 0
        },
        None => true,
    }
}

/// A failing device is dropped and the others stay watched; once none is left,
/// watching ends.
pub proof fn law_failing_device_dropped<T>(devices: Seq<T>, i: int)
    requires
        0 <= i < devices.len(),
    ensures
        without_device(devices, i).len() == devices.len() - 1,
        forall|k: int|
            0 <= k < devices.len() && k != i ==> without_device(devices, i).contains(
                #[trigger] devices[k],
            ),
{
    let w = without_device(devices, i);
    assert forall|k: int| 0 <= k < devices.len() && k != i implies w.contains(
        #[trigger] devices[k],
    ) by {
        if k == devices.len() - 1 {
            assert(w[i] == devices[k]);
        } else {
            assert(w[k] == devices[k]);
        }
    }
}

/// Pressing any key from Esc up to the microphone-mute key, or a mouse
/// button, interrupts momentum; releasing it does not. Mouse motion always
/// interrupts.
pub proof fn law_presses_interrupt_releases_do_not(code: u16, value: i32)
    ensures
        (KEY_ESC <= code <= KEY_MICMUTE || code == BTN_LEFT) ==> interrupting(
            RawEvent { event_type: EV_KEY, code, value: 1 },
        ),
        value != 1 ==> !interrupting(RawEvent { event_type: EV_KEY, code, value }),
        interrupting(RawEvent { event_type: EV_REL, code: REL_X, value }),
        interrupting(RawEvent { event_type: EV_REL, code: REL_Y, value }),
{
}

/// Pressing any mouse button (left, right or middle) stops momentum; releasing
/// it does not.
pub proof fn law_mouse_buttons_interrupt(code: u16, value: i32)
    ensures
        interrupting(RawEvent { event_type: EV_KEY, code: BTN_LEFT, value: 1 }),
        interrupting(RawEvent { event_type: EV_KEY, code: BTN_RIGHT, value: 1 }),
        interrupting(RawEvent { event_type: EV_KEY, code: BTN_MIDDLE, value: 1 }),
        (code == BTN_LEFT || code == BTN_RIGHT || code == BTN_MIDDLE) ==> interrupting(
            RawEvent { event_type: EV_KEY, code, value },
        ) == (value == 1),
{
}

/// The touchpad never interrupts itself: neither a device sharing its physical
/// path nor a device with a finger tool that is no keyboard is watched.
pub proof fn law_touchpad_not_watched(
    name: Option<Seq<char>>,
    phys: Seq<char>,
    caps: DeviceCaps,
)
    ensures
        !monitored(name, Some(phys), Some(phys), caps),
        caps.has_btn_tool_finger && !keyboard(caps) ==> !monitored(name, Some(phys), None, caps),
{
}

} // verus!
