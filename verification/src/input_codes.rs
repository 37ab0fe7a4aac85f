//! Linux input event codes (`linux/input-event-codes.h`) that the daemon reads
//! or writes, and the raw event they travel in.

use vstd::prelude::*;

verus! {

/// Event type: synchronization marker.
pub const EV_SYN: u16 = 0x00;
/// Event type: key or button.
pub const EV_KEY: u16 = 0x01;
/// Event type: relative axis.
pub const EV_REL: u16 = 0x02;
/// Event type: absolute axis.
pub const EV_ABS: u16 = 0x03;

/// End of a batch of events.
pub const SYN_REPORT: u16 = 0;

pub const REL_X: u16 = 0x00;
pub const REL_Y: u16 = 0x01;
pub const REL_HWHEEL: u16 = 0x06;
pub const REL_WHEEL: u16 = 0x08;
pub const REL_WHEEL_HI_RES: u16 = 0x0b;
pub const REL_HWHEEL_HI_RES: u16 = 0x0c;

pub const ABS_X: u16 = 0x00;
pub const ABS_Y: u16 = 0x01;

pub const KEY_ESC: u16 = 1;
pub const KEY_A: u16 = 30;
pub const KEY_Z: u16 = 44;
pub const KEY_MICMUTE: u16 = 248;

pub const BTN_LEFT: u16 = 0x110;
pub const BTN_RIGHT: u16 = 0x111;
pub const BTN_MIDDLE: u16 = 0x112;
pub const BTN_TOOL_FINGER: u16 = 0x145;
pub const BTN_TOOL_QUINTTAP: u16 = 0x148;
pub const BTN_TOOL_DOUBLETAP: u16 = 0x14d;
pub const BTN_TOOL_TRIPLETAP: u16 = 0x14e;
pub const BTN_TOOL_QUADTAP: u16 = 0x14f;

/// One input event as the kernel exchanges it: type, code and value.
#[derive(Debug, Clone, Copy, PartialEq, Eq, Structural)]
pub struct RawEvent {
    pub event_type: u16,
    pub code: u16,
    pub value: i32,
}

} // verus!
