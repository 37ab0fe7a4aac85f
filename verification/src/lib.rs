//! Decision logic of a momentum-scrolling daemon for Linux touchpads,
//! verified with Verus.
//!
//! The touchpad listener, the momentum engine, configuration layering, the
//! choice of devices whose input interrupts momentum, and the reading of what
//! desktop tools print all live here. Floating-point values only pass through:
//! the types that carry them are generic in the number type.

use vstd::prelude::*;

pub mod config;
pub mod device_discovery;
pub mod focused_app;
pub mod input_codes;
pub mod interrupt;
pub mod momentum;
pub mod natural_scroll;
pub mod text;
pub mod touchpad;
pub mod virtual_device;

verus! {

/// Which wheel a scroll goes to.
#[derive(Debug, Clone, Copy, PartialEq, Eq, Structural)]
pub enum ScrollAxis {
    Vertical,
    Horizontal,
}

/// A message to the momentum engine; `F` is the number type of velocities.
#[derive(Debug, Clone, Copy)]
pub enum MomentumMessage<F> {
    /// Start scroll momentum with this velocity, in high-resolution wheel units
    /// per second, along `axis`.
    StartScroll { velocity_hires_per_sec: F, axis: ScrollAxis },
    /// Start pointer momentum with this velocity, in touchpad units per second.
    StartPointer { vx: F, vy: F },
    /// Stop any momentum.
    Stop,
}


/// Touching the pad, pressing a key or a mouse button, or moving a mouse
/// stops momentum at once: the listener (for two or more fingers at the touch,
/// for a single finger at the end of its batch) or the interrupt watcher asks
/// for a stop, and a stop leaves the engine idle whatever it was doing.
pub proof fn law_touch_or_input_stops_momentum<F>(
    l: touchpad::ListenerView,
    fingers: touchpad::TouchInput,
    ts: u64,
    batch: Seq<touchpad::TouchEvent>,
    ev: input_codes::RawEvent,
    s: momentum::EngineState,
)
    ensures
        (fingers == touchpad::TouchInput::ToolDoubleTap(1) || fingers
            == touchpad::TouchInput::ToolMultiTap(1)) ==> touchpad::listener_step(
            l,
            touchpad::TouchEvent { input: fingers, timestamp_us: ts },
        ).1 == touchpad::ListenerAction::Stop,
        (!l.touched && !l.two_finger_lift && touchpad::has_touch(batch)
            && !touchpad::has_two_finger_lift(batch)) ==> touchpad::listener_batch_end(
            touchpad::run_batch(l, batch),
        ).1 == touchpad::ListenerAction::Stop,
        momentum::state_after(
            s,
            momentum::reaction(s, momentum::Incoming::<F>::Message(MomentumMessage::Stop)),
        ) == momentum::EngineState::Idle,
        (ev.event_type == input_codes::EV_KEY && ev.value == 1 && input_codes::KEY_ESC <= ev.code
            <= input_codes::KEY_MICMUTE) ==> interrupt::interrupting(ev),
{
    if !l.touched && !l.two_finger_lift {
        touchpad::law_fresh_touch_stops(l, batch);
    }
}

} // verus!
