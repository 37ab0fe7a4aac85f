//! The momentum engine's decisions.
//!
//! The engine waits for a message; while momentum runs it also wakes on a short
//! timeout and advances the motion ("a tick"). Scroll momentum decays by its
//! damping curve: exponentially and then, for the dual-phase curve, at a
//! constant rate once the speed falls below a threshold; or, for the
//! time-constant curve, until the speed falls below a stop threshold. When the
//! deceleration ends by itself and tail scrolling is on, the smallest step is
//! emitted for a while longer. The arithmetic on velocities is done by the
//! caller; what each message and each tick leads to is decided here.

use vstd::prelude::*;

use crate::config::DampingCurve;
use crate::{MomentumMessage, ScrollAxis};

verus! {

/// What the engine is doing.
#[derive(Debug, Clone, Copy, PartialEq, Eq, Structural)]
pub enum EngineState {
    Idle,
    ScrollMomentum,
    ScrollLinearDecel,
    /// Tail scrolling after the deceleration ended.
    ScrollTail,
    PointerMomentum,
}

/// How long the engine waits for a message in a state, in nanoseconds: `None`
/// to wait without a time limit (idle), 1 ms while scrolling, 1/60 s during
/// pointer momentum.
pub open spec fn wait_spec(state: EngineState) -> Option<u64> {
    match state {
        EngineState::Idle => None,
        EngineState::PointerMomentum => Some(16_666_667),
        _ => Some(1_000_000),
    }
}

/// How long to wait for a message (see [`wait_spec`]).
pub fn wait_nanos(state: EngineState) -> (res: Option<u64>)
    ensures
        res == wait_spec(state),
{
    match state {
        EngineState::Idle => None,
        EngineState::PointerMomentum => Some(16_666_667),
        _ => Some(1_000_000),
    }
}

/// A scroll state.
pub open spec fn scrolling(state: EngineState) -> bool {
    state == EngineState::ScrollMomentum || state == EngineState::ScrollLinearDecel || state
        == EngineState::ScrollTail
}

/// What the engine's wait for a message ended with.
#[derive(Debug, Clone, Copy)]
pub enum Incoming<F> {
    Message(MomentumMessage<F>),
    /// No message came within the tick interval.
    Timeout,
    /// Every sender is gone.
    Disconnected,
}

/// What the engine does about what its wait ended with.
#[derive(Debug, Clone, Copy, PartialEq)]
pub enum Reaction<F> {
    /// Shut the engine down.
    Shutdown,
    /// Drop the current motion and go idle.
    Halt,
    /// Start scroll momentum with this velocity along this axis.
    BeginScroll { velocity_hires_per_sec: F, axis: ScrollAxis },
    /// Start pointer momentum with this velocity.
    BeginPointer { vx: F, vy: F },
    /// Take this pointer velocity in place of the current one and restart the
    /// tick clock, without a tick.
    RetargetPointer { vx: F, vy: F },
    /// Advance the current motion by one tick.
    Tick,
    /// Nothing to do; wait again.
    Wait,
}

/// The reaction to what a wait ended with, in state `state`.
pub open spec fn reaction<F>(state: EngineState, incoming: Incoming<F>) -> Reaction<F> {
    match incoming {
        Incoming::Disconnected => Reaction::Shutdown,
        Incoming::Timeout => if state == EngineState::Idle {
            Reaction::Wait
        } else {
            Reaction::Tick
        },
        Incoming::Message(m) => match state {
            EngineState::Idle => match m {
                MomentumMessage::StartScroll { velocity_hires_per_sec, axis } => Reaction::BeginScroll {
                    velocity_hires_per_sec,
                    axis,
                },
                MomentumMessage::StartPointer { vx, vy } => Reaction::BeginPointer { vx, vy },
                MomentumMessage::Stop => Reaction::Wait,
            },
            EngineState::ScrollMomentum | EngineState::ScrollLinearDecel
            | EngineState::ScrollTail => match m {
                MomentumMessage::StartScroll { .. } => Reaction::Halt,
                MomentumMessage::StartPointer { .. } => Reaction::Tick,
                MomentumMessage::Stop => Reaction::Halt,
            },
            EngineState::PointerMomentum => match m {
                MomentumMessage::StartScroll { .. } => Reaction::Tick,
                MomentumMessage::StartPointer { vx, vy } => Reaction::RetargetPointer { vx, vy },
                MomentumMessage::Stop => Reaction::Halt,
            },
        },
    }
}

/// The state the engine is in once it has reacted (a tick decides further).
pub open spec fn state_after<F>(state: EngineState, r: Reaction<F>) -> EngineState {
    match r {
        Reaction::Halt => EngineState::Idle,
        Reaction::BeginScroll { .. } => EngineState::ScrollMomentum,
        Reaction::BeginPointer { .. } => EngineState::PointerMomentum,
        Reaction::RetargetPointer { .. } => EngineState::PointerMomentum,
        _ => state,
    }
}

/// Decides how the engine reacts to what its wait ended with.
pub fn react<F: Copy>(state: EngineState, incoming: &Incoming<F>) -> (res: Reaction<F>)
    ensures
        res == reaction(state, *incoming),
{
    match incoming {
        Incoming::Disconnected => Reaction::Shutdown,
        Incoming::Timeout => {
            if state == EngineState::Idle {
                Reaction::Wait
            } else {
                Reaction::Tick
            }
        },
        Incoming::Message(m) => match state {
            EngineState::Idle => match m {
                MomentumMessage::StartScroll { velocity_hires_per_sec, axis } => Reaction::BeginScroll {
                    velocity_hires_per_sec: *velocity_hires_per_sec,
                    axis: *axis,
                },
                MomentumMessage::StartPointer { vx, vy } => Reaction::BeginPointer {
                    vx: *vx,
                    vy: *vy,
                },
                MomentumMessage::Stop => Reaction::Wait,
            },
            EngineState::ScrollMomentum | EngineState::ScrollLinearDecel
            | EngineState::ScrollTail => match m {
                MomentumMessage::StartScroll { .. } => Reaction::Halt,
                MomentumMessage::StartPointer { .. } => Reaction::Tick,
                MomentumMessage::Stop => Reaction::Halt,
            },
            EngineState::PointerMomentum => match m {
                MomentumMessage::StartScroll { .. } => Reaction::Tick,
                MomentumMessage::StartPointer { vx, vy } => Reaction::RetargetPointer {
                    vx: *vx,
                    vy: *vy,
                },
                MomentumMessage::Stop => Reaction::Halt,
            },
        },
    }
}

/// The state after a reaction.
pub fn next_state<F>(state: EngineState, r: &Reaction<F>) -> (res: EngineState)
    ensures
        res == state_after(state, *r),
{
    match r {
        Reaction::Halt => EngineState::Idle,
        Reaction::BeginScroll { .. } => EngineState::ScrollMomentum,
        Reaction::BeginPointer { .. } => EngineState::PointerMomentum,
        Reaction::RetargetPointer { .. } => EngineState::PointerMomentum,
        _ => state,
    }
}

/// What a scroll tick leads to.
#[derive(Debug, Clone, Copy, PartialEq, Eq, Structural)]
pub enum ScrollTick {
    /// Emit this many high-resolution wheel units and keep going.
    Emit(i32),
    /// Emit nothing this tick and keep going.
    Quiet,
    /// Switch to the constant-deceleration phase (and restart the tick clock).
    EnterLinearDecel,
    /// The motion is over: go idle.
    Finish,
}

/// What a pointer tick leads to.
#[derive(Debug, Clone, Copy, PartialEq, Eq, Structural)]
pub enum PointerTick {
    /// Move the pointer by this much and keep going.
    Move(i32, i32),
    /// The motion is over: go idle.
    Finish,
}

/// A tick of the decay phase under `curve`. `emit_hires` is the decayed
/// motion of this tick, rounded; `below_threshold` says whether the speed has
/// fallen below the curve's threshold (the phase threshold of the dual-phase
/// curve, the stop threshold of the time-constant curve; the exponential curve
/// has none).
///
/// - dual-phase: below the threshold, switch to constant deceleration;
/// - time-constant: below the threshold, the motion is over;
/// - exponential (and an unknown curve): the motion is over once a tick's
///   motion rounds to zero.
pub open spec fn momentum_tick_spec(curve: DampingCurve, below_threshold: bool, emit_hires: i32) -> ScrollTick {
    match curve {
        DampingCurve::Dual => if below_threshold {
            ScrollTick::EnterLinearDecel
        } else if emit_hires != 0 {
            ScrollTick::Emit(emit_hires)
        } else {
            ScrollTick::Quiet
        },
        DampingCurve::Macos => if below_threshold {
            ScrollTick::Finish
        } else if emit_hires != 0 {
            ScrollTick::Emit(emit_hires)
        } else {
            ScrollTick::Quiet
        },
        _ => if emit_hires == 0 {
            ScrollTick::Finish
        } else {
            ScrollTick::Emit(emit_hires)
        },
    }
}

/// A tick of tail scrolling, `elapsed_ms` after it began: the smallest step,
/// in the direction the motion had, until `tail_ms` have passed.
pub open spec fn tail_tick_spec(elapsed_ms: u64, tail_ms: u64, positive: bool) -> ScrollTick {
    if elapsed_ms >= tail_ms {
        ScrollTick::Finish
    } else if positive {
        ScrollTick::Emit(1i32)
    } else {
        ScrollTick::Emit(-1i32)
    }
}

/// A tick of the constant-deceleration phase. `crossed_zero` says whether the
/// decelerated velocity reached or passed zero, `velocity_positive` gives its
/// sign, `rounded_hires` is this tick's motion, rounded. A motion that rounds
/// to zero still moves one unit; a motion no larger than `linear_stop_hires`
/// ends the phase.
pub open spec fn linear_decel_tick_spec(
    crossed_zero: bool,
    velocity_positive: bool,
    rounded_hires: i32,
    linear_stop_hires: i32,
) -> ScrollTick {
    let h: int = if rounded_hires == 0 {
        if velocity_positive {
            1
        } else {
            -1
        }
    } else {
        rounded_hires as int
    };
    let mag: int = if h < 0 {
        -h
    } else {
        h
    };
    if crossed_zero {
        ScrollTick::Finish
    } else if mag <= linear_stop_hires {
        ScrollTick::Finish
    } else {
        ScrollTick::Emit(h as i32)
    }
}

/// A tick of pointer momentum with the decayed motion, rounded.
pub open spec fn pointer_tick_spec(dx: i32, dy: i32) -> PointerTick {
    if dx == 0 && dy == 0 {
        PointerTick::Finish
    } else {
        PointerTick::Move(dx, dy)
    }
}

/// Decides a tick of the decay phase.
pub fn momentum_tick(curve: DampingCurve, below_threshold: bool, emit_hires: i32) -> (res:
    ScrollTick)
    ensures
        res == momentum_tick_spec(curve, below_threshold, emit_hires),
{
    match curve {
        DampingCurve::Dual => {
            if below_threshold {
                return ScrollTick::EnterLinearDecel;
            }
        },
        DampingCurve::Macos => {
            if below_threshold {
                return ScrollTick::Finish;
            }
        },
        _ => {
            if emit_hires == 0 {
                return ScrollTick::Finish;
            }
        },
    }
    if emit_hires != 0 {
        ScrollTick::Emit(emit_hires)
    } else {
        ScrollTick::Quiet
    }
}

/// Decides a tick of tail scrolling.
pub fn tail_tick(elapsed_ms: u64, tail_ms: u64, positive: bool) -> (res: ScrollTick)
    ensures
        res == tail_tick_spec(elapsed_ms, tail_ms, positive),
{
    if elapsed_ms >= tail_ms {
        ScrollTick::Finish
    } else if positive {
        ScrollTick::Emit(1)
    } else {
        ScrollTick::Emit(-1)
    }
}

/// Decides a tick of the constant-deceleration phase.
pub fn linear_decel_tick(
    crossed_zero: bool,
    velocity_positive: bool,
    rounded_hires: i32,
    linear_stop_hires: i32,
) -> (res: ScrollTick)
    requires
        rounded_hires != i32::MIN,
    ensures
        res == linear_decel_tick_spec(
            crossed_zero,
            velocity_positive,
            rounded_hires,
            linear_stop_hires,
        ),
{
    if crossed_zero {
        return ScrollTick::Finish;
    }
    let mut emit_hires: i32 = rounded_hires;
    if emit_hires == 0 {
        emit_hires = if velocity_positive {
            1
        } else {
            -1
        };
    }
    let mag: i32 = if emit_hires < 0 {
        -emit_hires
    } else {
        emit_hires
    };
    if mag <= linear_stop_hires {
        return ScrollTick::Finish;
    }
    ScrollTick::Emit(emit_hires)
}

/// Decides a tick of pointer momentum.
pub fn pointer_tick(dx: i32, dy: i32) -> (res: PointerTick)
    ensures
        res == pointer_tick_spec(dx, dy),
{
    if dx == 0 && dy == 0 {
        PointerTick::Finish
    } else {
        PointerTick::Move(dx, dy)
    }
}

/// The state after a scroll tick taken in `state`: when the deceleration
/// ends by itself and tail scrolling lasts `tail_ms > 0`, the tail follows;
/// the tail's own end, or an end without tail, leaves the engine idle.
pub open spec fn state_after_scroll_tick(state: EngineState, t: ScrollTick, tail_ms: u64) -> EngineState {
    match t {
        ScrollTick::EnterLinearDecel => EngineState::ScrollLinearDecel,
        ScrollTick::Finish => if tail_ms > 0 && (state == EngineState::ScrollMomentum || state
            == EngineState::ScrollLinearDecel) {
            EngineState::ScrollTail
        } else {
            EngineState::Idle
        },
        _ => state,
    }
}

/// The state after a scroll tick.
pub fn after_scroll_tick(state: EngineState, t: ScrollTick, tail_ms: u64) -> (res: EngineState)
    ensures
        res == state_after_scroll_tick(state, t, tail_ms),
{
    match t {
        ScrollTick::EnterLinearDecel => EngineState::ScrollLinearDecel,
        ScrollTick::Finish => {
            if tail_ms > 0 && (state == EngineState::ScrollMomentum || state
                == EngineState::ScrollLinearDecel) {
                EngineState::ScrollTail
            } else {
                EngineState::Idle
            }
        },
        _ => state,
    }
}

/// The state after a pointer tick taken in `state`: idle once the motion is over.
pub open spec fn state_after_pointer_tick(state: EngineState, t: PointerTick) -> EngineState {
    match t {
        PointerTick::Finish => EngineState::Idle,
        PointerTick::Move(..) => state,
    }
}

/// The state after a pointer tick.
pub fn after_pointer_tick(state: EngineState, t: PointerTick) -> (res: EngineState)
    ensures
        res == state_after_pointer_tick(state, t),
{
    match t {
        PointerTick::Finish => EngineState::Idle,
        PointerTick::Move(..) => state,
    }
}

/// Pointer momentum goes on while each tick moves the pointer and ends (the
/// engine idles) on the first tick whose motion rounds to nothing.
pub proof fn law_pointer_momentum_ends_at_zero_motion(dx: i32, dy: i32)
    ensures
        state_after_pointer_tick(EngineState::PointerMomentum, pointer_tick_spec(dx, dy)) == (if dx
            == 0 && dy == 0 {
            EngineState::Idle
        } else {
            EngineState::PointerMomentum
        }),
{
}

/// Touching the pad, pressing a key or moving a mouse stops momentum at once:
/// whatever the engine is doing (tail scrolling included), a `Stop` leaves it
/// idle.
pub proof fn law_stop_always_idles<F>(state: EngineState)
    ensures
        state_after(state, reaction(state, Incoming::<F>::Message(MomentumMessage::Stop)))
            == EngineState::Idle,
        state != EngineState::Idle ==> reaction(
            state,
            Incoming::<F>::Message(MomentumMessage::Stop),
        ) == Reaction::<F>::Halt,
{
}

/// While momentum runs (any state but idle), a wait that ends without a
/// message advances the motion by a tick; only an idle engine keeps waiting.
pub proof fn law_timeout_ticks_while_moving<F>(state: EngineState)
    ensures
        state != EngineState::Idle ==> reaction(state, Incoming::<F>::Timeout) == Reaction::<F>::Tick,
        state == EngineState::Idle ==> reaction(state, Incoming::<F>::Timeout) == Reaction::<F>::Wait,
        state_after(state, reaction(state, Incoming::<F>::Timeout)) == state,
{
}

/// A scroll tick that emits a step, or emits nothing, leaves the engine in the
/// phase it is in (the constant-deceleration phase goes on until it ends or the
/// step falls to the stop size); only switching phase or ending changes it.
pub proof fn law_scroll_tick_keeps_phase_while_moving(state: EngineState, t: ScrollTick, tail_ms: u64)
    ensures
        (t is Emit || t is Quiet) ==> state_after_scroll_tick(state, t, tail_ms) == state,
        t is EnterLinearDecel ==> state_after_scroll_tick(state, t, tail_ms)
            == EngineState::ScrollLinearDecel,
        t is Finish ==> state_after_scroll_tick(state, t, tail_ms) != state || state
            == EngineState::Idle,
{
}

/// A pointer gesture starts pointer momentum from idle and replaces the
/// velocity of running pointer momentum, with the gesture's velocity; it does
/// not disturb scroll momentum, which just advances. Likewise a scroll gesture
/// does not disturb pointer momentum.
pub proof fn law_pointer_message<F>(state: EngineState, vx: F, vy: F, v: F, axis: ScrollAxis)
    ensures
        state == EngineState::Idle ==> reaction(
            state,
            Incoming::Message((MomentumMessage::StartPointer { vx, vy })),
        ) == (Reaction::BeginPointer { vx, vy }),
        state == EngineState::PointerMomentum ==> reaction(
            state,
            Incoming::Message((MomentumMessage::StartPointer { vx, vy })),
        ) == (Reaction::RetargetPointer { vx, vy }),
        scrolling(state) ==> reaction(
            state,
            Incoming::Message((MomentumMessage::StartPointer { vx, vy })),
        ) == Reaction::<F>::Tick,
        state == EngineState::PointerMomentum ==> reaction(
            state,
            Incoming::Message((MomentumMessage::StartScroll { velocity_hires_per_sec: v, axis })),
        ) == Reaction::<F>::Tick,
        state != EngineState::Idle ==> state_after(
            state,
            reaction(state, Incoming::Message((MomentumMessage::StartPointer { vx, vy }))),
        ) == (if state == EngineState::PointerMomentum {
            EngineState::PointerMomentum
        } else {
            state
        }),
{
}

/// When every sender is gone the engine shuts down, whatever it is doing.
pub proof fn law_disconnect_shuts_down<F>(state: EngineState)
    ensures
        reaction(state, Incoming::<F>::Disconnected) == Reaction::<F>::Shutdown,
{
}

/// A new scroll gesture during scroll momentum (any phase, either direction)
/// ends the momentum; from idle it starts momentum with the gesture's velocity
/// and axis.
pub proof fn law_new_scroll<F>(state: EngineState, v: F, axis: ScrollAxis)
    ensures
        scrolling(state) ==> state_after(
            state,
            reaction(
                state,
                Incoming::Message((MomentumMessage::StartScroll { velocity_hires_per_sec: v, axis })),
            ),
        ) == EngineState::Idle,
        state == EngineState::Idle ==> reaction(
            state,
            Incoming::Message((MomentumMessage::StartScroll { velocity_hires_per_sec: v, axis })),
        ) == (Reaction::BeginScroll { velocity_hires_per_sec: v, axis }),
{
}

/// Momentum starts only from idle, and only on a start message; the engine
/// waits without a time limit exactly when idle.
pub proof fn law_momentum_starts_from_idle<F>(state: EngineState, incoming: Incoming<F>)
    ensures
        ({
            let r = reaction(state, incoming);
            ((r is BeginScroll) || (r is BeginPointer)) ==> state == EngineState::Idle
        }),
        state == EngineState::Idle ==> reaction(state, incoming) != Reaction::<F>::Tick,
        (wait_spec(state) is None) == (state == EngineState::Idle),
{
}

/// The engine never emits an empty scroll: every emitted motion is non-zero,
/// and in the constant-deceleration phase it is larger than the stop size.
pub proof fn law_scroll_emissions_nonzero(
    curve: DampingCurve,
    below: bool,
    emit_hires: i32,
    crossed_zero: bool,
    positive: bool,
    rounded: i32,
    stop: i32,
    elapsed: u64,
    tail: u64,
)
    ensures
        momentum_tick_spec(curve, below, emit_hires) matches ScrollTick::Emit(h) ==> h != 0,
        linear_decel_tick_spec(crossed_zero, positive, rounded, stop) matches ScrollTick::Emit(h)
            ==> (h > stop || -h > stop) && h != 0,
        tail_tick_spec(elapsed, tail, positive) matches ScrollTick::Emit(h) ==> h != 0,
        pointer_tick_spec(emit_hires, rounded) matches PointerTick::Move(x, y) ==> (x != 0 || y
            != 0),
{
}

/// In the constant-deceleration phase a motion that rounds to zero still moves
/// one unit in the direction of the velocity, unless one unit is within the stop
/// size.
pub proof fn law_linear_decel_keeps_moving(positive: bool, stop: i32)
    requires
        stop < 1,
    ensures
        linear_decel_tick_spec(false, positive, 0, stop) == ScrollTick::Emit(
            if positive {
                1i32
            } else {
                -1i32
            },
        ),
{
}

/// With the exponential curve, the decay ends exactly when a tick's motion
/// rounds to zero.
pub proof fn law_expo_ends_at_zero_motion(below: bool, emit_hires: i32)
    ensures
        (momentum_tick_spec(DampingCurve::Expo, below, emit_hires) == ScrollTick::Finish) == (
        emit_hires == 0),
{
}

/// With the time-constant curve, the decay ends exactly when the speed falls
/// below the stop threshold, and never enters the constant-deceleration phase;
/// until then it emits each tick's motion.
pub proof fn law_time_constant_curve(below: bool, emit_hires: i32)
    ensures
        (momentum_tick_spec(DampingCurve::Macos, below, emit_hires) == ScrollTick::Finish) == below,
        momentum_tick_spec(DampingCurve::Macos, below, emit_hires) != ScrollTick::EnterLinearDecel,
        !below && emit_hires != 0 ==> momentum_tick_spec(DampingCurve::Macos, below, emit_hires)
            == ScrollTick::Emit(emit_hires),
{
}

/// Tail scrolling: when the deceleration ends by itself and the tail lasts
/// some time, the tail follows, moving one unit per tick in the direction of
/// the motion until its time is up; without a tail, or at the tail's end, the
/// engine goes idle.
pub proof fn law_tail_scroll(state: EngineState, tail_ms: u64, elapsed: u64, positive: bool)
    ensures
        (state == EngineState::ScrollMomentum || state == EngineState::ScrollLinearDecel)
            ==> state_after_scroll_tick(state, ScrollTick::Finish, tail_ms) == (if tail_ms > 0 {
            EngineState::ScrollTail
        } else {
            EngineState::Idle
        }),
        state_after_scroll_tick(EngineState::ScrollTail, ScrollTick::Finish, tail_ms)
            == EngineState::Idle,
        elapsed < tail_ms ==> tail_tick_spec(elapsed, tail_ms, positive) == ScrollTick::Emit(
            if positive {
                1i32
            } else {
                -1i32
            },
        ),
        elapsed >= tail_ms ==> tail_tick_spec(elapsed, tail_ms, positive) == ScrollTick::Finish,
{
}

} // verus!
