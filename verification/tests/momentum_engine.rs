use rinertia::config::DampingCurve;
use rinertia::momentum::{
    after_pointer_tick, after_scroll_tick, linear_decel_tick, momentum_tick, next_state, pointer_tick, react,
    tail_tick, wait_nanos, EngineState, Incoming, PointerTick, Reaction, ScrollTick,
};
use rinertia::{MomentumMessage, ScrollAxis};

fn scroll() -> Incoming<f64> {
    Incoming::Message(MomentumMessage::StartScroll { velocity_hires_per_sec: 900.0, axis: ScrollAxis::Horizontal })
}

fn pointer() -> Incoming<f64> {
    Incoming::Message(MomentumMessage::StartPointer { vx: 10.0, vy: -2.0 })
}

fn stop() -> Incoming<f64> {
    Incoming::Message(MomentumMessage::Stop)
}

const ALL: [EngineState; 5] = [
    EngineState::Idle,
    EngineState::ScrollMomentum,
    EngineState::ScrollLinearDecel,
    EngineState::ScrollTail,
    EngineState::PointerMomentum,
];

#[test]
fn stop_always_leads_to_idle() {
    for s in ALL {
        let r = react(s, &stop());
        assert_eq!(next_state(s, &r), EngineState::Idle);
        assert_eq!(react(s, &Incoming::<f64>::Disconnected), Reaction::Shutdown);
    }
}

#[test]
fn messages_in_each_state() {
    assert_eq!(
        react(EngineState::Idle, &scroll()),
        Reaction::BeginScroll { velocity_hires_per_sec: 900.0, axis: ScrollAxis::Horizontal }
    );
    assert_eq!(react(EngineState::Idle, &pointer()), Reaction::BeginPointer { vx: 10.0, vy: -2.0 });
    assert_eq!(react(EngineState::Idle, &stop()), Reaction::Wait);
    assert_eq!(react(EngineState::ScrollMomentum, &scroll()), Reaction::Halt);
    assert_eq!(react(EngineState::ScrollLinearDecel, &scroll()), Reaction::Halt);
    assert_eq!(react(EngineState::ScrollTail, &scroll()), Reaction::Halt);
    assert_eq!(react(EngineState::ScrollMomentum, &pointer()), Reaction::Tick);
    assert_eq!(
        react(EngineState::PointerMomentum, &pointer()),
        Reaction::RetargetPointer { vx: 10.0, vy: -2.0 }
    );
    assert_eq!(react(EngineState::PointerMomentum, &scroll()), Reaction::Tick);
    assert_eq!(react(EngineState::PointerMomentum, &Incoming::<f64>::Timeout), Reaction::Tick);
    assert_eq!(
        next_state(EngineState::Idle, &react(EngineState::Idle, &scroll())),
        EngineState::ScrollMomentum
    );
    assert_eq!(
        next_state(EngineState::Idle, &react(EngineState::Idle, &pointer())),
        EngineState::PointerMomentum
    );
}

#[test]
fn waits_per_state() {
    assert_eq!(wait_nanos(EngineState::Idle), None);
    assert_eq!(wait_nanos(EngineState::ScrollMomentum), Some(1_000_000));
    assert_eq!(wait_nanos(EngineState::ScrollLinearDecel), Some(1_000_000));
    assert_eq!(wait_nanos(EngineState::ScrollTail), Some(1_000_000));
    assert_eq!(wait_nanos(EngineState::PointerMomentum), Some(16_666_667));
}

#[test]
fn decay_phase_ticks() {
    assert_eq!(momentum_tick(DampingCurve::Dual, true, 40), ScrollTick::EnterLinearDecel);
    assert_eq!(momentum_tick(DampingCurve::Dual, false, 40), ScrollTick::Emit(40));
    assert_eq!(momentum_tick(DampingCurve::Dual, false, 0), ScrollTick::Quiet);
    assert_eq!(momentum_tick(DampingCurve::Expo, true, 0), ScrollTick::Finish);
    assert_eq!(momentum_tick(DampingCurve::Expo, true, -3), ScrollTick::Emit(-3));
    assert_eq!(momentum_tick(DampingCurve::Unknown, false, 0), ScrollTick::Finish);
    assert_eq!(momentum_tick(DampingCurve::Macos, true, 12), ScrollTick::Finish);
    assert_eq!(momentum_tick(DampingCurve::Macos, false, 12), ScrollTick::Emit(12));
    assert_eq!(momentum_tick(DampingCurve::Macos, false, 0), ScrollTick::Quiet);
    assert_eq!(
        after_scroll_tick(EngineState::ScrollMomentum, ScrollTick::EnterLinearDecel, 0),
        EngineState::ScrollLinearDecel
    );
    assert_eq!(after_scroll_tick(EngineState::ScrollMomentum, ScrollTick::Finish, 0), EngineState::Idle);
    assert_eq!(
        after_scroll_tick(EngineState::ScrollMomentum, ScrollTick::Emit(5), 0),
        EngineState::ScrollMomentum
    );
}

#[test]
fn tail_scroll_after_deceleration() {
    assert_eq!(
        after_scroll_tick(EngineState::ScrollLinearDecel, ScrollTick::Finish, 200),
        EngineState::ScrollTail
    );
    assert_eq!(after_scroll_tick(EngineState::ScrollMomentum, ScrollTick::Finish, 200), EngineState::ScrollTail);
    assert_eq!(after_scroll_tick(EngineState::ScrollTail, ScrollTick::Emit(1), 200), EngineState::ScrollTail);
    assert_eq!(after_scroll_tick(EngineState::ScrollTail, ScrollTick::Finish, 200), EngineState::Idle);
    assert_eq!(tail_tick(0, 200, true), ScrollTick::Emit(1));
    assert_eq!(tail_tick(199, 200, false), ScrollTick::Emit(-1));
    assert_eq!(tail_tick(200, 200, true), ScrollTick::Finish);
    assert_eq!(tail_tick(5, 0, true), ScrollTick::Finish);
}

#[test]
fn linear_phase_ticks() {
    assert_eq!(linear_decel_tick(true, true, 50, 1), ScrollTick::Finish);
    assert_eq!(linear_decel_tick(false, true, 50, 1), ScrollTick::Emit(50));
    assert_eq!(linear_decel_tick(false, false, -2, 1), ScrollTick::Emit(-2));
    assert_eq!(linear_decel_tick(false, false, -1, 1), ScrollTick::Finish);
    assert_eq!(linear_decel_tick(false, true, 0, 1), ScrollTick::Finish);
    assert_eq!(linear_decel_tick(false, true, 0, 0), ScrollTick::Emit(1));
    assert_eq!(linear_decel_tick(false, false, 0, 0), ScrollTick::Emit(-1));
}

#[test]
fn pointer_ticks() {
    assert_eq!(pointer_tick(0, 0), PointerTick::Finish);
    assert_eq!(pointer_tick(3, 0), PointerTick::Move(3, 0));
    assert_eq!(pointer_tick(0, -1), PointerTick::Move(0, -1));
    assert_eq!(after_pointer_tick(EngineState::PointerMomentum, pointer_tick(0, 0)), EngineState::Idle);
    assert_eq!(
        after_pointer_tick(EngineState::PointerMomentum, pointer_tick(2, 0)),
        EngineState::PointerMomentum
    );
}
