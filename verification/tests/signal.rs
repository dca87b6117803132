use mandelbrot_area::signal::{InterruptAction, SignalState};

#[test]
fn starts_idle() {
    let s = SignalState::new();
    assert_eq!(s, SignalState::Idle);
    assert!(!s.stop_requested());
    assert!(!s.force_exit());
}

#[test]
fn first_interrupt_requests_stop() {
    let (next, action) = SignalState::Idle.on_interrupt();
    assert_eq!(next, SignalState::StopRequested);
    assert_eq!(action, InterruptAction::AnnounceStop);
    assert!(next.stop_requested());
    assert!(!next.force_exit());
}

#[test]
fn second_interrupt_forces_exit() {
    let (next, action) = SignalState::StopRequested.on_interrupt();
    assert_eq!(next, SignalState::ForceExit);
    assert_eq!(action, InterruptAction::ExitNow);
    assert!(next.stop_requested());
    assert!(next.force_exit());
}

#[test]
fn force_exit_is_absorbing() {
    let mut state = SignalState::ForceExit;
    for _ in 0..10 {
        let (next, action) = state.on_interrupt();
        assert_eq!(next, SignalState::ForceExit);
        assert_eq!(action, InterruptAction::ExitNow);
        state = next;
    }
}

#[test]
fn level_never_regresses_over_many_interrupts() {
    let mut state = SignalState::new();
    let mut last = state.code();
    let mut stop_announced = 0;
    for _ in 0..8 {
        let (next, action) = state.on_interrupt();
        if action == InterruptAction::AnnounceStop {
            stop_announced += 1;
        }
        assert!(next.code() >= last);
        last = next.code();
        state = next;
    }
    assert_eq!(state, SignalState::ForceExit);
    assert_eq!(stop_announced, 1);
}

#[test]
fn codes_round_trip() {
    for s in [SignalState::Idle, SignalState::StopRequested, SignalState::ForceExit] {
        assert_eq!(SignalState::from_code(s.code()), Some(s));
    }
    assert_eq!(SignalState::Idle.code(), 0);
    assert_eq!(SignalState::StopRequested.code(), 1);
    assert_eq!(SignalState::ForceExit.code(), 2);
}

#[test]
fn unknown_codes_are_no_state() {
    assert_eq!(SignalState::from_code(3), None);
    assert_eq!(SignalState::from_code(255), None);
}
