use mandelbrot_area::signal::SignalState;
use mandelbrot_area::worker::{HandOff, StopPoll, Worker, WorkerStep};

#[test]
fn worker_samples_while_nothing_asks_to_stop() {
    assert_eq!(Worker::next_step(SignalState::Idle, StopPoll::Clear), WorkerStep::RunBatch);
}

#[test]
fn worker_exits_on_stop_notice() {
    assert_eq!(Worker::next_step(SignalState::Idle, StopPoll::Stop), WorkerStep::Exit);
}

#[test]
fn worker_exits_when_aggregator_is_gone() {
    assert_eq!(Worker::next_step(SignalState::Idle, StopPoll::Disconnected), WorkerStep::Exit);
}

#[test]
fn worker_exits_on_either_stop_tier() {
    for notice in [StopPoll::Stop, StopPoll::Clear, StopPoll::Disconnected] {
        assert_eq!(Worker::next_step(SignalState::StopRequested, notice), WorkerStep::Exit);
        assert_eq!(Worker::next_step(SignalState::ForceExit, notice), WorkerStep::Exit);
    }
}

#[test]
fn delivered_batch_continues_the_loop() {
    for signal in [SignalState::Idle, SignalState::StopRequested, SignalState::ForceExit] {
        assert_eq!(Worker::after_hand_off(HandOff::Delivered, signal), WorkerStep::RunBatch);
    }
}

#[test]
fn closed_inbox_during_shutdown_is_a_quiet_end() {
    assert_eq!(
        Worker::after_hand_off(HandOff::InboxClosed, SignalState::StopRequested),
        WorkerStep::Exit
    );
    assert_eq!(
        Worker::after_hand_off(HandOff::InboxClosed, SignalState::ForceExit),
        WorkerStep::Exit
    );
}

#[test]
fn closed_inbox_without_stop_request_is_a_failure() {
    assert_eq!(Worker::after_hand_off(HandOff::InboxClosed, SignalState::Idle), WorkerStep::Fail);
}
