//! The worker: the decisions of the loop that produces batch results.
//!
//! The caller runs the loop. Before each batch it asks `Worker::next_step`;
//! after each hand-off it asks `Worker::after_hand_off`.

use crate::signal::SignalState;
use vstd::prelude::*;

verus! {

/// What one non-blocking poll for the aggregator's stop notice gave.
#[derive(Clone, Copy, Debug, PartialEq, Eq, Structural)]
pub enum StopPoll {
    /// The stop notice has arrived.
    Stop,
    /// Nothing has arrived.
    Clear,
    /// The aggregator is gone.
    Disconnected,
}

/// What became of handing a batch result to the aggregator's inbox.
#[derive(Clone, Copy, Debug, PartialEq, Eq, Structural)]
pub enum HandOff {
    /// The inbox took the result.
    Delivered,
    /// The aggregator has closed its inbox.
    InboxClosed,
}

/// What the worker does next.
#[derive(Clone, Copy, Debug, PartialEq, Eq, Structural)]
pub enum WorkerStep {
    /// Sample one batch and hand its result over.
    RunBatch,
    /// Leave the loop; this is a normal end.
    Exit,
    /// Abort with a diagnostic: the inbox closed although nobody asked to
    /// stop.
    Fail,
}

/// The decisions of one worker. A worker holds no state of its own.
pub struct Worker;

impl Worker {
    /// Whether anything the worker observed asks it to stop.
    pub open spec fn told_to_stop(signal: SignalState, notice: StopPoll) -> bool {
        signal != SignalState::Idle || notice != StopPoll::Clear
    }

    /// The step at the top of the loop.
    pub open spec fn spec_next_step(signal: SignalState, notice: StopPoll) -> WorkerStep {
        if Self::told_to_stop(signal, notice) {
            WorkerStep::Exit
        } else {
            WorkerStep::RunBatch
        }
    }

    /// The step after a hand-off.
    pub open spec fn spec_after_hand_off(outcome: HandOff, signal: SignalState) -> WorkerStep {
        match outcome {
            HandOff::Delivered => WorkerStep::RunBatch,
            HandOff::InboxClosed => if signal == SignalState::Idle {
                WorkerStep::Fail
            } else {
                WorkerStep::Exit
            },
        }
    }

    /// Decides at the top of the loop, from the signal state and the poll for
    /// the stop notice: the worker starts a new batch only if neither asks it
    /// to stop.
    pub fn next_step(signal: SignalState, notice: StopPoll) -> (step: WorkerStep)
        ensures
            step == Self::spec_next_step(signal, notice),
    {
        match (signal, notice) {
            (SignalState::Idle, StopPoll::Clear) => WorkerStep::RunBatch,
            _ => WorkerStep::Exit,
        }
    }

    /// Decides after a hand-off, from its outcome and the signal state read
    /// afterwards. A closed inbox ends the worker quietly during a shutdown
    /// and is a failure otherwise.
    pub fn after_hand_off(outcome: HandOff, signal: SignalState) -> (step: WorkerStep)
        ensures
            step == Self::spec_after_hand_off(outcome, signal),
    {
        match outcome {
            HandOff::Delivered => WorkerStep::RunBatch,
            HandOff::InboxClosed => match signal {
                SignalState::Idle => WorkerStep::Fail,
                _ => WorkerStep::Exit,
            },
        }
    }
}

/// Once a stop of either tier is requested, a worker never starts another
/// batch, whatever its poll for the stop notice gave, and a closed inbox is
/// no failure.
pub proof fn lemma_worker_stops_on_request(signal: SignalState, notice: StopPoll, outcome: HandOff)
    requires
        signal.level() >= 1,
    ensures
        Worker::spec_next_step(signal, notice) == WorkerStep::Exit,
        Worker::spec_after_hand_off(outcome, signal) != WorkerStep::Fail,
{
}

} // verus!
