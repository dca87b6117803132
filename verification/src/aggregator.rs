//! The aggregator: the single consumer that owns the running totals, decides
//! when progress is reported, and drives the graceful shutdown.
//!
//! The caller runs the loop. Each round it hands the aggregator what it
//! observed (the seconds since the last progress line, the signal state, what
//! the inbox gave) and carries out what the aggregator answers.

use crate::signal::SignalState;
use crate::totals::{RunningTotals, Totals};
use vstd::prelude::*;

verus! {

/// A progress line is due only after more than this many whole seconds.
pub const REPORT_AFTER_SECS: u64 = 1;

/// Where the aggregator stands in its life.
#[derive(Clone, Copy, Debug, PartialEq, Eq, Structural)]
pub enum Phase {
    /// Collecting batches and reporting progress.
    Running,
    /// A stop request was observed; the stop notice to the workers is due.
    ShuttingDown,
    /// The workers were told to stop; the final report is due.
    Terminated,
    /// The forced exit was observed: nothing more is done or reported.
    Abandoned,
}

/// What one non-blocking poll of the inbox gave.
#[derive(Clone, Copy, Debug, PartialEq, Eq, Structural)]
pub enum InboxPoll {
    /// One batch result: the number of points inside the set.
    Batch(u64),
    /// Nothing is waiting.
    Empty,
    /// Every worker has disconnected.
    Disconnected,
}

/// A broken invariant of the engine. None is recoverable: the caller aborts
/// with a diagnostic.
#[derive(Clone, Copy, Debug, PartialEq, Eq, Structural)]
pub enum Fault {
    /// Every worker disconnected although no stop was requested.
    WorkersLost,
    /// A batch result claims more points inside than a batch holds.
    BatchTooLarge,
    /// The points sampled no longer fit their counter.
    TotalsOverflow,
}

/// What the caller does next.
#[derive(Clone, Copy, Debug, PartialEq, Eq, Structural)]
pub enum Directive {
    /// Poll the inbox once and hand over what it gave.
    PollInbox,
    /// Send the stop notice to every worker, then confirm it.
    BroadcastStop,
    /// Leave the loop and emit the final report.
    Report,
    /// End the process at once, without a report.
    Abandon,
}

/// The summary emitted after a graceful shutdown.
#[derive(Clone, Copy, Debug, PartialEq, Eq)]
pub struct FinalReport {
    /// Points found inside the set.
    pub inside: u64,
    /// Points sampled in all.
    pub sampled: u64,
    /// The area estimate in the unit of the factor; `None` if nothing was
    /// sampled.
    pub area: Option<u64>,
}

/// Mathematical value of an aggregator.
pub struct AggregatorView {
    pub phase: Phase,
    pub totals: Totals,
    pub batch_size: u64,
    pub factor: u64,
    pub last_reported: Option<u64>,
}

impl AggregatorView {
    /// The current area estimate, `factor * inside / sampled` rounded down.
    pub open spec fn estimate(self) -> Option<u64> {
        match self.totals.estimate(self.factor as nat) {
            Some(a) => Some(a as u64),
            None => None,
        }
    }

    /// Whether a progress line is due: the aggregator is running, more than
    /// `REPORT_AFTER_SECS` whole seconds have passed since the last line, the
    /// estimate is defined, and it differs from the one reported last.
    pub open spec fn report_due(self, elapsed_secs: u64) -> bool {
        &&& self.phase == Phase::Running
        &&& elapsed_secs > REPORT_AFTER_SECS
        &&& self.estimate().is_some()
        &&& self.estimate() != self.last_reported
    }

    /// The aggregator after the progress decision.
    pub open spec fn progress(self, elapsed_secs: u64) -> AggregatorView {
        if self.report_due(elapsed_secs) {
            AggregatorView { last_reported: self.estimate(), ..self }
        } else {
            self
        }
    }

    /// The phase after the signal state was observed.
    pub open spec fn phase_on_signal(self, signal: SignalState) -> Phase {
        match (self.phase, signal) {
            (Phase::Abandoned, _) => Phase::Abandoned,
            (_, SignalState::ForceExit) => Phase::Abandoned,
            (Phase::Running, SignalState::StopRequested) => Phase::ShuttingDown,
            (phase, _) => phase,
        }
    }

    /// The aggregator after the signal state was observed.
    pub open spec fn on_signal(self, signal: SignalState) -> AggregatorView {
        AggregatorView { phase: self.phase_on_signal(signal), ..self }
    }

    /// What the caller does in the current phase.
    pub open spec fn directive(self) -> Directive {
        match self.phase {
            Phase::Running => Directive::PollInbox,
            Phase::ShuttingDown => Directive::BroadcastStop,
            Phase::Terminated => Directive::Report,
            Phase::Abandoned => Directive::Abandon,
        }
    }

    /// The aggregator after the stop notice went out to every worker.
    pub open spec fn broadcast_sent(self) -> AggregatorView {
        if self.phase == Phase::ShuttingDown {
            AggregatorView { phase: Phase::Terminated, ..self }
        } else {
            self
        }
    }

    /// The fault that an inbox poll amounts to, if any. Only a running
    /// aggregator looks at the poll.
    pub open spec fn fault(self, poll: InboxPoll) -> Option<Fault> {
        if self.phase != Phase::Running {
            None
        } else {
            match poll {
                InboxPoll::Empty => None,
                InboxPoll::Disconnected => Some(Fault::WorkersLost),
                InboxPoll::Batch(inside) => if inside > self.batch_size {
                    Some(Fault::BatchTooLarge)
                } else if self.totals.sampled + self.batch_size > u64::MAX {
                    Some(Fault::TotalsOverflow)
                } else {
                    None
                },
            }
        }
    }

    /// The aggregator after an inbox poll: a running aggregator adds a sound
    /// batch to the totals; nothing else changes anything.
    pub open spec fn receive(self, poll: InboxPoll) -> AggregatorView {
        match poll {
            InboxPoll::Batch(inside) if self.phase == Phase::Running && self.fault(poll).is_none() => {
                AggregatorView {
                    totals: self.totals.record(inside as nat, self.batch_size as nat),
                    ..self
                }
            },
            _ => self,
        }
    }

    /// The final report, which exists once the aggregator has terminated.
    pub open spec fn final_report(self) -> Option<FinalReport> {
        if self.phase == Phase::Terminated {
            Some(
                FinalReport {
                    inside: self.totals.inside as u64,
                    sampled: self.totals.sampled as u64,
                    area: self.estimate(),
                },
            )
        } else {
            None
        }
    }
}

/// The single consumer of batch results.
pub struct Aggregator {
    phase: Phase,
    totals: RunningTotals,
    batch_size: u64,
    factor: u64,
    last_reported: Option<u64>,
}

impl View for Aggregator {
    type V = AggregatorView;

    closed spec fn view(&self) -> AggregatorView {
        AggregatorView {
            phase: self.phase,
            totals: self.totals@,
            batch_size: self.batch_size,
            factor: self.factor,
            last_reported: self.last_reported,
        }
    }
}

impl Aggregator {
    /// A running aggregator with empty totals, for batches of `batch_size`
    /// points and estimates in the unit of `factor`.
    pub fn new(batch_size: u64, factor: u64) -> (a: Aggregator)
        ensures
            a@ == (AggregatorView {
                phase: Phase::Running,
                totals: Totals::zero(),
                batch_size,
                factor,
                last_reported: None,
            }),
    {
        Aggregator {
            phase: Phase::Running,
            totals: RunningTotals::new(),
            batch_size,
            factor,
            last_reported: None,
        }
    }

    /// The current phase.
    pub fn phase(&self) -> (p: Phase)
        ensures
            p == self@.phase,
    {
        self.phase
    }

    /// The running totals.
    pub fn totals(&self) -> (t: &RunningTotals)
        ensures
            t@ == self@.totals,
    {
        &self.totals
    }

    /// The current area estimate; `None` while nothing was sampled.
    pub fn estimate(&self) -> (area: Option<u64>)
        ensures
            area == self@.estimate(),
            area.is_none() <==> self@.totals.sampled == 0,
    {
        self.totals.area_estimate(self.factor)
    }

    /// The estimate that the last progress line carried, if there was one.
    pub fn last_reported(&self) -> (area: Option<u64>)
        ensures
            area == self@.last_reported,
    {
        self.last_reported
    }

    /// Decides on a progress line, given the whole seconds since the last
    /// one. Returns the estimate to print, and remembers it, exactly when a
    /// line is due; the caller then restarts its clock.
    pub fn progress(&mut self, elapsed_secs: u64) -> (line: Option<u64>)
        ensures
            final(self)@ == old(self)@.progress(elapsed_secs),
            line == (if old(self)@.report_due(elapsed_secs) {
                old(self)@.estimate()
            } else {
                None
            }),
    {
        if elapsed_secs <= REPORT_AFTER_SECS {
            return None;
        }
        match self.phase {
            Phase::Running => {},
            _ => {
                return None;
            },
        }
        let current = self.totals.area_estimate(self.factor);
        match current {
            None => None,
            Some(area) => {
                let changed = match self.last_reported {
                    None => true,
                    Some(last) => last != area,
                };
                if changed {
                    self.last_reported = Some(area);
                    Some(area)
                } else {
                    None
                }
            },
        }
    }

    /// Takes note of the signal state and says what to do next. A running
    /// aggregator that sees a stop request starts the shutdown; whoever sees
    /// the forced exit abandons everything.
    pub fn observe_signal(&mut self, signal: SignalState) -> (d: Directive)
        ensures
            final(self)@ == old(self)@.on_signal(signal),
            d == final(self)@.directive(),
    {
        match self.phase {
            Phase::Abandoned => {},
            _ => {
                match signal {
                    SignalState::ForceExit => {
                        self.phase = Phase::Abandoned;
                    },
                    SignalState::StopRequested => {
                        match self.phase {
                            Phase::Running => {
                                self.phase = Phase::ShuttingDown;
                            },
                            _ => {},
                        }
                    },
                    SignalState::Idle => {},
                }
            },
        }
        match self.phase {
            Phase::Running => Directive::PollInbox,
            Phase::ShuttingDown => Directive::BroadcastStop,
            Phase::Terminated => Directive::Report,
            Phase::Abandoned => Directive::Abandon,
        }
    }

    /// Confirms that the stop notice went out to every worker: the shutdown
    /// is over and the final report is due. The aggregator does not wait for
    /// the workers.
    pub fn broadcast_sent(&mut self)
        ensures
            final(self)@ == old(self)@.broadcast_sent(),
    {
        match self.phase {
            Phase::ShuttingDown => {
                self.phase = Phase::Terminated;
            },
            _ => {},
        }
    }

    /// Takes what one poll of the inbox gave. A running aggregator adds a
    /// batch to the totals, ignores an empty inbox, and reports a fault when
    /// every worker is gone or the batch cannot be added. On a fault, and in
    /// every other phase, nothing changes.
    pub fn receive(&mut self, poll: InboxPoll) -> (r: Result<(), Fault>)
        ensures
            final(self)@ == old(self)@.receive(poll),
            r == (match old(self)@.fault(poll) {
                Some(fault) => Err::<(), Fault>(fault),
                None => Ok::<(), Fault>(()),
            }),
    {
        match self.phase {
            Phase::Running => {},
            _ => {
                return Ok(());
            },
        }
        match poll {
            InboxPoll::Empty => Ok(()),
            InboxPoll::Disconnected => Err(Fault::WorkersLost),
            InboxPoll::Batch(inside) => {
                if inside > self.batch_size {
                    Err(Fault::BatchTooLarge)
                } else if !self.totals.accepts(inside, self.batch_size) {
                    Err(Fault::TotalsOverflow)
                } else {
                    self.totals.record_batch(inside, self.batch_size);
                    Ok(())
                }
            },
        }
    }

    /// The final report: the totals and the estimate derived from them. It
    /// exists only after a graceful shutdown.
    pub fn final_report(&self) -> (report: Option<FinalReport>)
        ensures
            report == self@.final_report(),
    {
        match self.phase {
            Phase::Terminated => Some(
                FinalReport {
                    inside: self.totals.inside(),
                    sampled: self.totals.sampled(),
                    area: self.totals.area_estimate(self.factor),
                },
            ),
            _ => None,
        }
    }
}

/// While nothing was sampled the estimate is undefined: no progress line is
/// due, however much time has passed, and a final report carries no area.
pub proof fn lemma_no_estimate_without_samples(a: AggregatorView, elapsed_secs: u64)
    requires
        a.totals.sampled == 0,
    ensures
        a.estimate().is_none(),
        !a.report_due(elapsed_secs),
        a.progress(elapsed_secs) == a,
        a.final_report() matches Some(report) ==> report.area.is_none() && report.sampled == 0,
{
}

/// A line that was just reported is not reported again while the totals stay
/// as they are.
pub proof fn lemma_report_is_not_repeated(a: AggregatorView, first: u64, second: u64)
    requires
        a.report_due(first),
    ensures
        !a.progress(first).report_due(second),
{
}

/// Observing the forced exit abandons the run in every phase, and an
/// abandoned aggregator stays abandoned and never has a final report.
pub proof fn lemma_forced_exit_abandons(a: AggregatorView, signal: SignalState, poll: InboxPoll, secs: u64)
    ensures
        a.on_signal(SignalState::ForceExit).phase == Phase::Abandoned,
        a.on_signal(SignalState::ForceExit).directive() == Directive::Abandon,
        a.phase == Phase::Abandoned ==> {
            &&& a.final_report().is_none()
            &&& a.on_signal(signal) == a
            &&& a.broadcast_sent() == a
            &&& a.receive(poll) == a
            &&& a.progress(secs) == a
        },
{
}

/// A stop request observed while running leads, through the stop notice, to
/// the final report of the totals as they stand, without another batch being
/// taken in.
pub proof fn lemma_graceful_shutdown(a: AggregatorView, poll: InboxPoll)
    requires
        a.phase == Phase::Running,
    ensures
        a.on_signal(SignalState::Idle) == a,
        a.on_signal(SignalState::StopRequested).directive() == Directive::BroadcastStop,
        a.on_signal(SignalState::StopRequested).receive(poll).totals == a.totals,
        a.on_signal(SignalState::StopRequested).broadcast_sent().directive() == Directive::Report,
        a.on_signal(SignalState::StopRequested).broadcast_sent().final_report() == Some(
            FinalReport {
                inside: a.totals.inside as u64,
                sampled: a.totals.sampled as u64,
                area: a.estimate(),
            },
        ),
{
}

/// The batches that a running aggregator takes in, each within the batch size
/// and with room left in the counters, add up in its totals as they do in
/// the totals alone.
pub proof fn lemma_receive_delivers(a: AggregatorView, counts: Seq<u64>)
    requires
        a.phase == Phase::Running,
        forall|i: int| 0 <= i < counts.len() ==> counts[i] <= a.batch_size,
        a.totals.sampled + counts.len() * a.batch_size <= u64::MAX,
    ensures
        receive_all(a, counts).totals == a.totals.deliver(counts, a.batch_size as nat),
        receive_all(a, counts).totals.sampled == a.totals.sampled + counts.len() * a.batch_size,
        receive_all(a, counts).phase == Phase::Running,
        receive_all(a, counts).batch_size == a.batch_size,
    decreases counts.len(),
{
    if counts.len() > 0 {
        let front = counts.drop_last();
        assert(counts.len() * a.batch_size == front.len() * a.batch_size + a.batch_size)
            by (nonlinear_arith)
            requires
                counts.len() == front.len() + 1,
        ;
        lemma_receive_delivers(a, front);
    }
}

/// The aggregator after the batch results `counts` came out of the inbox, in
/// order.
pub open spec fn receive_all(a: AggregatorView, counts: Seq<u64>) -> AggregatorView
    decreases counts.len(),
{
    if counts.len() == 0 {
        a
    } else {
        receive_all(a, counts.drop_last()).receive(InboxPoll::Batch(counts.last()))
    }
}

} // verus!
