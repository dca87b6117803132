//! The escalating interrupt signal shared by the workers and the aggregator.

use vstd::prelude::*;

verus! {

/// Level of the process-wide stop signal. It only ever escalates:
/// `Idle`, then `StopRequested`, then `ForceExit`.
#[derive(Clone, Copy, Debug, PartialEq, Eq, Structural)]
pub enum SignalState {
    /// No interrupt has arrived.
    Idle,
    /// One interrupt has arrived: finish cooperatively.
    StopRequested,
    /// A repeated interrupt has arrived: the process ends at once.
    ForceExit,
}

/// What the interrupt handler has to do after it recorded an interrupt.
#[derive(Clone, Copy, Debug, PartialEq, Eq, Structural)]
pub enum InterruptAction {
    /// Announce that the program is ending and return normally.
    AnnounceStop,
    /// Announce the forced exit and end the process with a non-zero status.
    ExitNow,
}

impl SignalState {
    /// Position of the state in the escalation order.
    pub open spec fn level(self) -> nat {
        match self {
            SignalState::Idle => 0,
            SignalState::StopRequested => 1,
            SignalState::ForceExit => 2,
        }
    }

    /// The state that one more interrupt leads to.
    pub open spec fn after_interrupt(self) -> SignalState {
        match self {
            SignalState::Idle => SignalState::StopRequested,
            SignalState::StopRequested => SignalState::ForceExit,
            SignalState::ForceExit => SignalState::ForceExit,
        }
    }

    /// The state after `n` further interrupts.
    pub open spec fn after_interrupts(self, n: nat) -> SignalState
        decreases n,
    {
        if n == 0 {
            self
        } else {
            self.after_interrupts((n - 1) as nat).after_interrupt()
        }
    }

    /// What the handler does for an interrupt that arrives in this state.
    pub open spec fn interrupt_action(self) -> InterruptAction {
        match self {
            SignalState::Idle => InterruptAction::AnnounceStop,
            _ => InterruptAction::ExitNow,
        }
    }

    /// The number under which a state is kept in a shared atomic cell.
    pub open spec fn spec_code(self) -> u8 {
        match self {
            SignalState::Idle => 0u8,
            SignalState::StopRequested => 1u8,
            SignalState::ForceExit => 2u8,
        }
    }

    /// The state at start-up.
    pub fn new() -> (s: SignalState)
        ensures
            s == SignalState::Idle,
    {
        SignalState::Idle
    }

    /// Records one interrupt: returns the escalated state and what the handler
    /// must do. The first interrupt asks for a graceful stop, every later one
    /// forces the exit.
    pub fn on_interrupt(self) -> (r: (SignalState, InterruptAction))
        ensures
            r.0 == self.after_interrupt(),
            r.1 == self.interrupt_action(),
    {
        match self {
            SignalState::Idle => (SignalState::StopRequested, InterruptAction::AnnounceStop),
            SignalState::StopRequested => (SignalState::ForceExit, InterruptAction::ExitNow),
            SignalState::ForceExit => (SignalState::ForceExit, InterruptAction::ExitNow),
        }
    }

    /// Whether a stop of either tier has been requested.
    pub fn stop_requested(self) -> (b: bool)
        ensures
            b == (self.level() >= 1),
    {
        match self {
            SignalState::Idle => false,
            _ => true,
        }
    }

    /// Whether the forced exit has been requested.
    pub fn force_exit(self) -> (b: bool)
        ensures
            b == (self == SignalState::ForceExit),
    {
        match self {
            SignalState::ForceExit => true,
            _ => false,
        }
    }

    /// Encodes the state for a shared atomic cell.
    pub fn code(self) -> (c: u8)
        ensures
            c == self.spec_code(),
            c == self.level(),
    {
        match self {
            SignalState::Idle => 0,
            SignalState::StopRequested => 1,
            SignalState::ForceExit => 2,
        }
    }

    /// Decodes what `code` wrote; any other number is no state.
    pub fn from_code(c: u8) -> (s: Option<SignalState>)
        ensures
            s.is_some() <==> c <= 2,
            s matches Some(st) ==> st.spec_code() == c,
    {
        if c == 0 {
            Some(SignalState::Idle)
        } else if c == 1 {
            Some(SignalState::StopRequested)
        } else if c == 2 {
            Some(SignalState::ForceExit)
        } else {
            None
        }
    }
}

/// One interrupt never lowers the level, and raises it by exactly one below
/// `ForceExit`.
pub proof fn lemma_interrupt_escalates(s: SignalState)
    ensures
        s.level() <= s.after_interrupt().level(),
        s != SignalState::ForceExit ==> s.after_interrupt().level() == s.level() + 1,
        s == SignalState::ForceExit ==> s.after_interrupt() == SignalState::ForceExit,
{
}

/// The state never regresses: whatever was observed after `n` interrupts, the
/// level observed after `m >= n` interrupts is at least as high. In
/// particular, once `ForceExit` is observed it is observed ever after.
pub proof fn lemma_signal_never_regresses(s: SignalState, n: nat, m: nat)
    requires
        n <= m,
    ensures
        s.after_interrupts(n).level() <= s.after_interrupts(m).level(),
        s.after_interrupts(n) == SignalState::ForceExit ==> s.after_interrupts(m)
            == SignalState::ForceExit,
    decreases m,
{
    if n < m {
        lemma_signal_never_regresses(s, n, (m - 1) as nat);
        lemma_interrupt_escalates(s.after_interrupts((m - 1) as nat));
    }
}

/// Starting from `Idle`, the first interrupt leads to `StopRequested`, and
/// every further one to `ForceExit`: the step from `Idle` to `StopRequested`
/// is taken exactly once, by the first interrupt.
pub proof fn lemma_interrupts_from_idle(n: nat)
    ensures
        SignalState::Idle.after_interrupts(n) == (if n == 0 {
            SignalState::Idle
        } else if n == 1 {
            SignalState::StopRequested
        } else {
            SignalState::ForceExit
        }),
        SignalState::StopRequested.after_interrupt() == SignalState::ForceExit,
        SignalState::StopRequested.interrupt_action() == InterruptAction::ExitNow,
    decreases n,
{
    if n > 0 {
        lemma_interrupts_from_idle((n - 1) as nat);
    }
}

/// Encoding and decoding are inverse to each other, and the code orders the
/// states as the escalation does.
pub proof fn lemma_code_round_trip(s: SignalState, t: SignalState)
    ensures
        s.spec_code() <= 2,
        s.spec_code() == s.level(),
        s.spec_code() == t.spec_code() ==> s == t,
{
}

} // verus!
