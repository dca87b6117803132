//! The running totals that the aggregator owns, and the area derived from them.

use vstd::prelude::*;

verus! {

/// Four times pi in billionths, rounded down: the area of the disk of radius 2
/// that bounds the Mandelbrot set, as a fixed-point number.
pub const FOUR_PI_NANOS: u64 = 12_566_370_614;

/// Mathematical value of the running totals.
pub struct Totals {
    /// Points found inside the set.
    pub inside: nat,
    /// Points sampled in all.
    pub sampled: nat,
}

impl Totals {
    /// The totals before any batch was delivered.
    pub open spec fn zero() -> Totals {
        Totals { inside: 0, sampled: 0 }
    }

    /// The totals after one more batch of `batch_size` points, `inside` of
    /// them inside the set.
    pub open spec fn record(self, inside: nat, batch_size: nat) -> Totals {
        Totals { inside: self.inside + inside, sampled: self.sampled + batch_size }
    }

    /// The totals after the batches `counts`, delivered in order, each of
    /// `batch_size` points.
    pub open spec fn deliver(self, counts: Seq<u64>, batch_size: nat) -> Totals
        decreases counts.len(),
    {
        if counts.len() == 0 {
            self
        } else {
            self.deliver(counts.drop_last(), batch_size).record(counts.last() as nat, batch_size)
        }
    }

    /// The area estimate `factor * inside / sampled`, rounded down, in the unit
    /// of `factor`; undefined while nothing was sampled.
    pub open spec fn estimate(self, factor: nat) -> Option<nat> {
        if self.sampled == 0 {
            None
        } else {
            Some(factor * self.inside / self.sampled)
        }
    }
}

/// Sum of the inside-counts of a sequence of batches.
pub open spec fn sum_counts(counts: Seq<u64>) -> nat
    decreases counts.len(),
{
    if counts.len() == 0 {
        0
    } else {
        sum_counts(counts.drop_last()) + counts.last() as nat
    }
}

/// Points inside and points sampled so far. `inside` never exceeds `sampled`,
/// and neither ever decreases.
pub struct RunningTotals {
    inside: u64,
    sampled: u64,
}

impl View for RunningTotals {
    type V = Totals;

    closed spec fn view(&self) -> Totals {
        Totals { inside: self.inside as nat, sampled: self.sampled as nat }
    }
}

impl RunningTotals {
    #[verifier::type_invariant]
    spec fn consistent(self) -> bool {
        self.inside <= self.sampled
    }

    /// Totals of a run that has not received a batch yet.
    pub fn new() -> (t: RunningTotals)
        ensures
            t@ == Totals::zero(),
    {
        RunningTotals { inside: 0, sampled: 0 }
    }

    /// Points found inside the set so far.
    pub fn inside(&self) -> (n: u64)
        ensures
            n == self@.inside,
            n <= self@.sampled,
    {
        proof {
            use_type_invariant(self);
        }
        self.inside
    }

    /// Points sampled so far.
    pub fn sampled(&self) -> (n: u64)
        ensures
            n == self@.sampled,
    {
        self.sampled
    }

    /// Whether a batch of `batch_size` points with `inside` of them inside the
    /// set can be added: the count fits the batch and the totals still fit
    /// their counters.
    pub fn accepts(&self, inside: u64, batch_size: u64) -> (ok: bool)
        ensures
            ok == (inside <= batch_size && self@.sampled + batch_size <= u64::MAX),
    {
        inside <= batch_size && self.sampled <= u64::MAX - batch_size
    }

    /// Adds one batch: `inside` to the points inside, `batch_size` to the
    /// points sampled.
    pub fn record_batch(&mut self, inside: u64, batch_size: u64)
        requires
            inside <= batch_size,
            old(self)@.sampled + batch_size <= u64::MAX,
        ensures
            final(self)@ == old(self)@.record(inside as nat, batch_size as nat),
    {
        proof {
            use_type_invariant(&*self);
        }
        self.sampled = self.sampled + batch_size;
        self.inside = self.inside + inside;
    }

    /// The current area estimate, `factor * inside / sampled` rounded down, in
    /// the unit of `factor`; `None` while nothing was sampled. With
    /// `FOUR_PI_NANOS` as the factor the result is the area in billionths.
    pub fn area_estimate(&self, factor: u64) -> (area: Option<u64>)
        ensures
            area.is_some() <==> self@.sampled != 0,
            area matches Some(a) ==> self@.estimate(factor as nat) == Some(a as nat),
            area matches Some(a) ==> a <= factor,
    {
        proof {
            use_type_invariant(self);
        }
        if self.sampled == 0 {
            return None;
        }
        assert(factor * self.inside <= u64::MAX * u64::MAX) by (nonlinear_arith)
            requires
                factor <= u64::MAX,
                self.inside <= u64::MAX,
        ;
        let scaled: u128 = (factor as u128) * (self.inside as u128);
        let quotient: u128 = scaled / (self.sampled as u128);
        proof {
            lemma_estimate_bounded(self.inside as nat, self.sampled as nat, factor as nat);
        }
        Some(quotient as u64)
    }
}

/// The estimate never exceeds the factor, because `inside <= sampled`.
pub proof fn lemma_estimate_bounded(inside: nat, sampled: nat, factor: nat)
    requires
        inside <= sampled,
        sampled > 0,
    ensures
        factor * inside / sampled <= factor,
{
    assert(factor * inside <= factor * sampled) by (nonlinear_arith)
        requires
            inside <= sampled,
    ;
    assert(factor * inside / sampled <= factor) by (nonlinear_arith)
        requires
            factor * inside <= factor * sampled,
            sampled > 0,
    ;
}

/// After any number of batches of `batch_size` points each, delivered to
/// fresh totals, the points sampled are the number of batches times the batch
/// size, the points inside are the sum of the delivered counts, and the
/// points inside never exceed the points sampled.
pub proof fn lemma_totals_after_batches(counts: Seq<u64>, batch_size: nat)
    requires
        forall|i: int| 0 <= i < counts.len() ==> counts[i] <= batch_size,
    ensures
        Totals::zero().deliver(counts, batch_size).sampled == counts.len() * batch_size,
        Totals::zero().deliver(counts, batch_size).inside == sum_counts(counts),
        Totals::zero().deliver(counts, batch_size).inside <= Totals::zero().deliver(
            counts,
            batch_size,
        ).sampled,
    decreases counts.len(),
{
    if counts.len() > 0 {
        let front = counts.drop_last();
        lemma_totals_after_batches(front, batch_size);
        assert(counts.len() * batch_size == front.len() * batch_size + batch_size)
            by (nonlinear_arith)
            requires
                counts.len() == front.len() + 1,
        ;
    }
}

/// Delivering a batch never lowers either total.
pub proof fn lemma_record_is_monotonic(t: Totals, inside: nat, batch_size: nat)
    requires
        t.inside <= t.sampled,
        inside <= batch_size,
    ensures
        t.inside <= t.record(inside, batch_size).inside,
        t.sampled <= t.record(inside, batch_size).sampled,
        t.record(inside, batch_size).inside <= t.record(inside, batch_size).sampled,
{
}

/// The estimate depends on the totals and the factor alone: equal totals give
/// equal estimates, however often it is computed.
pub proof fn lemma_estimate_is_function_of_totals(a: Totals, b: Totals, factor: nat)
    requires
        a.inside == b.inside,
        a.sampled == b.sampled,
    ensures
        a.estimate(factor) == b.estimate(factor),
{
}

/// The estimate is undefined exactly while nothing was sampled, and otherwise
/// is `factor * inside / sampled`.
pub proof fn lemma_estimate_defined(t: Totals, factor: nat)
    ensures
        t.estimate(factor).is_none() <==> t.sampled == 0,
        t.sampled != 0 ==> t.estimate(factor) == Some(factor * t.inside / t.sampled),
{
}

} // verus!
