//! The latency sample store: how many samples a phase captured, and the sum
//! of their durations.
//!
//! Both totals saturate at `u64::MAX` rather than wrap, so that neither ever
//! falls within a phase.

use vstd::prelude::*;

verus! {

/// What a counter stands for: the number of samples captured and the sum of
/// their durations in microseconds.
pub struct Tally {
    pub count: nat,
    pub total: nat,
}

/// The largest value either total can hold.
pub open spec fn tally_limit() -> nat {
    u64::MAX as nat
}

/// `n`, held at the limit once it passes it.
pub open spec fn capped(n: nat) -> nat {
    if n > tally_limit() {
        tally_limit()
    } else {
        n
    }
}

/// The sum of `samples`.
pub open spec fn sum_of(samples: Seq<u64>) -> nat
    decreases samples.len(),
{
    if samples.len() == 0 {
        0
    } else {
        sum_of(samples.drop_last()) + samples.last() as nat
    }
}

impl Tally {
    /// The tally of a phase that has captured nothing.
    pub open spec fn zero() -> Tally {
        Tally { count: 0, total: 0 }
    }

    /// The tally after one more measurement of `micros` microseconds. A
    /// measurement of zero is below the clock's resolution, no operation
    /// that cost nothing, and is left out.
    pub open spec fn record(self, micros: nat) -> Tally {
        if micros == 0 {
            self
        } else {
            Tally { count: capped(self.count + 1), total: capped(self.total + micros) }
        }
    }

    /// The tally after the measurements of `samples`, taken in order.
    pub open spec fn record_all(self, samples: Seq<u64>) -> Tally
        decreases samples.len(),
    {
        if samples.len() == 0 {
            self
        } else {
            self.record_all(samples.drop_last()).record(samples.last() as nat)
        }
    }

    /// What holds of every counter: each sample counted lasted at least one
    /// microsecond, so the count never exceeds the total, and a count of zero
    /// goes with a total of zero.
    pub open spec fn consistent(self) -> bool {
        &&& self.count <= self.total <= tally_limit()
        &&& self.count == 0 ==> self.total == 0
    }
}

/// The sample counter of the phase in flight.
#[derive(Debug)]
pub struct SampleCounter {
    count: u64,
    total_micros: u64,
}

impl View for SampleCounter {
    type V = Tally;

    closed spec fn view(&self) -> Tally {
        Tally { count: self.count as nat, total: self.total_micros as nat }
    }
}

impl SampleCounter {
    #[verifier::type_invariant]
    spec fn inv(self) -> bool {
        &&& self.count <= self.total_micros
        &&& self.count == 0 ==> self.total_micros == 0
    }

    /// A counter that has captured nothing.
    pub fn new() -> (counter: Self)
        ensures
            counter@ == Tally::zero(),
    {
        SampleCounter { count: 0, total_micros: 0 }
    }

    /// Forgets every sample, whatever was captured before.
    pub fn reset(&mut self)
        ensures
            final(self)@ == Tally::zero(),
    {
        *self = SampleCounter { count: 0, total_micros: 0 };
    }

    /// Captures one measurement of `micros` microseconds; a measurement of
    /// zero changes nothing.
    pub fn record(&mut self, micros: u64)
        ensures
            final(self)@ == old(self)@.record(micros as nat),
            micros == 0 ==> final(self)@ == old(self)@,
            final(self)@.count >= old(self)@.count,
            final(self)@.total >= old(self)@.total,
    {
        proof {
            use_type_invariant(&*self);
        }
        if micros > 0 {
            let count: u64 = self.count.saturating_add(1);
            let total: u64 = self.total_micros.saturating_add(micros);
            *self = SampleCounter { count, total_micros: total };
        }
    }

    /// The count and the total, in this order; the counter is left as it is.
    pub fn snapshot(&self) -> (pair: (u64, u64))
        ensures
            pair.0 == self@.count,
            pair.1 == self@.total,
            self@.consistent(),
    {
        proof {
            use_type_invariant(self);
        }
        (self.count, self.total_micros)
    }
}

/// Recording keeps a tally consistent and lets neither of its totals fall.
pub proof fn lemma_record_keeps_consistent(tally: Tally, micros: nat)
    requires
        tally.consistent(),
    ensures
        tally.record(micros).consistent(),
        tally.record(micros).count >= tally.count,
        tally.record(micros).total >= tally.total,
{
}

/// A measurement of zero leaves the tally as it was.
pub proof fn lemma_zero_sample_is_dropped(tally: Tally)
    ensures
        tally.record(0) == tally,
{
}

/// Starting from nothing, samples that are all above zero and whose sum
/// fits the limit are all counted and add up exactly.
pub proof fn lemma_samples_accumulate(samples: Seq<u64>)
    requires
        forall|i: int| 0 <= i < samples.len() ==> samples[i] > 0,
        sum_of(samples) <= tally_limit(),
    ensures
        Tally::zero().record_all(samples) == (Tally {
            count: samples.len(),
            total: sum_of(samples),
        }),
        samples.len() <= sum_of(samples),
    decreases samples.len(),
{
    if samples.len() > 0 {
        let front = samples.drop_last();
        assert forall|i: int| 0 <= i < front.len() implies front[i] > 0 by {
            assert(front[i] == samples[i]);
        }
        lemma_samples_accumulate(front);
    }
}

/// Samples of zero among the measurements change nothing: the tally is that
/// of the other samples alone.
pub proof fn lemma_zero_samples_count_for_nothing(start: Tally, samples: Seq<u64>)
    ensures
        start.record_all(samples) == start.record_all(samples.filter(|d: u64| d > 0)),
    decreases samples.len(),
{
    let positive = |d: u64| d > 0;
    if samples.len() == 0 {
        assert(samples.filter(positive).len() == 0) by {
            reveal(Seq::filter);
        }
    } else {
        let front = samples.drop_last();
        lemma_zero_samples_count_for_nothing(start, front);
        reveal(Seq::filter);
        if samples.last() > 0 {
            assert(samples.filter(positive) == front.filter(positive).push(samples.last()));
            assert(samples.filter(positive).drop_last() == front.filter(positive));
        } else {
            assert(samples.filter(positive) == front.filter(positive));
        }
    }
}

} // verus!
