//! The aggregator: what a phase's samples amount to, and the line that
//! reports it.

use crate::counter::{SampleCounter, Tally};
use crate::text::{decimal, decimal_string, join_words, joined};
use crate::workload::Workload;
use vstd::prelude::*;

verus! {

/// The mean of `count` samples that sum to `total`, rounded down; a phase
/// without samples has none.
pub open spec fn mean_of(count: nat, total: nat) -> Option<nat> {
    if count == 0 {
        None
    } else {
        Some(total / count)
    }
}

/// A mean as the report line shows it: in decimal, or `undefined` where it
/// does not exist.
pub open spec fn mean_text(mean: Option<u64>) -> Seq<char> {
    match mean {
        Some(micros) => decimal(micros as nat),
        None => "undefined"@,
    }
}

/// The mean latency in microseconds, rounded down, or `None` where no sample
/// was captured.
pub fn mean_micros(count: u64, total_micros: u64) -> (mean: Option<u64>)
    ensures
        match mean {
            Some(micros) => mean_of(count as nat, total_micros as nat) == Some(micros as nat),
            None => count == 0,
        },
{
    if count == 0 {
        None
    } else {
        Some(total_micros / count)
    }
}

/// The statistics of one timed phase.
#[derive(Clone, Copy, Debug, PartialEq, Eq)]
pub struct PhaseReport {
    pub workload: Workload,
    /// Samples captured.
    pub count: u64,
    /// Sum of the samples' durations, in microseconds.
    pub total_micros: u64,
    /// `total_micros / count`, rounded down; `None` where `count` is zero.
    pub mean_micros: Option<u64>,
}

impl PhaseReport {
    /// The report's line: label, count, total and mean, a space between
    /// each; a mean that does not exist reads `undefined`.
    pub open spec fn line_text(self) -> Seq<char> {
        joined(
            seq![
                self.workload.label_text(),
                decimal(self.count as nat),
                decimal(self.total_micros as nat),
                mean_text(self.mean_micros),
            ],
        )
    }

    /// Whether this is the report of `workload` on the samples of `tally`:
    /// its count and total are the tally's, and its mean is their quotient,
    /// rounded down, or absent where nothing was counted.
    pub open spec fn summarizes(self, workload: Workload, tally: Tally) -> bool {
        &&& self.workload == workload
        &&& self.count == tally.count
        &&& self.total_micros == tally.total
        &&& match self.mean_micros {
            Some(micros) => mean_of(tally.count, tally.total) == Some(micros as nat),
            None => tally.count == 0,
        }
    }

    /// Reads `counter` and aggregates what it holds; the counter is left as
    /// it is. A phase without samples is reported as such, with no mean.
    pub fn of(workload: Workload, counter: &SampleCounter) -> (report: Self)
        ensures
            report.summarizes(workload, counter@),
            counter@.consistent(),
    {
        let (count, total_micros) = counter.snapshot();
        PhaseReport { workload, count, total_micros, mean_micros: mean_micros(count, total_micros) }
    }

    /// Whether the phase captured no sample, so that no mean exists.
    pub fn no_samples(&self) -> (none: bool)
        ensures
            none == (self.count == 0),
    {
        self.count == 0
    }

    /// The line that reports the phase.
    pub fn line(&self) -> (line: String)
        ensures
            line@ == self.line_text(),
    {
        let mean = match self.mean_micros {
            Some(micros) => decimal_string(micros),
            None => String::from_str("undefined"),
        };
        let mut fields: Vec<String> = Vec::new();
        fields.push(String::from_str(self.workload.label()));
        fields.push(decimal_string(self.count));
        fields.push(decimal_string(self.total_micros));
        fields.push(mean);
        let line = join_words(&fields);
        proof {
            assert(fields.deep_view() =~= seq![
                self.workload.label_text(),
                decimal(self.count as nat),
                decimal(self.total_micros as nat),
                mean_text(self.mean_micros),
            ]);
        }
        line
    }
}

} // verus!
