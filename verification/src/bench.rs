//! The run as a whole: the five phases in their order, each with its trial
//! loop, and a report after each timed one.
//!
//! The run decides and its caller acts: each call of [`Benchmark::advance`]
//! or [`Benchmark::tick`] answers with the next thing to do. The caller
//! registers the capture hook with the store once, before the first call, and
//! lets it record into the counter that it hands to these calls.

use crate::clock::Stopwatch;
use crate::config::BenchmarkConfiguration;
use crate::counter::{SampleCounter, Tally};
use crate::phase::{Phase, POPULATE_ROWS};
use crate::report::PhaseReport;
use crate::trial::{Limit, LoopAction, LoopSignal, Trial, TrialLoop};
use vstd::prelude::*;

verus! {

/// What the run asks of its caller.
#[derive(Debug)]
pub enum Action {
    /// The phase begins: drop every cached statement of the store. The
    /// counter has been reset.
    Begin(Phase),
    /// Carry out this trial.
    Trial(Trial),
    /// The phase has ended. A timed phase comes with its report, to be
    /// written out; populate comes with none.
    End(Phase, Option<PhaseReport>),
    /// Every phase has ended.
    Finished,
}

/// The kind of an [`Action`], and the phase it belongs to.
pub enum Signal {
    Begin(Phase),
    Trial(Phase),
    End(Phase),
    Finished,
}

impl Action {
    /// The action's kind and phase.
    pub open spec fn signal(self) -> Signal {
        match self {
            Action::Begin(phase) => Signal::Begin(phase),
            Action::Trial(trial) => Signal::Trial(trial.phase),
            Action::End(phase, _) => Signal::End(phase),
            Action::Finished => Signal::Finished,
        }
    }
}

/// Where a run stands.
pub struct Progress {
    pub config: BenchmarkConfiguration,
    /// The loop of the phase in flight; of the last phase once finished.
    pub current: TrialLoop,
    pub finished: bool,
}

impl Progress {
    /// A run that has not begun.
    pub open spec fn initial(config: BenchmarkConfiguration) -> Progress {
        Progress { config, current: TrialLoop::fresh(Phase::Insert, config), finished: false }
    }

    /// The place of the phase in flight; one past the last once finished.
    pub open spec fn rank(self) -> nat {
        if self.finished {
            5
        } else {
            self.current.phase.rank()
        }
    }

    /// What the run answers when `elapsed` seconds of the phase have passed.
    pub open spec fn signal(self, elapsed: u64) -> Signal {
        if self.finished {
            Signal::Finished
        } else {
            match self.current.signal(elapsed) {
                LoopSignal::Begin => Signal::Begin(self.current.phase),
                LoopSignal::Trial => Signal::Trial(self.current.phase),
                LoopSignal::Drained => Signal::End(self.current.phase),
            }
        }
    }

    /// The run after it has answered at `elapsed` seconds. A phase that ends
    /// makes way for the idle loop of its successor, the last one for the
    /// end of the run.
    pub open spec fn advanced(self, elapsed: u64) -> Progress {
        if self.finished {
            self
        } else if self.current.signal(elapsed) is Drained {
            match self.current.phase.successor() {
                Some(next) => Progress { current: TrialLoop::fresh(next, self.config), ..self },
                None => Progress {
                    current: self.current.stepped(elapsed),
                    finished: true,
                    ..self
                },
            }
        } else {
            Progress { current: self.current.stepped(elapsed), ..self }
        }
    }

    /// The run after it has answered each reading of `ticks` in turn.
    pub open spec fn after(self, ticks: Seq<u64>) -> Progress
        decreases ticks.len(),
    {
        if ticks.len() == 0 {
            self
        } else {
            self.after(ticks.drop_last()).advanced(ticks.last())
        }
    }

    /// The run's answer to the reading `ticks[i]`, given after the readings
    /// before it.
    pub open spec fn signal_at(self, ticks: Seq<u64>, i: int) -> Signal {
        self.after(ticks.take(i)).signal(ticks[i])
    }

    /// Whether the loop in flight is the one that its phase starts with, run
    /// some way: a timed phase under the configured budget and eviction,
    /// populate with no more rows left than it adds and without eviction.
    pub open spec fn settled(self) -> bool {
        let fresh = TrialLoop::fresh(self.current.phase, self.config);
        &&& self.current.evict == fresh.evict
        &&& if self.current.phase.is_timed() {
            self.current.limit == fresh.limit
        } else {
            self.current.limit matches Limit::Trials(left) && left <= POPULATE_ROWS
        }
    }

    /// Whether `action`, with the run at `next` and the counter at `tally`,
    /// is what this run answers at `elapsed` seconds with the counter at
    /// `before`: the run moves on as [`Progress::advanced`] says; the action
    /// is of the kind that [`Progress::signal`] says; a trial is one of the
    /// loop in flight; the end of a timed phase carries the report of the
    /// counter, that of populate none; and the counter is reset where a
    /// phase begins and untouched otherwise.
    pub open spec fn answers(
        self,
        before: Tally,
        elapsed: u64,
        next: Progress,
        tally: Tally,
        action: Action,
    ) -> bool {
        &&& next == self.advanced(elapsed)
        &&& action.signal() == self.signal(elapsed)
        &&& action matches Action::Trial(trial) ==> self.current.plans(trial)
        &&& action matches Action::End(phase, report) ==> match report {
            Some(summary) => phase.is_timed() && summary.summarizes(phase.workload_of(), before),
            None => !phase.is_timed(),
        }
        &&& tally == if self.signal(elapsed) is Begin {
            Tally::zero()
        } else {
            before
        }
    }
}

/// A run of the benchmark.
pub struct Benchmark {
    config: BenchmarkConfiguration,
    current: TrialLoop,
    finished: bool,
    watch: Stopwatch,
}

impl View for Benchmark {
    type V = Progress;

    closed spec fn view(&self) -> Progress {
        Progress { config: self.config, current: self.current, finished: self.finished }
    }
}

impl Benchmark {
    /// A run under `config` that has not begun.
    pub fn new(config: BenchmarkConfiguration) -> (run: Self)
        ensures
            run@ == Progress::initial(config),
    {
        Benchmark {
            config,
            current: TrialLoop::new(Phase::first(), &config),
            finished: false,
            watch: Stopwatch::start(),
        }
    }

    /// The phase in flight, or `None` once the run has finished.
    pub fn phase(&self) -> (phase: Option<Phase>)
        ensures
            phase == if self@.finished {
                None
            } else {
                Some(self@.current.phase)
            },
    {
        if self.finished {
            None
        } else {
            Some(self.current.phase)
        }
    }

    /// Whether every phase has ended.
    pub fn is_finished(&self) -> (finished: bool)
        ensures
            finished == self@.finished,
    {
        self.finished
    }

    /// Moves the run on by one decision, taking `elapsed` as the whole
    /// seconds since the phase in flight began.
    pub fn advance(&mut self, counter: &mut SampleCounter, elapsed: u64) -> (action: Action)
        ensures
            old(self)@.answers(old(counter)@, elapsed, final(self)@, final(counter)@, action),
    {
        if self.finished {
            return Action::Finished;
        }
        let phase = self.current.phase;
        match self.current.step(counter, elapsed) {
            LoopAction::Begin => Action::Begin(phase),
            LoopAction::Trial(trial) => Action::Trial(trial),
            LoopAction::Drained => {
                let report = if phase.timed() {
                    Some(PhaseReport::of(phase.workload(), counter))
                } else {
                    None
                };
                match phase.next() {
                    Some(next) => {
                        self.current = TrialLoop::new(next, &self.config);
                    },
                    None => {
                        self.finished = true;
                    },
                }
                Action::End(phase, report)
            },
        }
    }

    /// Moves the run on by one decision, reading the clock for the seconds
    /// since the phase in flight began; the clock is started anew where a
    /// phase begins. The answer is that of [`Benchmark::advance`] at whatever
    /// the clock read.
    pub fn tick(&mut self, counter: &mut SampleCounter) -> (action: Action)
        ensures
            exists|elapsed: u64| #[trigger]
                old(self)@.answers(old(counter)@, elapsed, final(self)@, final(counter)@, action),
    {
        let elapsed = self.watch.elapsed_secs();
        let action = self.advance(counter, elapsed);
        if let Action::Begin(_) = action {
            self.watch = Stopwatch::start();
        }
        assert(old(self)@.answers(old(counter)@, elapsed, self@, counter@, action));
        action
    }
}

/// One decision never takes the run back: it stays in its phase or moves to
/// the one that follows, and a trial is always one of the phase in flight.
pub proof fn lemma_advance_keeps_order(run: Progress, elapsed: u64)
    ensures
        run.rank() <= run.advanced(elapsed).rank() <= run.rank() + 1,
        run.signal(elapsed) matches Signal::Trial(phase) ==> !run.finished && phase.rank()
            == run.rank(),
{
    crate::phase::lemma_successor_is_next(run.current.phase);
}

/// However the clock runs, the run never falls back to an earlier phase.
pub proof fn lemma_rank_never_falls(run: Progress, ticks: Seq<u64>, i: int, j: int)
    requires
        0 <= i <= j <= ticks.len(),
    ensures
        run.after(ticks.take(i)).rank() <= run.after(ticks.take(j)).rank(),
    decreases j - i,
{
    if i < j {
        lemma_rank_never_falls(run, ticks, i, j - 1);
        assert(ticks.take(j).drop_last() == ticks.take(j - 1));
        lemma_advance_keeps_order(run.after(ticks.take(j - 1)), ticks.take(j).last());
    }
}

/// Phases never interleave: of any two trials of a run, the later one belongs
/// to the same phase as the earlier one or to a phase further on in the
/// order insert, populate, update, select, delete.
pub proof fn lemma_phases_never_interleave(run: Progress, ticks: Seq<u64>)
    ensures
        forall|i: int, j: int|
            0 <= i <= j < ticks.len() ==> (#[trigger] run.signal_at(ticks, i) matches Signal::Trial(
                earlier,
            ) ==> (#[trigger] run.signal_at(ticks, j) matches Signal::Trial(later)
                ==> earlier.rank() <= later.rank())),
{
    assert forall|i: int, j: int| 0 <= i <= j < ticks.len() implies (#[trigger] run.signal_at(
        ticks,
        i,
    ) matches Signal::Trial(earlier) ==> (#[trigger] run.signal_at(ticks, j) matches Signal::Trial(
        later,
    ) ==> earlier.rank() <= later.rank())) by {
        lemma_rank_never_falls(run, ticks, i, j);
        lemma_advance_keeps_order(run.after(ticks.take(i)), ticks[i]);
        lemma_advance_keeps_order(run.after(ticks.take(j)), ticks[j]);
    }
}

/// From its start on, a run keeps every phase to the settings it was
/// configured with.
pub proof fn lemma_run_stays_settled(config: BenchmarkConfiguration, ticks: Seq<u64>)
    ensures
        Progress::initial(config).after(ticks).settled(),
        Progress::initial(config).after(ticks).config == config,
    decreases ticks.len(),
{
    if ticks.len() > 0 {
        lemma_run_stays_settled(config, ticks.drop_last());
    }
}

/// With a budget of zero no timed phase runs a trial: the only trials of the
/// run are those of populate.
pub proof fn lemma_no_timed_trial_without_budget(config: BenchmarkConfiguration, ticks: Seq<u64>)
    requires
        config.budget_secs == 0,
    ensures
        forall|i: int|
            0 <= i < ticks.len() ==> (#[trigger] Progress::initial(config).signal_at(ticks, i)
                matches Signal::Trial(phase) ==> phase == Phase::Populate),
{
    assert forall|i: int| 0 <= i < ticks.len() implies (#[trigger] Progress::initial(
        config,
    ).signal_at(ticks, i) matches Signal::Trial(phase) ==> phase == Phase::Populate) by {
        lemma_run_stays_settled(config, ticks.take(i));
    }
}

/// A trial of a run evicts exactly if the run was configured to evict and
/// the trial belongs to a timed phase: with eviction switched off no trial
/// asks for it, and populate never does.
pub proof fn lemma_trials_evict_as_configured(
    config: BenchmarkConfiguration,
    ticks: Seq<u64>,
    trial: Trial,
)
    requires
        Progress::initial(config).after(ticks).current.plans(trial),
    ensures
        trial.evict == (config.evict && trial.phase.is_timed()),
        trial.flush_statements == trial.phase.is_timed(),
{
    lemma_run_stays_settled(config, ticks);
}

} // verus!
