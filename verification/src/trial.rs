//! The trial loop of one phase: idle until started, then one trial after
//! another until its limit is reached, then drained.
//!
//! The loop decides; its caller acts. Each call of [`TrialLoop::step`] takes
//! the seconds elapsed since the phase began and answers with what to do
//! next. A trial is carried out in this order: drop the store's cached
//! statements, prepare the statement anew, bind the parameters and execute,
//! and last, where the trial asks for it, evict the caches, so that the
//! eviction is paid once per trial and before the next one begins.

use crate::config::BenchmarkConfiguration;
use crate::counter::{SampleCounter, Tally};
use crate::phase::{Phase, POPULATE_ROWS};
use crate::workload::{admits_all, ParamValue};
use vstd::prelude::*;

verus! {

/// Where a loop stands.
#[derive(Clone, Copy, Debug, PartialEq, Eq, Structural)]
pub enum LoopState {
    Idle,
    Running,
    Drained,
}

/// What ends a loop.
#[derive(Clone, Copy, Debug, PartialEq, Eq, Structural)]
pub enum Limit {
    /// The loop runs while fewer than this many whole seconds have elapsed.
    Seconds(u64),
    /// The loop runs this many more trials, whatever the clock says.
    Trials(u64),
}

impl Limit {
    /// Whether one more trial may start when `elapsed` seconds have passed.
    pub open spec fn allows(self, elapsed: u64) -> bool {
        match self {
            Limit::Seconds(budget) => elapsed < budget,
            Limit::Trials(left) => left > 0,
        }
    }

    /// The limit once one more trial has started.
    pub open spec fn spent(self) -> Limit {
        match self {
            Limit::Seconds(budget) => self,
            Limit::Trials(left) => Limit::Trials((left - 1) as u64),
        }
    }
}

/// One execution of a phase's statement, to be carried out by the caller.
#[derive(Debug)]
pub struct Trial {
    pub phase: Phase,
    /// The values to bind, in the order of the statement's parameters.
    pub params: Vec<ParamValue>,
    /// Whether the store's cached statements are dropped before preparing.
    pub flush_statements: bool,
    /// Whether the caches are evicted once the statement has run.
    pub evict: bool,
}

/// What a loop asks of its caller.
#[derive(Debug)]
pub enum LoopAction {
    /// The phase begins: drop every cached statement of the store.
    Begin,
    /// Carry out this trial.
    Trial(Trial),
    /// The loop has ended: nothing more to run.
    Drained,
}

/// The kind of a [`LoopAction`].
pub enum LoopSignal {
    Begin,
    Trial,
    Drained,
}

impl LoopAction {
    /// The action's kind.
    pub open spec fn signal(self) -> LoopSignal {
        match self {
            LoopAction::Begin => LoopSignal::Begin,
            LoopAction::Trial(_) => LoopSignal::Trial,
            LoopAction::Drained => LoopSignal::Drained,
        }
    }
}

/// The trial loop of one phase.
#[derive(Clone, Copy, Debug, PartialEq, Eq, Structural)]
pub struct TrialLoop {
    pub phase: Phase,
    pub limit: Limit,
    /// Whether each trial ends with an eviction.
    pub evict: bool,
    pub state: LoopState,
}

impl TrialLoop {
    /// The idle loop of `phase` under `config`. A timed phase is bounded by
    /// the configured budget and evicts if the configuration says so;
    /// populate is bounded by its row count and never evicts.
    pub open spec fn fresh(phase: Phase, config: BenchmarkConfiguration) -> TrialLoop {
        TrialLoop {
            phase,
            limit: if phase.is_timed() {
                Limit::Seconds(config.budget_secs)
            } else {
                Limit::Trials(POPULATE_ROWS)
            },
            evict: phase.is_timed() && config.evict,
            state: LoopState::Idle,
        }
    }

    /// What the loop answers when `elapsed` seconds have passed.
    pub open spec fn signal(self, elapsed: u64) -> LoopSignal {
        match self.state {
            LoopState::Idle => LoopSignal::Begin,
            LoopState::Running => if self.limit.allows(elapsed) {
                LoopSignal::Trial
            } else {
                LoopSignal::Drained
            },
            LoopState::Drained => LoopSignal::Drained,
        }
    }

    /// The loop after it has answered at `elapsed` seconds.
    pub open spec fn stepped(self, elapsed: u64) -> TrialLoop {
        match self.state {
            LoopState::Idle => TrialLoop { state: LoopState::Running, ..self },
            LoopState::Running => if self.limit.allows(elapsed) {
                TrialLoop { limit: self.limit.spent(), ..self }
            } else {
                TrialLoop { state: LoopState::Drained, ..self }
            },
            LoopState::Drained => self,
        }
    }

    /// Whether `trial` is a trial of this loop: of its phase, with parameters
    /// that the rules of the phase's workload admit, flushing the statement
    /// cache in a timed phase, and evicting as the loop was set up to.
    pub open spec fn plans(self, trial: Trial) -> bool {
        &&& trial.phase == self.phase
        &&& admits_all(self.phase.workload_of().param_rules(), trial.params@)
        &&& trial.flush_statements == self.phase.is_timed()
        &&& trial.evict == self.evict
    }

    /// The loop after it has answered each reading of `ticks` in turn.
    pub open spec fn after(self, ticks: Seq<u64>) -> TrialLoop
        decreases ticks.len(),
    {
        if ticks.len() == 0 {
            self
        } else {
            self.after(ticks.drop_last()).stepped(ticks.last())
        }
    }

    /// The loop's answer to the reading `ticks[i]`, given after the readings
    /// before it.
    pub open spec fn signal_at(self, ticks: Seq<u64>, i: int) -> LoopSignal {
        self.after(ticks.take(i)).signal(ticks[i])
    }

    /// The idle loop of `phase` under `config`.
    pub fn new(phase: Phase, config: &BenchmarkConfiguration) -> (fresh: Self)
        ensures
            fresh == Self::fresh(phase, *config),
    {
        let timed = phase.timed();
        TrialLoop {
            phase,
            limit: if timed {
                Limit::Seconds(config.budget_secs)
            } else {
                Limit::Trials(POPULATE_ROWS)
            },
            evict: timed && config.evict,
            state: LoopState::Idle,
        }
    }

    /// Moves the loop on by one decision. `elapsed` is the number of whole
    /// seconds since the loop answered `Begin`; an idle loop does not look at
    /// it. Starting the loop resets `counter`; no other step touches it.
    pub fn step(&mut self, counter: &mut SampleCounter, elapsed: u64) -> (action: LoopAction)
        ensures
            *final(self) == old(self).stepped(elapsed),
            action.signal() == old(self).signal(elapsed),
            action matches LoopAction::Trial(trial) ==> old(self).plans(trial),
            final(counter)@ == if old(self).state is Idle {
                Tally::zero()
            } else {
                old(counter)@
            },
    {
        match self.state {
            LoopState::Idle => {
                counter.reset();
                self.state = LoopState::Running;
                LoopAction::Begin
            },
            LoopState::Running => {
                let go_on = match self.limit {
                    Limit::Seconds(budget) => elapsed < budget,
                    Limit::Trials(left) => left > 0,
                };
                if go_on {
                    if let Limit::Trials(left) = self.limit {
                        self.limit = Limit::Trials(left - 1);
                    }
                    LoopAction::Trial(
                        Trial {
                            phase: self.phase,
                            params: self.phase.workload().draw_params(),
                            flush_statements: self.phase.timed(),
                            evict: self.evict,
                        },
                    )
                } else {
                    self.state = LoopState::Drained;
                    LoopAction::Drained
                }
            },
            LoopState::Drained => LoopAction::Drained,
        }
    }
}

/// Whether every reading of `ticks` lies before `budget`.
pub open spec fn all_before(ticks: Seq<u64>, budget: u64) -> bool {
    forall|j: int| 0 <= j < ticks.len() ==> ticks[j] < budget
}

proof fn lemma_after_timed(start: TrialLoop, budget: u64, ticks: Seq<u64>)
    requires
        start.limit == Limit::Seconds(budget),
        start.state is Running,
    ensures
        start.after(ticks) == if all_before(ticks, budget) {
            start
        } else {
            TrialLoop { state: LoopState::Drained, ..start }
        },
    decreases ticks.len(),
{
    if ticks.len() > 0 {
        let front = ticks.drop_last();
        lemma_after_timed(start, budget, front);
        if all_before(ticks, budget) {
            assert(all_before(front, budget)) by {
                assert forall|j: int| 0 <= j < front.len() implies front[j] < budget by {
                    assert(front[j] == ticks[j]);
                }
            }
            assert(ticks.last() < budget);
        } else if all_before(front, budget) {
            assert(!(ticks.last() < budget)) by {
                if ticks.last() < budget {
                    assert forall|j: int| 0 <= j < ticks.len() implies ticks[j] < budget by {
                        if j < front.len() {
                            assert(front[j] == ticks[j]);
                        }
                    }
                }
            }
        }
    }
}

proof fn lemma_after_counted(start: TrialLoop, trials: u64, ticks: Seq<u64>)
    requires
        start.limit == Limit::Trials(trials),
        start.state is Running,
    ensures
        start.after(ticks) == if ticks.len() <= trials {
            TrialLoop { limit: Limit::Trials((trials - ticks.len()) as u64), ..start }
        } else {
            TrialLoop { limit: Limit::Trials(0), state: LoopState::Drained, ..start }
        },
    decreases ticks.len(),
{
    if ticks.len() > 0 {
        lemma_after_counted(start, trials, ticks.drop_last());
    }
}

/// A loop under a time budget runs a trial at a reading exactly if that
/// reading and all before it lie under the budget; from the first reading at
/// or over the budget on it is drained. So every trial starts before the
/// budget is used up, and the loop ends at the first check after that: it
/// overruns the budget by less than the time its last trial took.
pub proof fn lemma_timed_loop_ends_at_budget(start: TrialLoop, budget: u64, ticks: Seq<u64>)
    requires
        start.limit == Limit::Seconds(budget),
        start.state is Running,
    ensures
        forall|i: int|
            0 <= i < ticks.len() ==> #[trigger] start.signal_at(ticks, i) == if all_before(
                ticks.take(i + 1),
                budget,
            ) {
                LoopSignal::Trial
            } else {
                LoopSignal::Drained
            },
{
    assert forall|i: int| 0 <= i < ticks.len() implies #[trigger] start.signal_at(ticks, i)
        == if all_before(ticks.take(i + 1), budget) {
        LoopSignal::Trial
    } else {
        LoopSignal::Drained
    } by {
        let front = ticks.take(i);
        let upto = ticks.take(i + 1);
        lemma_after_timed(start, budget, front);
        assert(upto[i] == ticks[i]);
        if all_before(upto, budget) {
            assert forall|j: int| 0 <= j < front.len() implies front[j] < budget by {
                assert(front[j] == upto[j]);
            }
        } else if all_before(front, budget) {
            if ticks[i] < budget {
                assert forall|j: int| 0 <= j < upto.len() implies upto[j] < budget by {
                    if j < i {
                        assert(front[j] == upto[j]);
                    }
                }
            }
        }
    }
}

/// With a budget of zero a fresh loop begins and is drained at its first
/// check, whatever the clock says: it runs no trial.
pub proof fn lemma_zero_budget_runs_no_trial(start: TrialLoop, ticks: Seq<u64>)
    requires
        start.limit == Limit::Seconds(0),
        start.state is Idle,
    ensures
        forall|i: int|
            0 <= i < ticks.len() ==> #[trigger] start.signal_at(ticks, i) == if i == 0 {
                LoopSignal::Begin
            } else {
                LoopSignal::Drained
            },
{
    assert forall|i: int| 0 <= i < ticks.len() implies #[trigger] start.signal_at(ticks, i) == if i
        == 0 {
        LoopSignal::Begin
    } else {
        LoopSignal::Drained
    } by {
        lemma_after_idle(start, ticks.take(i));
        if i > 0 {
            let running = TrialLoop { state: LoopState::Running, ..start };
            lemma_after_timed(running, 0, ticks.take(i).skip(1));
        }
    }
}

/// The first reading starts an idle loop; the readings after it are answered
/// by the running loop.
proof fn lemma_after_idle(start: TrialLoop, ticks: Seq<u64>)
    requires
        start.state is Idle,
    ensures
        start.after(ticks) == if ticks.len() == 0 {
            start
        } else {
            (TrialLoop { state: LoopState::Running, ..start }).after(ticks.skip(1))
        },
    decreases ticks.len(),
{
    if ticks.len() == 1 {
        assert(ticks.drop_last().len() == 0);
        assert(ticks.skip(1).len() == 0);
    } else if ticks.len() > 1 {
        lemma_after_idle(start, ticks.drop_last());
        assert(ticks.drop_last().skip(1) == ticks.skip(1).drop_last());
        assert(ticks.skip(1).last() == ticks.last());
    }
}

/// A loop bounded by a number of trials runs exactly that many, at its first
/// readings, and is drained from then on; the clock plays no part.
pub proof fn lemma_counted_loop_runs_its_trials(start: TrialLoop, trials: u64, ticks: Seq<u64>)
    requires
        start.limit == Limit::Trials(trials),
        start.state is Running,
    ensures
        forall|i: int|
            0 <= i < ticks.len() ==> #[trigger] start.signal_at(ticks, i) == if i < trials {
                LoopSignal::Trial
            } else {
                LoopSignal::Drained
            },
{
    assert forall|i: int| 0 <= i < ticks.len() implies #[trigger] start.signal_at(ticks, i) == if i
        < trials {
        LoopSignal::Trial
    } else {
        LoopSignal::Drained
    } by {
        lemma_after_counted(start, trials, ticks.take(i));
    }
}

} // verus!
