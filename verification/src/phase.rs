//! The phases of a run and their fixed order.

use crate::workload::Workload;
use vstd::prelude::*;

verus! {

/// Rows that the populate phase adds.
pub const POPULATE_ROWS: u64 = 9_999;

/// A step of the run: one of the four timed workloads, or the untimed
/// populate step that builds the table for the last three.
#[derive(Clone, Copy, Debug, PartialEq, Eq, Structural)]
pub enum Phase {
    Insert,
    Populate,
    Update,
    Select,
    Delete,
}

impl Phase {
    /// The phase's place in the run, from zero.
    pub open spec fn rank(self) -> nat {
        match self {
            Phase::Insert => 0,
            Phase::Populate => 1,
            Phase::Update => 2,
            Phase::Select => 3,
            Phase::Delete => 4,
        }
    }

    /// The phase that follows, if any.
    pub open spec fn successor(self) -> Option<Phase> {
        match self {
            Phase::Insert => Some(Phase::Populate),
            Phase::Populate => Some(Phase::Update),
            Phase::Update => Some(Phase::Select),
            Phase::Select => Some(Phase::Delete),
            Phase::Delete => None,
        }
    }

    /// Whether the phase runs against the clock and is reported.
    pub open spec fn is_timed(self) -> bool {
        self != Phase::Populate
    }

    /// The workload whose statement the phase runs. Populate inserts rows of
    /// the same shape as the insert phase.
    pub open spec fn workload_of(self) -> Workload {
        match self {
            Phase::Insert => Workload::Insert,
            Phase::Populate => Workload::Insert,
            Phase::Update => Workload::Update,
            Phase::Select => Workload::Select,
            Phase::Delete => Workload::Delete,
        }
    }

    /// The phase a run starts with.
    pub fn first() -> (phase: Phase)
        ensures
            phase == Phase::Insert,
            phase.rank() == 0,
    {
        Phase::Insert
    }

    /// The phase's place in the run, from zero.
    pub fn index(&self) -> (rank: u8)
        ensures
            rank == self.rank(),
    {
        match self {
            Phase::Insert => 0,
            Phase::Populate => 1,
            Phase::Update => 2,
            Phase::Select => 3,
            Phase::Delete => 4,
        }
    }

    /// The phase that follows, or `None` after the last.
    pub fn next(&self) -> (next: Option<Phase>)
        ensures
            next == self.successor(),
    {
        match self {
            Phase::Insert => Some(Phase::Populate),
            Phase::Populate => Some(Phase::Update),
            Phase::Update => Some(Phase::Select),
            Phase::Select => Some(Phase::Delete),
            Phase::Delete => None,
        }
    }

    /// Whether the phase runs against the clock and is reported.
    pub fn timed(&self) -> (timed: bool)
        ensures
            timed == self.is_timed(),
    {
        match self {
            Phase::Populate => false,
            _ => true,
        }
    }

    /// The workload whose statement the phase runs.
    pub fn workload(&self) -> (workload: Workload)
        ensures
            workload == self.workload_of(),
    {
        match self {
            Phase::Insert => Workload::Insert,
            Phase::Populate => Workload::Insert,
            Phase::Update => Workload::Update,
            Phase::Select => Workload::Select,
            Phase::Delete => Workload::Delete,
        }
    }
}

/// The phases follow one another in the order insert, populate, update,
/// select, delete: each successor stands one place further on, and only
/// delete has none.
pub proof fn lemma_successor_is_next(phase: Phase)
    ensures
        phase.successor() matches Some(next) ==> next.rank() == phase.rank() + 1,
        phase.successor() is None <==> phase == Phase::Delete,
        phase.rank() <= 4,
{
}

} // verus!
