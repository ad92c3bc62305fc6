//! What a run is configured with.

use vstd::prelude::*;

verus! {

/// The settings of one run, fixed when it starts.
#[derive(Clone, Copy, Debug, PartialEq, Eq, Structural)]
pub struct BenchmarkConfiguration {
    /// Wall-clock budget of each timed phase, in whole seconds.
    pub budget_secs: u64,
    /// Whether the caches are evicted after each timed trial.
    pub evict: bool,
    /// Whether diagnostics are logged.
    pub debug: bool,
}

impl BenchmarkConfiguration {
    /// The configuration that the command line's three options stand for.
    /// `free` set means that the caches are left alone: eviction is on exactly
    /// when it is not set.
    pub fn from_flags(debug: bool, free: bool, time: u32) -> (config: Self)
        ensures
            config.budget_secs == time,
            config.evict == !free,
            config.debug == debug,
    {
        BenchmarkConfiguration { budget_secs: time as u64, evict: !free, debug }
    }
}

} // verus!
