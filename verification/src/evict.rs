//! The cache-eviction controller: which steps force the caches out on the
//! platform at hand. Carrying the steps out is the caller's part; a step
//! that fails ends the run.

use vstd::prelude::*;

verus! {

/// How a platform is made to drop its caches.
#[derive(Clone, Copy, Debug, PartialEq, Eq, Structural)]
pub enum EvictionMethod {
    /// Flush, then tell the kernel to drop its page cache.
    DropCaches,
    /// Flush, then run the platform's purge utility.
    Purge,
    /// The platform has no means of it: eviction does nothing.
    Unsupported,
}

/// One action of an eviction.
#[derive(Clone, Copy, Debug, PartialEq, Eq, Structural)]
pub enum EvictionStep {
    /// Run `sync`, so that buffered writes reach the disk.
    FlushWrites,
    /// Write `3` to `/proc/sys/vm/drop_caches`.
    DropPageCache,
    /// Run `purge`.
    RunPurge,
}

impl EvictionMethod {
    /// The method of the platform with the operating system name `os`, as
    /// `std::env::consts::OS` gives it.
    pub open spec fn of_platform(os: Seq<char>) -> EvictionMethod {
        if os == "macos"@ {
            EvictionMethod::Purge
        } else if os == "windows"@ {
            EvictionMethod::Unsupported
        } else {
            EvictionMethod::DropCaches
        }
    }

    /// The steps of one eviction, in the order in which they are taken.
    pub open spec fn plan(self) -> Seq<EvictionStep> {
        match self {
            EvictionMethod::DropCaches => seq![
                EvictionStep::FlushWrites,
                EvictionStep::DropPageCache,
            ],
            EvictionMethod::Purge => seq![EvictionStep::FlushWrites, EvictionStep::RunPurge],
            EvictionMethod::Unsupported => seq![],
        }
    }

    /// Picks the method for the platform named `os`.
    pub fn for_platform(os: &str) -> (method: EvictionMethod)
        ensures
            method == Self::of_platform(os@),
    {
        let name = String::from_str(os);
        if name == String::from_str("macos") {
            EvictionMethod::Purge
        } else if name == String::from_str("windows") {
            EvictionMethod::Unsupported
        } else {
            EvictionMethod::DropCaches
        }
    }

    /// The steps to take for one eviction.
    pub fn steps(&self) -> (steps: Vec<EvictionStep>)
        ensures
            steps@ == self.plan(),
    {
        match self {
            EvictionMethod::DropCaches => vec![
                EvictionStep::FlushWrites,
                EvictionStep::DropPageCache,
            ],
            EvictionMethod::Purge => vec![EvictionStep::FlushWrites, EvictionStep::RunPurge],
            EvictionMethod::Unsupported => Vec::new(),
        }
    }
}

/// The steps to take after a trial: those of `method` where the trial asks
/// for an eviction, none where it does not.
pub fn eviction_steps(evict: bool, method: EvictionMethod) -> (steps: Vec<EvictionStep>)
    ensures
        steps@ == if evict {
            method.plan()
        } else {
            Seq::empty()
        },
{
    if evict {
        method.steps()
    } else {
        Vec::new()
    }
}

/// Whatever the method, an eviction that does anything flushes the buffered
/// writes first, and takes one more step after that.
pub proof fn lemma_eviction_flushes_first(method: EvictionMethod)
    ensures
        method.plan().len() == 0 <==> method == EvictionMethod::Unsupported,
        method.plan().len() > 0 ==> method.plan().len() == 2 && method.plan()[0]
            == EvictionStep::FlushWrites,
{
}

} // verus!
