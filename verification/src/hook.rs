//! The latency capture hook: what the store calls after each statement.

use crate::counter::SampleCounter;
use vstd::prelude::*;

verus! {

/// Captures the latency of one statement. The store hands over the
/// statement's text and the time it took, here in microseconds; the text
/// plays no part in what is captured. A duration beyond what the counter can
/// hold counts as the largest it can.
pub fn profile(counter: &mut SampleCounter, statement: &str, micros: u128)
    ensures
        final(counter)@ == old(counter)@.record(micros as nat),
        micros == 0 ==> final(counter)@ == old(counter)@,
{
    let _ = statement;
    if micros > u64::MAX as u128 {
        counter.record(u64::MAX);
    } else {
        counter.record(micros as u64);
    }
}

} // verus!
