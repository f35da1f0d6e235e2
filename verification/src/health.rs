//! Health tracking for a backend: how many probes in a row have failed, and
//! when that is reason enough to acquire the backend's resource anew.

use vstd::prelude::*;

verus! {

/// How many failed probes in a row it takes to start over.
pub const RECONNECT_THRESHOLD: u8 = 5;

/// The count after a probe, and whether the probe calls for starting over. A
/// probe that succeeds clears the count. One that fails adds to it, and the
/// one that brings it to the threshold clears it and calls for starting over.
pub open spec fn after_probe(count: nat, healthy: bool) -> (nat, bool) {
    if healthy {
        (0, false)
    } else if count + 1 >= RECONNECT_THRESHOLD {
        (0, true)
    } else {
        (count + 1, false)
    }
}

/// The count after a run of probes, and how many of them called for starting
/// over.
pub open spec fn after_probes(count: nat, healthy: Seq<bool>) -> (nat, nat)
    decreases healthy.len(),
{
    if healthy.len() == 0 {
        (count, 0)
    } else {
        let (before, restarts) = after_probes(count, healthy.drop_last());
        let (now, restart) = after_probe(before, healthy.last());
        (now, restarts + (if restart { 1nat } else { 0nat }))
    }
}

/// A run of `n` probes that all failed.
pub open spec fn failures(n: nat) -> Seq<bool> {
    Seq::new(n, |i: int| false)
}

/// Counts failed probes in a row.
#[derive(Debug, Clone, Copy, PartialEq, Eq, Structural)]
pub struct FailureCounter {
    failed: u8,
}

impl FailureCounter {
    /// How many probes in a row have failed.
    pub closed spec fn count(self) -> nat {
        self.failed as nat
    }

    pub fn new() -> (r: Self)
        ensures
            r.count() == 0,
    {
        FailureCounter { failed: 0 }
    }

    /// How many probes in a row have failed.
    pub fn failed(&self) -> (r: u8)
        ensures
            r == self.count(),
    {
        self.failed
    }

    /// Takes the outcome of a probe and says whether to start over.
    pub fn record(&mut self, healthy: bool) -> (restart: bool)
        ensures
            (final(self).count(), restart) == after_probe(old(self).count(), healthy),
    {
        if healthy {
            self.failed = 0;
            false
        } else if self.failed >= RECONNECT_THRESHOLD - 1 {
            self.failed = 0;
            true
        } else {
            self.failed = self.failed + 1;
            false
        }
    }
}

/// Fewer failures in a row than the threshold are counted and call for
/// nothing.
pub proof fn lemma_failures_below_threshold(n: nat)
    requires
        n < RECONNECT_THRESHOLD,
    ensures
        after_probes(0, failures(n)) == (n, 0nat),
    decreases n,
{
    if n > 0 {
        lemma_failures_below_threshold((n - 1) as nat);
        assert(failures(n).drop_last() =~= failures((n - 1) as nat));
    }
}

/// Exactly as many failures in a row as the threshold call for starting over
/// once, and leave the count at zero.
pub proof fn lemma_failures_at_threshold()
    ensures
        after_probes(0, failures(RECONNECT_THRESHOLD as nat)) == (0nat, 1nat),
{
    let n = RECONNECT_THRESHOLD as nat;
    lemma_failures_below_threshold((n - 1) as nat);
    assert(failures(n).drop_last() =~= failures((n - 1) as nat));
}

/// A success clears any count and calls for nothing.
pub proof fn lemma_success_resets(count: nat)
    ensures
        after_probe(count, true) == (0nat, false),
{
}

} // verus!
