//! Picking the fullest reward bus for the reporting utilities. The caller
//! reads each bus record off the ledger and hands over the raw reward
//! amounts; the choice itself is made here.
use vstd::prelude::*;

verus! {

/// The index of the fullest bus: no bus holds more, and every earlier bus
/// holds strictly less — a bus displaces the front-runner only by strictly
/// exceeding it, so with nothing but empty buses the first one stands.
pub open spec fn is_fullest(rewards: Seq<u64>, i: int) -> bool {
    &&& 0 <= i < rewards.len()
    &&& forall|k: int| 0 <= k < rewards.len() ==> #[trigger] rewards[k] <= rewards[i]
    &&& forall|k: int| 0 <= k < i ==> #[trigger] rewards[k] < rewards[i]
}

/// Picks the bus with the most rewards, keeping the earliest among equals.
pub fn best_bus_index(rewards: &Vec<u64>) -> (i: usize)
    requires
        rewards@.len() > 0,
    ensures
        is_fullest(rewards@, i as int),
{
    let mut best: usize = 0;
    let mut k: usize = 1;
    while k < rewards.len()
        invariant
            rewards@.len() > 0,
            1 <= k <= rewards@.len(),
            (best as int) < k,
            forall|m: int| 0 <= m < k ==> #[trigger] rewards@[m] <= rewards@[best as int],
            forall|m: int| 0 <= m < best ==> #[trigger] rewards@[m] < rewards@[best as int],
        decreases rewards@.len() - k,
    {
        if rewards[k] > rewards[best] {
            best = k;
        }
        k = k + 1;
    }
    best
}

} // verus!
