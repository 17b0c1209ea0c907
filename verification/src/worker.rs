//! One worker's bounded search over its slice of the nonce range.
//!
//! The worker draws random candidates from its slice, asks the oracle for
//! each, and keeps the strictly best find. It polls the shared cancellation
//! flag before every attempt, and checks the clock after every batch: a
//! lapsed budget only stops it once the difficulty floor is met.
use vstd::prelude::*;
use core::sync::atomic::AtomicBool;
use core::sync::atomic::Ordering;
use crate::oracle::{
    oracle_output,
    spec_difficulty,
    nonce_difficulty,
    oracle_hash,
    new_solver_memory,
    difficulty,
    lemma_difficulty_bound,
};

verus! {

/// Attempts between two checks of the clock at one worker.
pub const CHECK_BATCH: u64 = 25;

/// How a worker's search ended; every ending returns the current best.
#[derive(Clone, Copy, PartialEq, Eq, Structural, Debug)]
pub enum Outcome {
    /// The worker used up its whole slice.
    Exhausted,
    /// The budget lapsed with the difficulty floor met.
    CutoffReached,
    /// The shared cancellation flag was observed set.
    Cancelled,
}

/// One worker's best find. Until a candidate succeeds it keeps difficulty
/// zero and the slice's first nonce.
#[derive(Clone, Copy)]
pub struct WorkerResult {
    pub best_nonce: u64,
    pub best_difficulty: u32,
    pub best_digest: [u8; 16],
    pub best_hash: [u8; 32],
}

/// What one worker hands back: its best find, how many candidates it tried,
/// and why it stopped. The ghost sequence records every candidate tried.
pub struct SearchReport {
    pub result: WorkerResult,
    pub attempts: u64,
    pub outcome: Outcome,
    pub observed: Ghost<Seq<u64>>,
}

/// A sound best for slice `[lo, hi)`: either nothing was found and the
/// default stands, or the best is a real oracle output for a nonce of the
/// slice, credited with exactly that hash's difficulty — never fabricated.
pub open spec fn result_ok(challenge: Seq<u8>, lo: u64, hi: u64, r: WorkerResult) -> bool {
    &&& (r.best_difficulty == 0 ==> r.best_nonce == lo)
    &&& (r.best_difficulty > 0 ==> {
        &&& lo <= r.best_nonce < hi
        &&& oracle_output(challenge, r.best_nonce) is Some
        &&& r.best_digest@ == oracle_output(challenge, r.best_nonce)->Some_0.0
        &&& r.best_hash@ == oracle_output(challenge, r.best_nonce)->Some_0.1
        &&& r.best_difficulty == spec_difficulty(r.best_hash@)
    })
}

/// Every candidate lies in the slice.
pub open spec fn observed_in(obs: Seq<u64>, lo: u64, hi: u64) -> bool {
    forall|k: int| 0 <= k < obs.len() ==> lo <= #[trigger] obs[k] < hi
}

/// A positive best was really tried: its nonce stands among the candidates.
pub open spec fn witnessed(r: WorkerResult, obs: Seq<u64>) -> bool {
    r.best_difficulty > 0 ==> exists|k: int| 0 <= k < obs.len() && obs[k] == r.best_nonce
}

/// The best dominates every candidate tried: no observed difficulty exceeds
/// it.
pub open spec fn covers(challenge: Seq<u8>, r: WorkerResult, obs: Seq<u64>) -> bool {
    forall|k: int| 0 <= k < obs.len()
        ==> nonce_difficulty(challenge, #[trigger] obs[k]) <= r.best_difficulty
}

/// When a checkpoint stops the search: the budget has lapsed and the
/// difficulty floor is met. An unmet floor keeps the search going.
pub open spec fn spec_cutoff_reached(elapsed: u64, cutoff: u64, best: u32, floor: u32) -> bool {
    elapsed >= cutoff && best >= floor
}

/// The checkpoint decision of the search loop.
pub fn cutoff_reached(elapsed: u64, cutoff: u64, best: u32, floor: u32) -> (r: bool)
    ensures
        r == spec_cutoff_reached(elapsed, cutoff, best, floor),
{
    elapsed >= cutoff && best >= floor
}

/// The budget is a soft floor, not a hard ceiling: while the difficulty
/// floor is unmet, no checkpoint stops the search, however late the clock.
pub proof fn lemma_soft_floor(elapsed: u64, cutoff: u64, best: u32, floor: u32)
    requires
        best < floor,
    ensures
        !spec_cutoff_reached(elapsed, cutoff, best, floor),
{
}

/// Cancellation before the first attempt leaves the default: a sound report
/// that tried no candidate carries difficulty zero and the slice's first
/// nonce. The flag is polled before every attempt, so a worker that starts
/// with the signal raised returns exactly this.
pub proof fn lemma_cancelled_at_start(
    challenge: Seq<u8>,
    lo: u64,
    hi: u64,
    r: WorkerResult,
    obs: Seq<u64>,
)
    requires
        result_ok(challenge, lo, hi, r),
        witnessed(r, obs),
        obs.len() == 0,
    ensures
        r.best_difficulty == 0,
        r.best_nonce == lo,
{
}

/// Relies on rand::random_range: a nonce drawn from `[lo, hi)`; nothing is
/// assumed beyond the bound. The range must be non-empty, as random_range
/// panics on an empty one.
#[verifier::external_body]
fn pick_nonce(lo: u64, hi: u64) -> (r: u64)
    requires
        lo < hi,
    ensures
        lo <= r < hi,
{
    rand::random_range(lo..hi)
}

/// Searches slice `[lo, hi)` for the highest-difficulty oracle output, one
/// random candidate per attempt, at most one attempt per nonce of the slice.
/// The cancellation flag is polled before every attempt; the clock only
/// after each full batch, and a lapsed budget stops the search only once the
/// best difficulty reaches `min_difficulty`.
#[verifier::rlimit(60)]
pub fn search_partition(
    challenge: &[u8; 32],
    lo: u64,
    hi: u64,
    cutoff_time: u64,
    min_difficulty: u32,
    stop: &AtomicBool,
) -> (r: SearchReport)
    requires
        lo <= hi,
    ensures
        result_ok(challenge@, lo, hi, r.result),
        observed_in(r.observed@, lo, hi),
        covers(challenge@, r.result, r.observed@),
        witnessed(r.result, r.observed@),
        r.attempts == r.observed@.len(),
        r.attempts <= hi - lo,
        r.outcome is CutoffReached ==> r.result.best_difficulty >= min_difficulty,
        r.outcome is Exhausted ==> r.attempts == hi - lo,
{
    let timer = std::time::Instant::now();
    let span = hi - lo;
    let mut memory = new_solver_memory();
    let mut best = WorkerResult {
        best_nonce: lo,
        best_difficulty: 0,
        best_digest: [0u8; 16],
        best_hash: [0u8; 32],
    };
    let ghost mut obs: Seq<u64> = Seq::empty();
    let mut attempts: u64 = 0;
    while attempts < span
        invariant
            lo <= hi,
            span == hi - lo,
            attempts <= span,
            attempts == obs.len(),
            result_ok(challenge@, lo, hi, best),
            observed_in(obs, lo, hi),
            covers(challenge@, best, obs),
            witnessed(best, obs),
        decreases span - attempts,
    {
        if stop.load(Ordering::Relaxed) {
            return SearchReport {
                result: best,
                attempts,
                outcome: Outcome::Cancelled,
                observed: Ghost(obs),
            };
        }
        let nonce = pick_nonce(lo, hi);
        let found = oracle_hash(&mut memory, challenge, nonce);
        let ghost prev = obs;
        proof {
            obs = obs.push(nonce);
        }
        match found {
            Some((digest, hash)) => {
                proof {
                    lemma_difficulty_bound(hash@);
                }
                let diff = difficulty(&hash);
                if diff > best.best_difficulty {
                    best = WorkerResult {
                        best_nonce: nonce,
                        best_difficulty: diff,
                        best_digest: digest,
                        best_hash: hash,
                    };
                }
            },
            None => {},
        }
        proof {
            assert(obs[obs.len() - 1] == nonce);
            if best.best_difficulty > 0 && best.best_nonce != nonce {
                let k = choose|k: int| 0 <= k < prev.len() && prev[k] == best.best_nonce;
                assert(obs[k] == best.best_nonce);
            }
            assert(witnessed(best, obs));
        }
        attempts = attempts + 1;
        if attempts % CHECK_BATCH == 0 {
            let elapsed = timer.elapsed().as_secs();
            if cutoff_reached(elapsed, cutoff_time, best.best_difficulty, min_difficulty) {
                proof {
                    assert(witnessed(best, obs));
                }
                return SearchReport {
                    result: best,
                    attempts,
                    outcome: Outcome::CutoffReached,
                    observed: Ghost(obs),
                };
            }
        }
    }
    SearchReport { result: best, attempts, outcome: Outcome::Exhausted, observed: Ghost(obs) }
}

} // verus!
