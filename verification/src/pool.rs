//! The worker pool: one slice per worker, all results reduced to a single
//! global best by difficulty, ties broken by the lowest worker index.
use vstd::prelude::*;
use core::sync::atomic::AtomicBool;
use crate::partition::{part_lo, part_hi, part_size, partition_bounds, lemma_partition_in_range};
use crate::request::JobRequest;
use crate::worker::{
    WorkerResult,
    search_partition,
    result_ok,
    observed_in,
    covers,
    witnessed,
};
use crate::oracle::{oracle_output, spec_difficulty, nonce_difficulty};

verus! {

/// The winner under the documented tie-break: no worker beats it, and every
/// earlier worker is strictly worse.
pub open spec fn is_winner(results: Seq<WorkerResult>, w: int) -> bool {
    &&& 0 <= w < results.len()
    &&& forall|k: int| 0 <= k < results.len()
        ==> (#[trigger] results[k]).best_difficulty <= results[w].best_difficulty
    &&& forall|k: int| 0 <= k < w
        ==> (#[trigger] results[k]).best_difficulty < results[w].best_difficulty
}

/// Reduction: the index of the result with the greatest difficulty; among
/// equals, the lowest worker index wins.
pub fn best_index(results: &Vec<WorkerResult>) -> (w: usize)
    requires
        results@.len() > 0,
    ensures
        is_winner(results@, w as int),
{
    let mut w: usize = 0;
    let mut i: usize = 1;
    while i < results.len()
        invariant
            results@.len() > 0,
            1 <= i <= results@.len(),
            (w as int) < i,
            forall|k: int| 0 <= k < i
                ==> (#[trigger] results@[k]).best_difficulty <= results@[w as int].best_difficulty,
            forall|k: int| 0 <= k < w
                ==> (#[trigger] results@[k]).best_difficulty < results@[w as int].best_difficulty,
        decreases results@.len() - i,
    {
        if results[i].best_difficulty > results[w].best_difficulty {
            w = i;
        }
        i = i + 1;
    }
    w
}

/// A sound global best for the job's range `[start, end)`: either nothing
/// was found anywhere and the default stands, or the best is a real oracle
/// output for a nonce of the range, credited with exactly that hash's
/// difficulty.
pub open spec fn job_result_ok(challenge: Seq<u8>, start: u64, end: u64, r: WorkerResult) -> bool {
    &&& (r.best_difficulty == 0 ==> r.best_nonce == start)
    &&& (r.best_difficulty > 0 ==> {
        &&& start <= r.best_nonce < end
        &&& oracle_output(challenge, r.best_nonce) is Some
        &&& r.best_digest@ == oracle_output(challenge, r.best_nonce)->Some_0.0
        &&& r.best_hash@ == oracle_output(challenge, r.best_nonce)->Some_0.1
        &&& r.best_difficulty == spec_difficulty(r.best_hash@)
    })
}

/// The global best dominates every candidate any worker tried.
pub open spec fn job_covers(challenge: Seq<u8>, best: WorkerResult, all: Seq<Seq<u64>>) -> bool {
    forall|i: int, k: int| 0 <= i < all.len() && 0 <= k < all[i].len()
        ==> nonce_difficulty(challenge, #[trigger] all[i][k]) <= best.best_difficulty
}

/// A positive global best was really tried by some worker.
pub open spec fn job_witnessed(best: WorkerResult, all: Seq<Seq<u64>>) -> bool {
    best.best_difficulty > 0 ==> exists|i: int, k: int|
        0 <= i < all.len() && 0 <= k < all[i].len() && all[i][k] == best.best_nonce
}

/// What one job hands back: the global best, the per-worker results it was
/// reduced from, how many candidates were tried in all, and, as ghost data,
/// every candidate each worker tried.
pub struct JobReport {
    pub best: WorkerResult,
    pub results: Vec<WorkerResult>,
    pub total_attempts: u64,
    pub observed: Ghost<Seq<Seq<u64>>>,
}

/// Runs the whole job: hands worker `i` the slice
/// `[start + i*size, start + (i+1)*size)`, runs each worker's search to its
/// end, and reduces the results. No result is reduced before every worker
/// has returned, and only this job's workers feed the reduction.
pub fn run_job(job: &JobRequest, stop: &AtomicBool) -> (r: JobReport)
    requires
        job.wf(),
    ensures
        job_result_ok(job.challenge@, job.start_nonce, job.end_nonce, r.best),
        r.results@.len() == job.threads,
        exists|w: int| is_winner(r.results@, w) && r.best == r.results@[w],
        r.observed@.len() == job.threads,
        job_covers(job.challenge@, r.best, r.observed@),
        job_witnessed(r.best, r.observed@),
        forall|i: int| 0 <= i < r.observed@.len()
            ==> (#[trigger] r.observed@[i]).len()
                <= part_size(job.start_nonce, job.end_nonce, job.threads),
{
    let start = job.start_nonce;
    let end = job.end_nonce;
    let threads = job.threads;
    let mut results: Vec<WorkerResult> = Vec::new();
    let ghost mut all_obs: Seq<Seq<u64>> = Seq::empty();
    let mut total_attempts: u64 = 0;
    let mut i: u64 = 0;
    while i < threads
        invariant
            job.wf(),
            start == job.start_nonce,
            end == job.end_nonce,
            threads == job.threads,
            i <= threads,
            results@.len() == i,
            all_obs.len() == i,
            total_attempts <= part_lo(start, end, threads, i) - start,
            forall|k: int| 0 <= k < i ==> result_ok(
                job.challenge@,
                part_lo(start, end, threads, k as u64) as u64,
                part_hi(start, end, threads, k as u64) as u64,
                #[trigger] results@[k],
            ),
            forall|k: int| 0 <= k < i ==> observed_in(
                #[trigger] all_obs[k],
                part_lo(start, end, threads, k as u64) as u64,
                part_hi(start, end, threads, k as u64) as u64,
            ),
            forall|k: int| 0 <= k < i
                ==> covers(job.challenge@, results@[k], #[trigger] all_obs[k]),
            forall|k: int| 0 <= k < i ==> witnessed(results@[k], #[trigger] all_obs[k]),
            forall|k: int| 0 <= k < i
                ==> (#[trigger] all_obs[k]).len() <= part_size(start, end, threads),
        decreases threads - i,
    {
        let (lo, hi) = partition_bounds(start, end, threads, i);
        let report = search_partition(
            &job.challenge,
            lo,
            hi,
            job.cutoff_time,
            job.min_difficulty,
            stop,
        );
        proof {
            lemma_partition_in_range(start, end, threads, i);
            let q = part_size(start, end, threads);
            assert((i as int + 1) * q == i as int * q + q) by (nonlinear_arith);
            assert(part_lo(start, end, threads, (i + 1) as u64)
                == part_hi(start, end, threads, i));
        }
        total_attempts = total_attempts + report.attempts;
        results.push(report.result);
        proof {
            all_obs = all_obs.push(report.observed@);
        }
        i = i + 1;
    }
    let w = best_index(&results);
    let best = results[w];
    proof {
        let ww = w as int;
        assert(is_winner(results@, ww));
        if best.best_difficulty == 0 {
            if ww != 0 {
                assert(results@[0].best_difficulty < results@[ww].best_difficulty);
                assert(false);
            }
            assert(part_lo(start, end, threads, 0) == start);
        } else {
            lemma_partition_in_range(start, end, threads, w as u64);
        }
        assert forall|ii: int, k: int|
            0 <= ii < all_obs.len() && 0 <= k < all_obs[ii].len()
            implies nonce_difficulty(job.challenge@, all_obs[ii][k])
                <= best.best_difficulty by {
            assert(covers(job.challenge@, results@[ii], all_obs[ii]));
            assert(nonce_difficulty(job.challenge@, all_obs[ii][k])
                <= results@[ii].best_difficulty);
            assert(results@[ii].best_difficulty <= results@[ww].best_difficulty);
        };
        if best.best_difficulty > 0 {
            assert(witnessed(results@[ww], all_obs[ww]));
            let k = choose|k: int| 0 <= k < all_obs[ww].len()
                && all_obs[ww][k] == best.best_nonce;
            assert(0 <= ww < all_obs.len() && 0 <= k < all_obs[ww].len()
                && all_obs[ww][k] == best.best_nonce);
        }
        assert(is_winner(results@, ww) && best == results@[ww]);
    }
    JobReport { best, results, total_attempts, observed: Ghost(all_obs) }
}

} // verus!
