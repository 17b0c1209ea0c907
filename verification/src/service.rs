//! One request, end to end: validate, run the worker pool, render the
//! response. The caller owns the lock, the shared flag and the grace wait
//! (see `control`); it hands this function the flag its workers poll.
use vstd::prelude::*;
use core::sync::atomic::AtomicBool;
use crate::codec::{hex_decoded, base58_of};
use crate::pool::{JobReport, run_job, job_result_ok, job_covers, job_witnessed};
use crate::request::{MiningRequest, ValidationError, validate_request, challenge_ok};
use crate::respond::{MiningResponse, build_response};

verus! {

/// Handles one admitted request: rejects it before any search if it is
/// malformed, otherwise runs the whole job under the given cancellation
/// flag and renders the global best. The response reports exactly the
/// reduced best — never a fabricated difficulty, never another job's find.
pub fn handle_job(req: &MiningRequest, stop: &AtomicBool) -> (r: Result<
    (MiningResponse, JobReport),
    ValidationError,
>)
    ensures
        match r {
            Ok(pair) => {
                &&& challenge_ok(req.challenge@)
                &&& !req.use_max_threads ==> req.threads > 0 && pair.1.results@.len()
                    == req.threads
                &&& req.start_nonce < req.end_nonce
                &&& job_result_ok(
                    hex_decoded(req.challenge@),
                    req.start_nonce,
                    req.end_nonce,
                    pair.1.best,
                )
                &&& job_covers(hex_decoded(req.challenge@), pair.1.best, pair.1.observed@)
                &&& job_witnessed(pair.1.best, pair.1.observed@)
                &&& pair.0.best_nonce == pair.1.best.best_nonce
                &&& pair.0.best_difficulty == pair.1.best.best_difficulty
                &&& pair.0.best_hash@ == base58_of(pair.1.best.best_hash@)
                &&& pair.0.best_hash_bytes@ == pair.1.best.best_digest@
            },
            Err(e) => {
                &&& (e == ValidationError::InvalidChallenge <==> !challenge_ok(req.challenge@))
                &&& (e == ValidationError::ZeroThreads <==> challenge_ok(req.challenge@)
                    && !req.use_max_threads && req.threads == 0)
                &&& (e == ValidationError::EmptyRange <==> challenge_ok(req.challenge@)
                    && !(!req.use_max_threads && req.threads == 0)
                    && req.start_nonce >= req.end_nonce)
            },
        },
        r is Err <==> !challenge_ok(req.challenge@) || (!req.use_max_threads && req.threads == 0)
            || req.start_nonce >= req.end_nonce,
{
    let job = match validate_request(req) {
        Ok(job) => job,
        Err(e) => {
            return Err(e);
        },
    };
    let report = run_job(&job, stop);
    let response = build_response(&report.best);
    Ok((response, report))
}

} // verus!
