//! Admission of a mining request: challenge decoding, thread resolution and
//! range validation, before any worker is spawned.
use vstd::prelude::*;
use crate::codec::{valid_hex, hex_decoded, decode_hex};

verus! {

/// A mining job as the service receives it: the challenge still hex-encoded.
pub struct MiningRequest {
    pub challenge: String,
    pub cutoff_time: u64,
    pub threads: u64,
    pub min_difficulty: u32,
    pub start_nonce: u64,
    pub end_nonce: u64,
    pub use_max_threads: bool,
}

/// A validated job: the challenge decoded to its 32 bytes, the thread count
/// resolved and positive, the nonce range non-empty.
pub struct JobRequest {
    pub challenge: [u8; 32],
    pub cutoff_time: u64,
    pub threads: u64,
    pub min_difficulty: u32,
    pub start_nonce: u64,
    pub end_nonce: u64,
}

impl JobRequest {
    /// What validation establishes and the worker pool relies on.
    pub open spec fn wf(self) -> bool {
        &&& 0 < self.threads
        &&& self.start_nonce < self.end_nonce
    }
}

/// Why a request was turned away before any search began.
#[derive(Clone, Copy, PartialEq, Eq, Structural, Debug)]
pub enum ValidationError {
    /// The challenge is not hex, or does not spell exactly 32 bytes.
    InvalidChallenge,
    /// The resolved thread count is zero.
    ZeroThreads,
    /// The nonce range holds no nonce.
    EmptyRange,
}

/// A challenge string that decodes to exactly 32 bytes.
pub open spec fn challenge_ok(s: Seq<char>) -> bool {
    valid_hex(s) && s.len() == 64
}

/// Relies on num_cpus::get, whose documentation promises at least one CPU.
#[verifier::external_body]
fn available_parallelism() -> (r: usize)
    ensures
        1 <= r,
{
    num_cpus::get()
}

/// The thread count a request asks for: its own, or all the host offers.
pub fn resolve_threads(threads: u64, use_max_threads: bool) -> (r: u64)
    ensures
        !use_max_threads ==> r == threads,
        use_max_threads ==> 1 <= r,
{
    if use_max_threads {
        available_parallelism() as u64
    } else {
        threads
    }
}

/// Validates a request: the challenge must spell exactly 32 bytes of hex,
/// the resolved thread count must be positive, and the nonce range must be
/// non-empty — in that order of complaint. No state changes and no worker
/// starts on a rejected request.
pub fn validate_request(req: &MiningRequest) -> (r: Result<JobRequest, ValidationError>)
    ensures
        match r {
            Ok(job) => {
                &&& challenge_ok(req.challenge@)
                &&& job.challenge@ == hex_decoded(req.challenge@)
                &&& job.cutoff_time == req.cutoff_time
                &&& job.min_difficulty == req.min_difficulty
                &&& job.start_nonce == req.start_nonce
                &&& job.end_nonce == req.end_nonce
                &&& !req.use_max_threads ==> job.threads == req.threads
                &&& job.wf()
            },
            Err(e) => {
                &&& (e == ValidationError::InvalidChallenge <==> !challenge_ok(req.challenge@))
                &&& (e == ValidationError::ZeroThreads <==> challenge_ok(req.challenge@)
                    && !req.use_max_threads && req.threads == 0)
                &&& (e == ValidationError::EmptyRange <==> challenge_ok(req.challenge@)
                    && !(!req.use_max_threads && req.threads == 0)
                    && req.start_nonce >= req.end_nonce)
            },
        },
        r is Err <==> !challenge_ok(req.challenge@) || (!req.use_max_threads && req.threads == 0)
            || req.start_nonce >= req.end_nonce,
{
    let decoded = decode_hex(req.challenge.as_str());
    match decoded {
        None => Err(ValidationError::InvalidChallenge),
        Some(bytes) => {
            if bytes.len() != 32 {
                return Err(ValidationError::InvalidChallenge);
            }
            let threads = resolve_threads(req.threads, req.use_max_threads);
            if threads == 0 {
                return Err(ValidationError::ZeroThreads);
            }
            if req.start_nonce >= req.end_nonce {
                return Err(ValidationError::EmptyRange);
            }
            let mut challenge = [0u8; 32];
            let mut i: usize = 0;
            while i < 32
                invariant
                    i <= 32,
                    bytes@.len() == 32,
                    forall|k: int| 0 <= k < i ==> challenge@[k] == bytes@[k],
                decreases 32 - i,
            {
                challenge[i] = bytes[i];
                i = i + 1;
            }
            proof {
                assert(challenge@ =~= bytes@);
            }
            Ok(JobRequest {
                challenge,
                cutoff_time: req.cutoff_time,
                threads,
                min_difficulty: req.min_difficulty,
                start_nonce: req.start_nonce,
                end_nonce: req.end_nonce,
            })
        },
    }
}

} // verus!
