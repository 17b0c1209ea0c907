//! The service's answer to one mining request.
use vstd::prelude::*;
use crate::codec::{base58_of, encode_base58};
use crate::worker::WorkerResult;

verus! {

broadcast use vstd::string::to_string_from_display_ensures_for_str;

/// The response body: the winning nonce and difficulty, the hash in base58
/// and the raw digest bytes that prove it, and an attribution URL.
pub struct MiningResponse {
    pub best_nonce: u64,
    pub best_difficulty: u32,
    pub best_hash: String,
    pub best_hash_bytes: Vec<u8>,
    pub url: String,
}

/// Renders the global best as the response body: the hash spelled in
/// base58, the digest handed over raw.
pub fn build_response(best: &WorkerResult) -> (r: MiningResponse)
    ensures
        r.best_nonce == best.best_nonce,
        r.best_difficulty == best.best_difficulty,
        r.best_hash@ == base58_of(best.best_hash@),
        r.best_hash_bytes@ == best.best_digest@,
        r.url@ == "https://equix.io"@,
{
    MiningResponse {
        best_nonce: best.best_nonce,
        best_difficulty: best.best_difficulty,
        best_hash: encode_base58(&best.best_hash),
        best_hash_bytes: vstd::slice::slice_to_vec(best.best_digest.as_slice()),
        url: "https://equix.io".to_string(),
    }
}

} // verus!
