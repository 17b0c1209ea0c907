//! The proof-of-work hash oracle.
//!
//! drillx computes, for a challenge and a nonce, a 16-byte equix digest and a
//! 32-byte keccak hash, or fails when the nonce admits no equix solution. The
//! pair depends on the challenge and nonce alone; the solver's scratch memory
//! only backs the computation. The difficulty of a hash — its number of
//! leading zero bits — is computed and verified here rather than trusted.
use vstd::prelude::*;
use vstd::std_specs::bits::u8_leading_zeros;
use vstd::std_specs::bits::axiom_u8_leading_zeros;

verus! {

#[verifier::external_type_specification]
#[verifier::external_body]
pub struct ExSolverMemory(drillx::equix::SolverMemory);

/// What the oracle computes for a challenge and nonce: the digest and hash
/// bytes, or `None` when no solution exists for that nonce.
pub uninterp spec fn oracle_output(challenge: Seq<u8>, nonce: u64) -> Option<(Seq<u8>, Seq<u8>)>;

/// Relies on equix::SolverMemory::new: fresh solver scratch space, owned by
/// one worker and never shared while a search runs.
#[verifier::external_body]
pub fn new_solver_memory() -> drillx::equix::SolverMemory {
    drillx::equix::SolverMemory::new()
}

/// Relies on drillx::hash_with_memory: builds the equix digest for
/// `challenge` and the little-endian bytes of `nonce`, then the keccak hash
/// of the sorted digest and the nonce. Both outputs are functions of the
/// challenge and nonce alone; `memory` is reusable scratch space.
#[verifier::external_body]
pub fn oracle_hash(
    memory: &mut drillx::equix::SolverMemory,
    challenge: &[u8; 32],
    nonce: u64,
) -> (r: Option<([u8; 16], [u8; 32])>)
    ensures
        r is Some <==> oracle_output(challenge@, nonce) is Some,
        r is Some ==> (r->Some_0.0@, r->Some_0.1@) == oracle_output(challenge@, nonce)->Some_0,
{
    match drillx::hash_with_memory(memory, challenge, &nonce.to_le_bytes()) {
        Ok(h) => Some((h.d, h.h)),
        Err(_) => None,
    }
}

/// The difficulty of a hash: its number of leading zero bits.
pub open spec fn spec_difficulty(h: Seq<u8>) -> int
    decreases h.len(),
{
    if h.len() == 0 {
        0
    } else if h[0] == 0 {
        8 + spec_difficulty(h.drop_first())
    } else {
        u8_leading_zeros(h[0]) as int
    }
}

/// The difficulty that the search credits to a nonce: the hash's leading
/// zero count when the oracle succeeds, and zero when it fails.
pub open spec fn nonce_difficulty(challenge: Seq<u8>, nonce: u64) -> int {
    match oracle_output(challenge, nonce) {
        Some(pair) => spec_difficulty(pair.1),
        None => 0,
    }
}

/// A run of `k` zero bytes contributes `8 * k` leading zero bits.
proof fn lemma_difficulty_skip(h: Seq<u8>, k: int)
    requires
        0 <= k <= h.len(),
        forall|m: int| 0 <= m < k ==> h[m] == 0,
    ensures
        spec_difficulty(h) == 8 * k + spec_difficulty(h.skip(k)),
    decreases k,
{
    if k > 0 {
        lemma_difficulty_skip(h.drop_first(), k - 1);
        assert(h.drop_first().skip(k - 1) =~= h.skip(k));
    } else {
        assert(h.skip(0) =~= h);
    }
}

/// The difficulty of a 32-byte hash never exceeds 256 bits.
pub proof fn lemma_difficulty_bound(h: Seq<u8>)
    ensures
        0 <= spec_difficulty(h) <= 8 * h.len(),
    decreases h.len(),
{
    broadcast use axiom_u8_leading_zeros;

    if h.len() > 0 {
        lemma_difficulty_bound(h.drop_first());
    }
}

/// Counts the leading zero bits of a hash, byte by byte.
pub fn difficulty(h: &[u8; 32]) -> (r: u32)
    ensures
        r == spec_difficulty(h@),
{
    broadcast use axiom_u8_leading_zeros;

    let mut count: u32 = 0;
    let mut i: usize = 0;
    while i < 32
        invariant
            0 <= i <= 32,
            count == 8 * i,
            forall|m: int| 0 <= m < i ==> h@[m] == 0,
        decreases 32 - i,
    {
        let lz = h[i].leading_zeros();
        count = count + lz;
        if lz < 8 {
            proof {
                lemma_difficulty_skip(h@, i as int);
                assert(h@.skip(i as int)[0] == h@[i as int]);
            }
            return count;
        }
        i = i + 1;
    }
    proof {
        lemma_difficulty_skip(h@, 32);
        assert(h@.skip(32).len() == 0);
    }
    count
}

} // verus!
