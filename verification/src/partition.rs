//! Splitting a nonce range `[start, end)` across `threads` workers.
//!
//! Worker `i` owns `[start + i*size, start + (i+1)*size)` where
//! `size = (end - start) / threads` (integer division). Remainder nonces
//! beyond `size * threads` are left unassigned.
use vstd::prelude::*;

verus! {

/// Size of one worker's slice: integer division of the range by the thread count.
pub open spec fn part_size(start: u64, end: u64, threads: u64) -> int
    recommends
        start <= end,
        0 < threads,
{
    ((end - start) as int) / (threads as int)
}

/// Lower bound of worker `i`'s slice.
pub open spec fn part_lo(start: u64, end: u64, threads: u64, i: u64) -> int {
    start + i * part_size(start, end, threads)
}

/// Upper bound (exclusive) of worker `i`'s slice.
pub open spec fn part_hi(start: u64, end: u64, threads: u64, i: u64) -> int {
    part_lo(start, end, threads, i) + part_size(start, end, threads)
}

/// Every slice lies inside `[start, end]`, so its bounds fit in `u64`.
pub proof fn lemma_partition_in_range(start: u64, end: u64, threads: u64, i: u64)
    requires
        start <= end,
        0 < threads,
        i < threads,
    ensures
        start <= part_lo(start, end, threads, i),
        part_lo(start, end, threads, i) <= part_hi(start, end, threads, i),
        part_hi(start, end, threads, i) <= end,
{
    let q = part_size(start, end, threads);
    let n = (end - start) as int;
    let t = threads as int;
    vstd::arithmetic::div_mod::lemma_fundamental_div_mod(n, t);
    vstd::arithmetic::div_mod::lemma_mod_bound(n, t);
    assert(q * t <= n);
    assert(0 <= q) by (nonlinear_arith)
        requires
            0 <= n,
            0 < t,
            n == t * q + n % t,
            0 <= n % t < t,
    ;
    assert(0 <= i as int * q) by (nonlinear_arith)
        requires
            0 <= i as int,
            0 <= q,
    ;
    assert(i as int * q + q <= t * q) by (nonlinear_arith)
        requires
            i as int + 1 <= t,
            0 <= q,
    ;
}

/// Each slice has exactly `(end - start) / threads` nonces.
pub proof fn lemma_partition_size(start: u64, end: u64, threads: u64, i: u64)
    requires
        start <= end,
        0 < threads,
        i < threads,
    ensures
        part_hi(start, end, threads, i) - part_lo(start, end, threads, i)
            == ((end - start) as int) / (threads as int),
{
}

/// Slices of distinct workers are pairwise disjoint: the earlier one ends
/// no later than the later one begins.
pub proof fn lemma_partitions_disjoint(start: u64, end: u64, threads: u64, i: u64, j: u64)
    requires
        start <= end,
        0 < threads,
        i < j,
        j < threads,
    ensures
        part_hi(start, end, threads, i) <= part_lo(start, end, threads, j),
{
    let q = part_size(start, end, threads);
    lemma_partition_in_range(start, end, threads, i);
    assert(i as int * q + q <= j as int * q) by (nonlinear_arith)
        requires
            i as int + 1 <= j as int,
            0 <= q,
    ;
}

/// The slices together cover at most the requested range: `threads` slices
/// of `(end - start) / threads` nonces each never exceed `end - start`.
pub proof fn lemma_total_coverage(start: u64, end: u64, threads: u64)
    requires
        start <= end,
        0 < threads,
    ensures
        threads as int * part_size(start, end, threads) <= end - start,
{
    let n = (end - start) as int;
    let t = threads as int;
    vstd::arithmetic::div_mod::lemma_fundamental_div_mod(n, t);
    vstd::arithmetic::div_mod::lemma_mod_bound(n, t);
}

/// Bounds of worker `i`'s slice, as the worker pool hands them out.
pub fn partition_bounds(start: u64, end: u64, threads: u64, i: u64) -> (r: (u64, u64))
    requires
        start <= end,
        0 < threads,
        i < threads,
    ensures
        r.0 == part_lo(start, end, threads, i),
        r.1 == part_hi(start, end, threads, i),
        start <= r.0 <= r.1 <= end,
        r.1 - r.0 == ((end - start) as int) / (threads as int),
{
    let size = (end - start) / threads;
    proof {
        lemma_partition_in_range(start, end, threads, i);
        vstd::arithmetic::mul::lemma_mul_is_commutative(size as int, i as int);
    }
    let lo = start + size * i;
    (lo, lo + size)
}

} // verus!
