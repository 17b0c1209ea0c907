use core::sync::atomic::AtomicBool;
use mine_service::worker::{search_partition, Outcome};
use mine_service::control::{ControllerState, admit_raise, admit_start, complete, initial_state};

#[test]
fn cancel_before_start_returns_default() {
    let stop = AtomicBool::new(true);
    let challenge = [0u8; 32];
    let r = search_partition(&challenge, 10, 500, 10, 0, &stop);
    assert_eq!(r.attempts, 0);
    assert_eq!(r.outcome, Outcome::Cancelled);
    assert_eq!(r.result.best_difficulty, 0);
    assert_eq!(r.result.best_nonce, 10);
}

#[test]
fn empty_slice_exhausts_at_once() {
    let stop = AtomicBool::new(false);
    let r = search_partition(&[0u8; 32], 7, 7, 1, 0, &stop);
    assert_eq!(r.attempts, 0);
    assert_eq!(r.outcome, Outcome::Exhausted);
    assert_eq!(r.result.best_nonce, 7);
    assert_eq!(r.result.best_difficulty, 0);
}

#[test]
fn lapsed_budget_with_met_floor_stops_at_the_batch() {
    let stop = AtomicBool::new(false);
    let r = search_partition(&[0u8; 32], 0, 100_000, 0, 0, &stop);
    assert_eq!(r.attempts, 25);
    assert_eq!(r.outcome, Outcome::CutoffReached);
}

#[test]
fn unmet_floor_keeps_searching_past_the_budget() {
    let stop = AtomicBool::new(false);
    let r = search_partition(&[0u8; 32], 0, 60, 0, u32::MAX, &stop);
    assert_eq!(r.attempts, 60);
    assert_eq!(r.outcome, Outcome::Exhausted);
    assert!(r.result.best_difficulty < u32::MAX);
}

#[test]
fn best_find_matches_the_oracle() {
    let stop = AtomicBool::new(false);
    let challenge = [7u8; 32];
    let r = search_partition(&challenge, 0, 40, 1_000_000, u32::MAX, &stop);
    assert!(r.result.best_difficulty > 0, "no candidate solved in a full slice");
    assert!(r.result.best_nonce < 40);
    let h = drillx::hash(&challenge, &r.result.best_nonce.to_le_bytes())
        .expect("the reported best does not solve");
    assert_eq!(h.d, r.result.best_digest);
    assert_eq!(h.h, r.result.best_hash);
    assert_eq!(h.difficulty(), r.result.best_difficulty);
}

#[test]
fn preemption_cancels_the_old_job_only() {
    let s0 = initial_state();
    let (r0, wait0) = admit_raise(s0);
    assert!(!wait0);
    let job_a = admit_start(r0);
    // a second request arrives while the first job runs
    let (r1, wait1) = admit_raise(job_a);
    assert!(wait1);
    assert!(r1.cancel_requested);
    // the first job's workers see the mirrored signal and give up at once
    let stop_a = AtomicBool::new(r1.cancel_requested);
    let ra = search_partition(&[0u8; 32], 0, 1000, 5, 0, &stop_a);
    assert_eq!(ra.attempts, 0);
    assert_eq!(ra.result.best_difficulty, 0);
    // the second job starts with a clear signal and runs to its own end
    let job_b = admit_start(r1);
    assert_eq!(job_b, ControllerState { running: true, cancel_requested: false });
    let stop_b = AtomicBool::new(job_b.cancel_requested);
    let rb = search_partition(&[1u8; 32], 0, 500, 0, 0, &stop_b);
    assert_eq!(rb.attempts, 25);
    let done = complete(job_b);
    assert!(!done.running);
}
