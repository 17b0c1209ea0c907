use core::sync::atomic::AtomicBool;
use mine_service::partition::partition_bounds;
use mine_service::pool::{best_index, run_job};
use mine_service::request::{MiningRequest, ValidationError, validate_request};
use mine_service::service::handle_job;
use mine_service::worker::WorkerResult;

fn request(challenge: String, threads: u64, start: u64, end: u64) -> MiningRequest {
    MiningRequest {
        challenge,
        cutoff_time: 1,
        threads,
        min_difficulty: 1,
        start_nonce: start,
        end_nonce: end,
        use_max_threads: false,
    }
}

#[test]
fn zero_challenge_over_a_thousand_nonces() {
    // four workers, each with an even quarter of the range
    assert_eq!(partition_bounds(0, 1000, 4, 0), (0, 250));
    assert_eq!(partition_bounds(0, 1000, 4, 1), (250, 500));
    assert_eq!(partition_bounds(0, 1000, 4, 2), (500, 750));
    assert_eq!(partition_bounds(0, 1000, 4, 3), (750, 1000));
    let stop = AtomicBool::new(false);
    let req = request("0".repeat(64), 4, 0, 1000);
    match handle_job(&req, &stop) {
        Ok((resp, report)) => {
            assert_eq!(report.results.len(), 4);
            assert!(resp.best_nonce < 1000);
            assert_eq!(resp.best_difficulty, report.best.best_difficulty);
            assert_eq!(resp.best_nonce, report.best.best_nonce);
            assert_eq!(resp.url, "https://equix.io");
            assert_eq!(resp.best_hash, bs58::encode(&report.best.best_hash).into_string());
            assert_eq!(resp.best_hash_bytes, report.best.best_digest.to_vec());
        },
        Err(_) => panic!("valid job rejected"),
    }
}

#[test]
fn rejected_job_spawns_no_worker() {
    let stop = AtomicBool::new(false);
    let req = request("00".repeat(31), 4, 0, 1000);
    match handle_job(&req, &stop) {
        Ok(_) => panic!("short challenge accepted"),
        Err(e) => assert_eq!(e, ValidationError::InvalidChallenge),
    }
}

#[test]
fn empty_range_is_rejected_at_the_door() {
    let stop = AtomicBool::new(false);
    let req = request("00".repeat(32), 4, 9, 9);
    match handle_job(&req, &stop) {
        Ok(_) => panic!("empty range accepted"),
        Err(e) => assert_eq!(e, ValidationError::EmptyRange),
    }
}

#[test]
fn cancelled_job_reports_the_default() {
    let stop = AtomicBool::new(true);
    let req = request("00".repeat(32), 4, 0, 1000);
    match handle_job(&req, &stop) {
        Ok((resp, report)) => {
            assert_eq!(resp.best_difficulty, 0);
            assert_eq!(resp.best_nonce, 0);
            assert_eq!(report.total_attempts, 0);
        },
        Err(_) => panic!("valid job rejected"),
    }
}

#[test]
fn reduction_takes_the_greatest_difficulty() {
    let mk = |nonce: u64, diff: u32| WorkerResult {
        best_nonce: nonce,
        best_difficulty: diff,
        best_digest: [0u8; 16],
        best_hash: [0u8; 32],
    };
    assert_eq!(best_index(&vec![mk(0, 3), mk(10, 9), mk(20, 6)]), 1);
    assert_eq!(best_index(&vec![mk(0, 0), mk(10, 0)]), 0);
}

#[test]
fn ties_go_to_the_lowest_worker_index() {
    let mk = |nonce: u64, diff: u32| WorkerResult {
        best_nonce: nonce,
        best_difficulty: diff,
        best_digest: [0u8; 16],
        best_hash: [0u8; 32],
    };
    assert_eq!(best_index(&vec![mk(0, 4), mk(10, 7), mk(20, 7)]), 1);
}

#[test]
fn whole_job_reduces_its_own_workers() {
    let stop = AtomicBool::new(false);
    let mut req = request("ff".repeat(32), 2, 0, 64);
    req.min_difficulty = u32::MAX;
    let job = match validate_request(&req) {
        Ok(job) => job,
        Err(_) => panic!("valid request rejected"),
    };
    let report = run_job(&job, &stop);
    assert_eq!(report.results.len(), 2);
    assert_eq!(report.total_attempts, 64);
    let mut best = 0u32;
    for w in &report.results {
        if w.best_difficulty > best {
            best = w.best_difficulty;
        }
    }
    assert_eq!(report.best.best_difficulty, best);
    assert!(report.best.best_nonce < 64);
}
