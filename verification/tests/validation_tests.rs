use mine_service::request::{MiningRequest, ValidationError, validate_request, resolve_threads};

fn request(challenge: &str, threads: u64, start: u64, end: u64, use_max: bool) -> MiningRequest {
    MiningRequest {
        challenge: challenge.to_string(),
        cutoff_time: 5,
        threads,
        min_difficulty: 0,
        start_nonce: start,
        end_nonce: end,
        use_max_threads: use_max,
    }
}

#[test]
fn rejects_31_byte_challenge() {
    let c = "00".repeat(31);
    let r = validate_request(&request(&c, 4, 0, 100, false));
    assert!(matches!(r, Err(ValidationError::InvalidChallenge)));
}

#[test]
fn rejects_33_byte_challenge() {
    let c = "ab".repeat(33);
    let r = validate_request(&request(&c, 4, 0, 100, false));
    assert!(matches!(r, Err(ValidationError::InvalidChallenge)));
}

#[test]
fn rejection_is_deterministic() {
    let c = "11".repeat(31);
    for _ in 0..3 {
        let r = validate_request(&request(&c, 4, 0, 100, false));
        assert!(matches!(r, Err(ValidationError::InvalidChallenge)));
    }
}

#[test]
fn rejects_odd_length_challenge() {
    let c = "0".repeat(63);
    let r = validate_request(&request(&c, 4, 0, 100, false));
    assert!(matches!(r, Err(ValidationError::InvalidChallenge)));
}

#[test]
fn rejects_non_hex_challenge() {
    let c = "zz".repeat(32);
    let r = validate_request(&request(&c, 4, 0, 100, false));
    assert!(matches!(r, Err(ValidationError::InvalidChallenge)));
}

#[test]
fn accepts_mixed_case_hex() {
    let c = "Ff".repeat(32);
    let r = validate_request(&request(&c, 4, 0, 100, false));
    match r {
        Ok(job) => {
            assert_eq!(job.challenge, [0xffu8; 32]);
            assert_eq!(job.threads, 4);
            assert_eq!(job.start_nonce, 0);
            assert_eq!(job.end_nonce, 100);
        },
        Err(_) => panic!("valid request rejected"),
    }
}

#[test]
fn decodes_challenge_bytes_in_order() {
    let mut c = String::new();
    for i in 0..32 {
        c.push_str(&format!("{:02x}", i));
    }
    let r = validate_request(&request(&c, 2, 0, 10, false));
    match r {
        Ok(job) => {
            for i in 0..32 {
                assert_eq!(job.challenge[i], i as u8);
            }
        },
        Err(_) => panic!("valid request rejected"),
    }
}

#[test]
fn rejects_zero_threads() {
    let c = "00".repeat(32);
    let r = validate_request(&request(&c, 0, 0, 100, false));
    assert!(matches!(r, Err(ValidationError::ZeroThreads)));
}

#[test]
fn rejects_empty_nonce_range() {
    let c = "00".repeat(32);
    let r = validate_request(&request(&c, 4, 100, 100, false));
    assert!(matches!(r, Err(ValidationError::EmptyRange)));
}

#[test]
fn challenge_complaint_comes_first() {
    let r = validate_request(&request("beef", 0, 5, 5, false));
    assert!(matches!(r, Err(ValidationError::InvalidChallenge)));
}

#[test]
fn max_threads_flag_overrides_zero() {
    let c = "00".repeat(32);
    let r = validate_request(&request(&c, 0, 0, 100, true));
    match r {
        Ok(job) => assert!(job.threads >= 1),
        Err(_) => panic!("request with the parallelism flag rejected"),
    }
}

#[test]
fn explicit_thread_count_is_kept() {
    assert_eq!(resolve_threads(7, false), 7);
    assert!(resolve_threads(0, true) >= 1);
}
