use util_libs::retry::{
    exceeded_max_retries_message, generate_random_port, pow2_u64, server_start_action, AfterFailure,
    RetryPolicy, StartAction, StartOutcome,
};

#[test]
fn retry_waits_double_each_time() {
    let mut p = RetryPolicy::new(4);
    let mut waits = vec![];
    while p.should_attempt() {
        match p.on_failure() {
            AfterFailure::RetryAfterSecs(s) => waits.push(s),
            AfterFailure::Fail => break,
        }
    }
    assert_eq!(waits, vec![1, 2, 4]);
}

#[test]
fn retry_with_one_attempt_fails_at_once() {
    let mut p = RetryPolicy::new(1);
    assert!(p.should_attempt());
    assert_eq!(p.on_failure(), AfterFailure::Fail);
}

#[test]
fn retry_without_attempts() {
    let p = RetryPolicy::new(0);
    assert!(!p.should_attempt());
    assert_eq!(exceeded_max_retries_message(), "Exceeded max retries");
}

#[test]
fn powers_of_two() {
    assert_eq!(pow2_u64(0), 1);
    assert_eq!(pow2_u64(10), 1024);
    assert_eq!(pow2_u64(63), 1u64 << 63);
}

#[test]
fn server_start_decisions() {
    assert_eq!(server_start_action(0, StartOutcome::Ready), StartAction::Keep);
    assert_eq!(server_start_action(0, StartOutcome::NotReachable), StartAction::KillAndRetry);
    assert_eq!(server_start_action(3, StartOutcome::SpawnFailed), StartAction::Retry);
    assert_eq!(server_start_action(4, StartOutcome::NotReachable), StartAction::KillAndGiveUp);
    assert_eq!(server_start_action(4, StartOutcome::SpawnFailed), StartAction::GiveUp);
}

#[test]
fn random_ports_are_in_range() {
    for _ in 0..50 {
        let p: u32 = generate_random_port().parse().unwrap();
        assert!((4444..5555).contains(&p));
    }
}
