use ddns_monitor::retry::{RetryCoordinator, RetryDecision, RetryPolicy};

#[test]
fn gives_up_after_max_attempts_with_doubling_delays() {
    let policy = RetryPolicy { max_attempts: 5, base_delay_ms: 50 };
    let mut c = RetryCoordinator::new(policy);
    assert_eq!(c.policy(), policy);
    let mut delays = Vec::new();
    let mut attempts = 1;
    loop {
        match c.on_failure() {
            RetryDecision::Retry { delay_ms } => {
                delays.push(delay_ms);
                attempts += 1;
            }
            RetryDecision::GiveUp => break,
        }
    }
    assert_eq!(attempts, 5);
    assert_eq!(c.failures(), 5);
    assert_eq!(delays, vec![50, 100, 200, 400]);
}

#[test]
fn single_attempt_gives_up_at_once() {
    let mut c = RetryCoordinator::new(RetryPolicy { max_attempts: 1, base_delay_ms: 50 });
    assert_eq!(c.on_failure(), RetryDecision::GiveUp);
}

#[test]
fn zero_attempts_still_makes_one() {
    let mut c = RetryCoordinator::new(RetryPolicy { max_attempts: 0, base_delay_ms: 50 });
    assert_eq!(c.on_failure(), RetryDecision::GiveUp);
    assert_eq!(c.on_failure(), RetryDecision::GiveUp);
}

#[test]
fn delays_saturate() {
    let mut c = RetryCoordinator::new(RetryPolicy { max_attempts: 4, base_delay_ms: u64::MAX / 2 + 1 });
    assert_eq!(c.on_failure(), RetryDecision::Retry { delay_ms: u64::MAX / 2 + 1 });
    assert_eq!(c.on_failure(), RetryDecision::Retry { delay_ms: u64::MAX });
    assert_eq!(c.on_failure(), RetryDecision::Retry { delay_ms: u64::MAX });
    assert_eq!(c.on_failure(), RetryDecision::GiveUp);
}
