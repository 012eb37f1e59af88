use donldr::fetch::backoff_delay;
use donldr::fetch::FetchStep;
use donldr::fetch::Fetcher;
use donldr::fetch::RetryPolicy;

#[test]
fn backoff_doubles_up_to_the_cap() {
    let p = RetryPolicy { max_attempts: 8, base_delay_ms: 100, max_delay_ms: 800 };
    assert_eq!(backoff_delay(&p, 0), 100);
    assert_eq!(backoff_delay(&p, 1), 200);
    assert_eq!(backoff_delay(&p, 2), 400);
    assert_eq!(backoff_delay(&p, 3), 800);
    assert_eq!(backoff_delay(&p, 4), 800);
    assert_eq!(backoff_delay(&p, 63), 800);
}

#[test]
fn retry_budget_is_bounded() {
    let p = RetryPolicy { max_attempts: 3, base_delay_ms: 50, max_delay_ms: 1000 };
    let mut f = Fetcher::new(2, (500, 749), p);
    assert_eq!(f.expected_len(), 250);
    assert_eq!(f.on_transient_failure(), FetchStep::Retry { delay_ms: 50 });
    assert_eq!(f.on_transient_failure(), FetchStep::Retry { delay_ms: 100 });
    assert!(f.budget_left());
    assert_eq!(f.on_transient_failure(), FetchStep::Exhausted);
    assert!(!f.budget_left());
    assert_eq!(f.attempts, 3);
}

#[test]
fn single_attempt_policy_gives_up_immediately() {
    let p = RetryPolicy { max_attempts: 1, base_delay_ms: 100, max_delay_ms: 100 };
    let mut f = Fetcher::new(0, (0, 9), p);
    assert_eq!(f.expected_len(), 10);
    assert_eq!(f.on_transient_failure(), FetchStep::Exhausted);
}
