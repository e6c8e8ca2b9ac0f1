use ripclip::backoff::{AcquireOutcome, Backoff, BackoffDecision};

#[test]
fn success_proceeds_immediately() {
    let mut backoff = Backoff::new();
    assert_eq!(backoff.step(AcquireOutcome::Acquired), BackoffDecision::Proceed);
}

#[test]
fn non_transient_failure_gives_up_at_once() {
    let mut backoff = Backoff::new();
    assert_eq!(backoff.step(AcquireOutcome::Failed), BackoffDecision::GiveUp);
}

#[test]
fn contention_exhausts_with_growing_delays() {
    // Every attempt reports contention: the announced delays must grow
    // strictly until the ceiling, and then the bracket gives up.
    let mut backoff = Backoff::new();
    let mut delays: Vec<u32> = Vec::new();
    let mut gave_up = false;
    for _attempt in 0..100 {
        match backoff.step(AcquireOutcome::Busy) {
            BackoffDecision::RetryAfter(d) => delays.push(d),
            BackoffDecision::GiveUp => {
                gave_up = true;
                break;
            }
            BackoffDecision::Proceed => panic!("a busy attempt may not proceed"),
        }
    }
    assert!(gave_up);
    assert_eq!(delays, vec![1, 2, 4, 8, 16, 32, 64, 128, 256]);
    for pair in delays.windows(2) {
        assert!(pair[0] < pair[1]);
    }
}

#[test]
fn success_after_contention_proceeds() {
    let mut backoff = Backoff::new();
    assert_eq!(backoff.step(AcquireOutcome::Busy), BackoffDecision::RetryAfter(1));
    assert_eq!(backoff.step(AcquireOutcome::Busy), BackoffDecision::RetryAfter(2));
    assert_eq!(backoff.step(AcquireOutcome::Acquired), BackoffDecision::Proceed);
}
