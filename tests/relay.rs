use langview::relay::{forward_on_wake, Polled, POLL_PERIOD_MS};

#[test]
fn only_a_signal_is_forwarded() {
    assert!(forward_on_wake(Polled::Signal));
    assert!(!forward_on_wake(Polled::Empty));
    assert!(!forward_on_wake(Polled::Closed));
    assert_eq!(POLL_PERIOD_MS, 500);
}
