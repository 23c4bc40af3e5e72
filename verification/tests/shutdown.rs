use picontrolx::public::shutdown::Signal;

#[test]
fn a_new_bus_is_quiet_with_one_receiver() {
    let signal = Signal::new();
    assert!(!signal.wait_on());
    assert!(!signal.drained());
    assert_eq!(signal.receivers(), 1);
}

#[test]
fn shutdown_without_receivers_returns_at_once() {
    let mut signal = Signal::new();
    assert!(signal.release());
    assert!(signal.shutdown());
    assert!(signal.wait_on());
}

#[test]
fn shutdown_waits_for_every_receiver() {
    let mut signal = Signal::new();
    signal.subscribe();
    signal.subscribe();
    assert_eq!(signal.receivers(), 3);
    assert!(!signal.shutdown());
    assert!(!signal.release());
    assert!(!signal.drained());
    assert!(!signal.release());
    assert!(signal.release());
    assert!(signal.drained());
}

#[test]
fn shutdown_is_idempotent() {
    let mut signal = Signal::new();
    assert!(!signal.shutdown());
    assert!(!signal.shutdown());
    assert!(signal.wait_on());
    assert!(signal.release());
    assert!(signal.shutdown());
    assert!(signal.wait_on());
}

#[test]
fn once_released_every_later_wait_returns_at_once() {
    let mut signal = Signal::new();
    signal.shutdown();
    assert!(signal.wait_on());
    signal.subscribe();
    assert!(signal.wait_on());
    signal.release();
    assert!(signal.wait_on());
    signal.close();
    assert!(signal.wait_on());
    signal.shutdown();
    assert!(signal.wait_on());
}

#[test]
fn a_dropped_sender_lets_the_waiters_go() {
    let mut signal = Signal::new();
    assert!(!signal.wait_on());
    signal.close();
    assert!(signal.wait_on());
}

#[test]
fn a_receiver_may_be_taken_after_the_signal() {
    let mut signal = Signal::new();
    signal.shutdown();
    signal.subscribe();
    assert!(signal.wait_on());
    assert!(!signal.release());
    assert!(signal.release());
}

#[test]
fn releasing_more_than_was_handed_out_stays_at_zero() {
    let mut signal = Signal::new();
    assert!(signal.release());
    assert!(signal.release());
    signal.subscribe();
    assert!(!signal.drained());
    assert!(signal.release());
}
