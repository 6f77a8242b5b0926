use wait_rs::strategy::{ParkPolicy, SpinPolicy, SuspendPolicy};
use wait_rs::wake::WakeHandle;

#[test]
fn fresh_handle_is_not_notified() {
    let handle = WakeHandle::new();
    assert!(!handle.is_notified());
}

#[test]
fn notify_sets_the_token() {
    let mut handle = WakeHandle::new();
    handle.notify();
    assert!(handle.is_notified());
}

#[test]
fn repeated_notifies_coalesce() {
    let mut once = WakeHandle::new();
    once.notify();

    let mut thrice = WakeHandle::new();
    thrice.notify();
    thrice.notify();
    thrice.notify();

    // Both handles are observably in the same state: one pending token,
    // consumed by a single wake cycle, leaving nothing behind.
    assert_eq!(once.is_notified(), thrice.is_notified());
    assert!(once.consume());
    assert!(thrice.consume());
    assert_eq!(once.is_notified(), thrice.is_notified());
    assert!(!thrice.is_notified());
}

#[test]
fn notify_before_suspend_is_not_missed() {
    // A notification that arrives before the suspension makes the very next
    // suspend return at once, consuming the token.
    let mut handle = WakeHandle::new();
    handle.notify();

    let mut parking = ParkPolicy::new();
    parking.suspend(&mut handle);
    assert_eq!(parking.suspends(), 1);
    assert!(!handle.is_notified());
}

#[test]
fn spin_suspend_returns_unconditionally_and_consumes() {
    let mut handle = WakeHandle::new();
    handle.notify();

    let mut spinning = SpinPolicy::new();
    spinning.suspend(&mut handle);
    assert_eq!(spinning.suspends(), 1);
    assert!(!handle.is_notified());
}
