use wait_rs::computations::{Add, Delay, Mul};
use wait_rs::driver::{block_on, block_on_with};
use wait_rs::strategy::{ParkPolicy, SpinPolicy};
use wait_rs::waitable::Waitable;

#[test]
fn test_single_level() {
    let result = Add::new(2, 2).wait();
    assert_eq!(result, 4);
}

#[test]
fn test_sequential_calls() {
    let result1 = Add::new(1, 2).wait();
    let result2 = Add::new(2, 3).wait();

    assert_eq!(result1, 3);
    assert_eq!(result2, 5);
}

#[test]
fn test_nested_calls() {
    let result = Mul::new(2, 3).wait();

    assert_eq!(result, 6);
}

#[test]
fn immediate_completion_never_suspends() {
    let mut policy = SpinPolicy::new();
    let value = block_on_with(Delay::new(0, 42), &mut policy);
    assert_eq!(value, 42);
    assert_eq!(policy.suspends(), 0);

    let mut parking = ParkPolicy::new();
    let sum = block_on_with(Add::new(20, 3), &mut parking);
    assert_eq!(sum, 23);
    assert_eq!(parking.suspends(), 0);
}

#[test]
fn pending_polls_suspend_once_each() {
    let mut parking = ParkPolicy::new();
    let value = block_on_with(Delay::new(5, 9), &mut parking);
    assert_eq!(value, 9);
    assert_eq!(parking.suspends(), 5);

    let mut spinning = SpinPolicy::new();
    let value = block_on_with(Delay::new(3, 11), &mut spinning);
    assert_eq!(value, 11);
    assert_eq!(spinning.suspends(), 3);
}

#[test]
fn block_on_drives_pending_computation() {
    let value = block_on(Delay::new(7, 1000));
    assert_eq!(value, 1000);
}

#[test]
fn wait_drives_pending_computation() {
    let value = Delay::new(4, 77).wait();
    assert_eq!(value, 77);
}

#[test]
fn mul_by_zero_and_one() {
    assert_eq!(Mul::new(0, 5).wait(), 0);
    assert_eq!(Mul::new(1, 5).wait(), 5);
    assert_eq!(Mul::new(3, 0).wait(), 0);
}

#[test]
fn mul_largest_operand() {
    assert_eq!(Mul::new(1, usize::MAX).wait(), usize::MAX);
}
