use std::time::Duration;
use wait_rs::gate::{
    decide_delegation, detect_reactor_context, run_via_external_reactor, DelegationDecision,
    GateError, ReactorContext,
};

#[test]
fn decision_table_is_exact() {
    assert_eq!(
        decide_delegation(ReactorContext::Outside),
        DelegationDecision::FreshReactor
    );
    assert_eq!(
        decide_delegation(ReactorContext::SingleThreaded),
        DelegationDecision::FatalNesting
    );
    assert_eq!(
        decide_delegation(ReactorContext::MultiThreaded),
        DelegationDecision::NestedIsolated
    );
}

#[test]
fn detect_outside_any_reactor() {
    assert_eq!(detect_reactor_context(), ReactorContext::Outside);
}

#[test]
fn test_on_future_that_requires_tokio() {
    // A timer future is structurally bound to a running reactor; from a
    // non-reactor thread a fresh temporary reactor is built and succeeds.
    let result = run_via_external_reactor(async {
        tokio::time::sleep(Duration::from_millis(5)).await;
        7
    });
    assert_eq!(result.unwrap(), 7);
}

#[test]
fn test_inside_single_thread_tokio_runtime() {
    // From inside a single-threaded reactor instance delegation must refuse
    // deterministically with the fatal usage error instead of deadlocking.
    let runtime = tokio::runtime::Builder::new_current_thread()
        .build()
        .unwrap();

    let result = runtime.block_on(async {
        assert_eq!(detect_reactor_context(), ReactorContext::SingleThreaded);
        run_via_external_reactor(async { 1 })
    });
    assert!(matches!(result, Err(GateError::UnsafeNesting)));
}

#[test]
fn test_inside_multi_thread_tokio_runtime_with_no_timers_or_io() {
    // From inside a multi-threaded reactor instance delegation hands off the
    // current thread's duties and nests an isolated temporary reactor.
    let result = tokio::runtime::Builder::new_multi_thread()
        .build()
        .unwrap()
        .block_on(async {
            assert_eq!(detect_reactor_context(), ReactorContext::MultiThreaded);
            run_via_external_reactor(async {
                tokio::time::sleep(Duration::from_millis(5)).await;
                21
            })
        });
    assert_eq!(result.unwrap(), 21);
}

#[test]
fn delegated_value_is_the_computed_one() {
    // Would fail if the drive entry points handed anything but the awaited
    // value back.
    let result = run_via_external_reactor(async { 2 + 2 });
    assert_eq!(result.unwrap(), 4);
}
