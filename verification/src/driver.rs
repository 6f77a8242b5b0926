use vstd::prelude::*;
use crate::poll::{AsyncComputation, PollResult};
use crate::strategy::{SpinPolicy, SuspendPolicy};
use crate::wake::WakeHandle;

verus! {

/// Drive an owned computation to completion with an explicit suspension
/// policy: pin down a fresh wake handle for the whole invocation, then poll;
/// a `Ready` value is returned at once, a `Pending` result suspends through
/// the policy and polls again.
///
/// The returned value is exactly the one the computation was going to
/// produce, and the policy suspends exactly once per `Pending` the
/// computation reports: never for a computation that completes on its first
/// poll, and exactly `steps_remaining` times otherwise.
pub fn block_on_with<C: AsyncComputation, S: SuspendPolicy>(computation: C, policy: &mut S) -> (r:
    C::Output)
    requires
        computation.wf(),
        !computation.complete(),
        old(policy).suspend_count() + computation.steps_remaining() <= u64::MAX,
    ensures
        r == computation.result(),
        final(policy).suspend_count() == old(policy).suspend_count()
            + computation.steps_remaining(),
{
    let ghost start = computation;
    let ghost start_count = policy.suspend_count();
    let mut current = computation;
    let mut wake = WakeHandle::new();
    #[verifier::loop_isolation(false)]
    loop
        invariant
            current.wf(),
            !current.complete(),
            current.result() == start.result(),
            current.steps_remaining() <= start.steps_remaining(),
            policy.suspend_count() == start_count + start.steps_remaining()
                - current.steps_remaining(),
            start_count + start.steps_remaining() <= u64::MAX,
        decreases current.steps_remaining(),
    {
        match current.poll(&mut wake) {
            PollResult::Ready(value) => {
                return value;
            },
            PollResult::Pending => {
                policy.suspend(&mut wake);
            },
        }
    }
}

/// Drive an owned computation to completion and return its value.
///
/// This is the self-contained form of the driver: it composes the spin
/// policy, which needs no thread-blocking facility, with `block_on_with`.
pub fn block_on<C: AsyncComputation>(computation: C) -> (r: C::Output)
    requires
        computation.wf(),
        !computation.complete(),
        computation.steps_remaining() <= u64::MAX,
    ensures
        r == computation.result(),
{
    let mut policy = SpinPolicy::new();
    block_on_with(computation, &mut policy)
}

} // verus!
