use vstd::prelude::*;
use crate::wake::WakeHandle;

verus! {

/// How many low-power spin hints one `suspend` of the spin policy issues.
pub const SPIN_BUDGET: usize = 100;

/// The policy that decides how the driving thread waits between two polls.
/// It is chosen once, when the driver is composed, not per call.
///
/// `suspend` is entitled to assume that a wake token is already present:
/// within the verified model a computation that reported `Pending` has
/// already signalled the handle, so a suspension never starts without a
/// pending notification — the no-missed-wakeup discipline. Every `suspend`
/// consumes the token, so that notifications coalesce per wake cycle, and
/// counts itself, so that the driver can account for its suspensions.
pub trait SuspendPolicy: Sized {
    /// How many times `suspend` has run so far.
    spec fn suspend_count(&self) -> nat;

    /// Wait until the computation is worth polling again.
    fn suspend(&mut self, wake: &mut WakeHandle)
        requires
            old(wake).notified(),
            old(self).suspend_count() < u64::MAX,
        ensures
            final(self).suspend_count() == old(self).suspend_count() + 1,
            !final(wake).notified(),
    ;
}

/// Relies on std::hint::spin_loop: emits a CPU pause hint and returns,
/// with no observable effect on any value.
#[verifier::external_body]
fn cpu_relax() {
    std::hint::spin_loop()
}

/// The spin policy, for environments with no thread-blocking facility: each
/// `suspend` issues a small bounded number of low-power spin hints and
/// returns unconditionally, relying on the driver to re-poll promptly.
pub struct SpinPolicy {
    suspends: u64,
}

impl SpinPolicy {
    /// A fresh policy that has not yet suspended.
    pub fn new() -> (p: SpinPolicy)
        ensures
            p.suspend_count() == 0,
    {
        SpinPolicy { suspends: 0 }
    }

    /// How many times this policy has suspended.
    pub fn suspends(&self) -> (n: u64)
        ensures
            n == self.suspend_count(),
    {
        self.suspends
    }
}

impl SuspendPolicy for SpinPolicy {
    closed spec fn suspend_count(&self) -> nat {
        self.suspends as nat
    }

    fn suspend(&mut self, wake: &mut WakeHandle) {
        let mut i: usize = 0;
        while i < SPIN_BUDGET
            invariant
                i <= SPIN_BUDGET,
            decreases SPIN_BUDGET - i,
        {
            cpu_relax();
            i = i + 1;
        }
        wake.consume();
        self.suspends = self.suspends + 1;
    }
}

/// The parking policy, for hosted environments: `suspend` returns as soon as
/// a notification is present, consuming it.
///
/// Within the verified model the wake token is always present when `suspend`
/// is entered (a computation signals the handle before reporting `Pending`),
/// so only the fast path of a park — notification already delivered, return
/// at once — is ever taken, and no call can hang. The OS-level blocking
/// primitive that a hosted build would fall back to when the token is absent
/// lives outside the verified library, in the unverified runner.
pub struct ParkPolicy {
    suspends: u64,
}

impl ParkPolicy {
    /// A fresh policy that has not yet suspended.
    pub fn new() -> (p: ParkPolicy)
        ensures
            p.suspend_count() == 0,
    {
        ParkPolicy { suspends: 0 }
    }

    /// How many times this policy has suspended.
    pub fn suspends(&self) -> (n: u64)
        ensures
            n == self.suspend_count(),
    {
        self.suspends
    }
}

impl SuspendPolicy for ParkPolicy {
    closed spec fn suspend_count(&self) -> nat {
        self.suspends as nat
    }

    fn suspend(&mut self, wake: &mut WakeHandle) {
        wake.consume();
        self.suspends = self.suspends + 1;
    }
}

} // verus!
