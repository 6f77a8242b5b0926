use vstd::prelude::*;

verus! {

/// A wake handle is the notification target that a pending computation signals
/// once it can usefully be polled again.
///
/// The handle carries a single binary token: `notify` deposits it, the
/// suspension side consumes it. Because the token is binary, any number of
/// notifications arriving between two polls coalesce into one wake-up, and a
/// notification that arrives before the next suspension is never lost: the
/// token is still there when the suspension looks.
pub struct WakeHandle {
    pending_wake: bool,
}

/// The token state of a wake handle after one `notify`.
pub open spec fn wake_after_notify(token: bool) -> bool {
    true
}

/// The token state of a wake handle after `k` consecutive `notify` calls.
pub open spec fn wake_after_notifies(token: bool, k: nat) -> bool
    decreases k,
{
    if k == 0 {
        token
    } else {
        wake_after_notify(wake_after_notifies(token, (k - 1) as nat))
    }
}

impl WakeHandle {
    /// Whether a notification has arrived and has not yet been consumed.
    pub closed spec fn notified(&self) -> bool {
        self.pending_wake
    }

    /// A fresh handle carries no stale notification. One is created per
    /// driver invocation and shared by every poll of that invocation.
    pub fn new() -> (w: WakeHandle)
        ensures
            !w.notified(),
    {
        WakeHandle { pending_wake: false }
    }

    /// Signal that the computation can usefully be polled again.
    ///
    /// Callable any number of times; it never fails or blocks, and repeated
    /// calls before the token is next consumed are harmless redundant signals.
    pub fn notify(&mut self)
        ensures
            final(self).notified() == wake_after_notify(old(self).notified()),
            final(self).notified(),
    {
        self.pending_wake = true;
    }

    /// Consume the pending notification, if any: the suspension side takes
    /// the token when it resumes, so that stale signals do not bleed into the
    /// next suspension.
    pub fn consume(&mut self) -> (was_notified: bool)
        ensures
            !final(self).notified(),
            was_notified == old(self).notified(),
    {
        let was: bool = self.pending_wake;
        self.pending_wake = false;
        was
    }

    /// Observe whether a notification is pending.
    pub fn is_notified(&self) -> (b: bool)
        ensures
            b == self.notified(),
    {
        self.pending_wake
    }
}

/// Wake coalescing: any positive number of `notify` calls between two polls
/// leaves the handle in exactly the state that a single call does, so no
/// extra and no missing wake cycles can result.
pub proof fn lemma_wake_coalescing(token: bool, k: nat)
    requires
        1 <= k,
    ensures
        wake_after_notifies(token, k) == wake_after_notify(token),
    decreases k,
{
    if k > 1 {
        lemma_wake_coalescing(token, (k - 1) as nat);
    }
}

/// No missed wakeup, in the sequential model: however the token stood
/// before, after any positive number of notifies a pending token is present,
/// so the suspension that follows observes it and is entitled to return at
/// once instead of blocking. The concurrent form of the race — a notify
/// delivered during the transition into the suspension — is the unverified
/// host's park/unpark token and stands outside this library.
pub proof fn lemma_notify_is_observed(token: bool, k: nat)
    requires
        1 <= k,
    ensures
        wake_after_notifies(token, k),
{
    lemma_wake_coalescing(token, k);
}

} // verus!
