use vstd::prelude::*;
use crate::wake::WakeHandle;

verus! {

/// A single poll either produces the computation's value or reports that
/// progress is not yet possible.
pub enum PollResult<T> {
    Ready(T),
    Pending,
}

/// A suspendable computation, expressed as an explicit state machine: each
/// `poll` advances it, and it produces its value exactly once.
///
/// The model a computation exposes to the driver:
///  - `wf` is its internal well-formedness, established by its constructor
///    and preserved by every poll;
///  - `complete` says whether the value has already been handed out (a
///    completed computation is never polled again);
///  - `steps_remaining` counts the `Pending` results still to come before the
///    value is produced;
///  - `result` is the value the computation is going to produce.
///
/// A poll that comes back `Pending` must have signalled the wake handle it
/// was polled with: this is the sequential form of the obligation that every
/// `Pending` is followed by at least one wake, and it is what entitles the
/// driver to suspend afterwards.
pub trait AsyncComputation: Sized {
    type Output;

    /// Internal well-formedness of the state machine.
    spec fn wf(&self) -> bool;

    /// Whether the value has already been produced.
    spec fn complete(&self) -> bool;

    /// How many `Pending` results remain before the value is produced.
    spec fn steps_remaining(&self) -> nat;

    /// The value this computation produces.
    spec fn result(&self) -> Self::Output;

    /// Advance the computation one step with the driver's wake handle.
    fn poll(&mut self, wake: &mut WakeHandle) -> (r: PollResult<Self::Output>)
        requires
            old(self).wf(),
            !old(self).complete(),
        ensures
            final(self).wf(),
            old(self).steps_remaining() == 0 ==> final(self).complete()
                && r == PollResult::<Self::Output>::Ready(old(self).result()),
            old(self).steps_remaining() > 0 ==> !final(self).complete()
                && final(self).steps_remaining() == old(self).steps_remaining() - 1
                && final(self).result() == old(self).result()
                && r == (PollResult::<Self::Output>::Pending)
                && final(wake).notified(),
    ;
}

} // verus!
